//! The replies of the service, and what each of them amounts to.

use crate::api::error::{SynologyError, TaskError};
use crate::api::task::{DownloadTask, DownloadTaskModel};
use crate::text::{decimal, push_decimal};
use vstd::prelude::*;

verus! {

/// What a login hands out: the session id.
#[derive(Debug, Clone, PartialEq, Eq)]
pub struct AuthData {
    pub sid: String,
}

/// What a `AuthData` holds, with texts as plain characters.
pub struct AuthDataModel {
    pub sid: Seq<char>,
}

impl View for AuthData {
    type V = AuthDataModel;

    open spec fn view(&self) -> AuthDataModel {
        AuthDataModel {
            sid: self.sid@,
        }
    }
}

impl DeepView for AuthData {
    type V = AuthDataModel;

    open spec fn deep_view(&self) -> AuthDataModel {
        self.view()
    }
}

/// The reply to a login or logout.
#[derive(Debug, Clone, PartialEq, Eq)]
pub struct AuthResponse {
    pub success: bool,
    pub data: Option<AuthData>,
    pub error: Option<SynologyError>,
}

/// What a `AuthResponse` holds, with texts as plain characters.
pub struct AuthResponseModel {
    pub success: bool,
    pub data: Option<AuthDataModel>,
    pub error: Option<SynologyError>,
}

impl View for AuthResponse {
    type V = AuthResponseModel;

    open spec fn view(&self) -> AuthResponseModel {
        AuthResponseModel {
            success: self.success,
            data: self.data.deep_view(),
            error: self.error,
        }
    }
}

impl DeepView for AuthResponse {
    type V = AuthResponseModel;

    open spec fn deep_view(&self) -> AuthResponseModel {
        self.view()
    }
}

/// The download limits and settings of the service.
#[derive(Debug, Clone, PartialEq, Eq)]
pub struct ConfigData {
    pub bt_max_download: u64,
    pub bt_max_upload: u64,
    pub default_destination: Option<String>,
    pub emule_default_destination: Option<String>,
    pub emule_enabled: bool,
    pub emule_max_download: u64,
    pub emule_max_upload: u64,
    pub ftp_max_download: u64,
    pub http_max_download: u64,
    pub nzb_max_download: u64,
    pub unzip_service_enabled: bool,
}

/// What a `ConfigData` holds, with texts as plain characters.
pub struct ConfigDataModel {
    pub bt_max_download: u64,
    pub bt_max_upload: u64,
    pub default_destination: Option<Seq<char>>,
    pub emule_default_destination: Option<Seq<char>>,
    pub emule_enabled: bool,
    pub emule_max_download: u64,
    pub emule_max_upload: u64,
    pub ftp_max_download: u64,
    pub http_max_download: u64,
    pub nzb_max_download: u64,
    pub unzip_service_enabled: bool,
}

impl View for ConfigData {
    type V = ConfigDataModel;

    open spec fn view(&self) -> ConfigDataModel {
        ConfigDataModel {
            bt_max_download: self.bt_max_download,
            bt_max_upload: self.bt_max_upload,
            default_destination: self.default_destination.deep_view(),
            emule_default_destination: self.emule_default_destination.deep_view(),
            emule_enabled: self.emule_enabled,
            emule_max_download: self.emule_max_download,
            emule_max_upload: self.emule_max_upload,
            ftp_max_download: self.ftp_max_download,
            http_max_download: self.http_max_download,
            nzb_max_download: self.nzb_max_download,
            unzip_service_enabled: self.unzip_service_enabled,
        }
    }
}

impl DeepView for ConfigData {
    type V = ConfigDataModel;

    open spec fn deep_view(&self) -> ConfigDataModel {
        self.view()
    }
}

/// The reply to a request for the settings.
#[derive(Debug, Clone, PartialEq, Eq)]
pub struct ConfigResponse {
    pub success: bool,
    pub data: ConfigData,
    pub error: Option<SynologyError>,
}

/// What a `ConfigResponse` holds, with texts as plain characters.
pub struct ConfigResponseModel {
    pub success: bool,
    pub data: ConfigDataModel,
    pub error: Option<SynologyError>,
}

impl View for ConfigResponse {
    type V = ConfigResponseModel;

    open spec fn view(&self) -> ConfigResponseModel {
        ConfigResponseModel {
            success: self.success,
            data: self.data.deep_view(),
            error: self.error,
        }
    }
}

impl DeepView for ConfigResponse {
    type V = ConfigResponseModel;

    open spec fn deep_view(&self) -> ConfigResponseModel {
        self.view()
    }
}

/// A page of the task list.
#[derive(Debug, Clone, PartialEq, Eq)]
pub struct TaskData {
    pub offset: usize,
    pub total: usize,
    pub tasks: Vec<DownloadTask>,
}

/// What a `TaskData` holds, with texts as plain characters.
pub struct TaskDataModel {
    pub offset: usize,
    pub total: usize,
    pub tasks: Seq<DownloadTaskModel>,
}

impl View for TaskData {
    type V = TaskDataModel;

    open spec fn view(&self) -> TaskDataModel {
        TaskDataModel {
            offset: self.offset,
            total: self.total,
            tasks: self.tasks.deep_view(),
        }
    }
}

impl DeepView for TaskData {
    type V = TaskDataModel;

    open spec fn deep_view(&self) -> TaskDataModel {
        self.view()
    }
}

/// The reply to a request for the task list.
#[derive(Debug, Clone, PartialEq, Eq)]
pub struct TaskListResponse {
    pub success: bool,
    pub data: Option<TaskData>,
    pub error: Option<SynologyError>,
}

/// What a `TaskListResponse` holds, with texts as plain characters.
pub struct TaskListResponseModel {
    pub success: bool,
    pub data: Option<TaskDataModel>,
    pub error: Option<SynologyError>,
}

impl View for TaskListResponse {
    type V = TaskListResponseModel;

    open spec fn view(&self) -> TaskListResponseModel {
        TaskListResponseModel {
            success: self.success,
            data: self.data.deep_view(),
            error: self.error,
        }
    }
}

impl DeepView for TaskListResponse {
    type V = TaskListResponseModel;

    open spec fn deep_view(&self) -> TaskListResponseModel {
        self.view()
    }
}

/// The tasks that details were asked for.
#[derive(Debug, Clone, PartialEq, Eq)]
pub struct TaskInfoData {
    pub tasks: Vec<DownloadTask>,
}

/// What a `TaskInfoData` holds, with texts as plain characters.
pub struct TaskInfoDataModel {
    pub tasks: Seq<DownloadTaskModel>,
}

impl View for TaskInfoData {
    type V = TaskInfoDataModel;

    open spec fn view(&self) -> TaskInfoDataModel {
        TaskInfoDataModel {
            tasks: self.tasks.deep_view(),
        }
    }
}

impl DeepView for TaskInfoData {
    type V = TaskInfoDataModel;

    open spec fn deep_view(&self) -> TaskInfoDataModel {
        self.view()
    }
}

/// The reply to a request for task details.
#[derive(Debug, Clone, PartialEq, Eq)]
pub struct TaskDetailResponse {
    pub success: bool,
    pub data: Option<TaskInfoData>,
    pub error: Option<SynologyError>,
}

/// What a `TaskDetailResponse` holds, with texts as plain characters.
pub struct TaskDetailResponseModel {
    pub success: bool,
    pub data: Option<TaskInfoDataModel>,
    pub error: Option<SynologyError>,
}

impl View for TaskDetailResponse {
    type V = TaskDetailResponseModel;

    open spec fn view(&self) -> TaskDetailResponseModel {
        TaskDetailResponseModel {
            success: self.success,
            data: self.data.deep_view(),
            error: self.error,
        }
    }
}

impl DeepView for TaskDetailResponse {
    type V = TaskDetailResponseModel;

    open spec fn deep_view(&self) -> TaskDetailResponseModel {
        self.view()
    }
}

/// The outcome of an action for one task: zero is success.
#[derive(Debug, Clone, PartialEq, Eq)]
pub struct TaskActionResponse {
    pub error: u32,
    pub id: String,
}

/// What a `TaskActionResponse` holds, with texts as plain characters.
pub struct TaskActionResponseModel {
    pub error: u32,
    pub id: Seq<char>,
}

impl View for TaskActionResponse {
    type V = TaskActionResponseModel;

    open spec fn view(&self) -> TaskActionResponseModel {
        TaskActionResponseModel {
            error: self.error,
            id: self.id@,
        }
    }
}

impl DeepView for TaskActionResponse {
    type V = TaskActionResponseModel;

    open spec fn deep_view(&self) -> TaskActionResponseModel {
        self.view()
    }
}

/// The reply to a pause, resume or delete.
#[derive(Debug, Clone, PartialEq, Eq)]
pub struct TaskActionResponseWrapper {
    pub success: bool,
    pub data: Option<Vec<TaskActionResponse>>,
    pub error: Option<SynologyError>,
}

/// What a `TaskActionResponseWrapper` holds, with texts as plain characters.
pub struct TaskActionResponseWrapperModel {
    pub success: bool,
    pub data: Option<Seq<TaskActionResponseModel>>,
    pub error: Option<SynologyError>,
}

impl View for TaskActionResponseWrapper {
    type V = TaskActionResponseWrapperModel;

    open spec fn view(&self) -> TaskActionResponseWrapperModel {
        TaskActionResponseWrapperModel {
            success: self.success,
            data: self.data.deep_view(),
            error: self.error,
        }
    }
}

impl DeepView for TaskActionResponseWrapper {
    type V = TaskActionResponseWrapperModel;

    open spec fn deep_view(&self) -> TaskActionResponseWrapperModel {
        self.view()
    }
}
/// The reply to a request that creates a task, with its error decoded.
#[derive(Debug, Clone, Copy, PartialEq, Eq, Structural)]
pub struct CreateTaskResponseWrapper {
    pub success: bool,
    pub error: Option<TaskError>,
}

impl CreateTaskResponseWrapper {
    /// What the reply amounts to: success; or the error it names; or, where
    /// it fails without naming one, a parse error.
    pub open spec fn outcome(self) -> Result<(), TaskError> {
        if self.success {
            Ok(())
        } else {
            match self.error {
                Some(e) => Err(e),
                None => Err(TaskError::ParseError),
            }
        }
    }

    /// Decodes the error code of a reply, if it has one.
    pub fn new(success: bool, error: Option<SynologyError>) -> (reply: Self)
        ensures
            reply.success == success,
            reply.error == match error {
                Some(e) => Some(TaskError::of_code(e.code)),
                None => None,
            },
    {
        let error = match error {
            Some(e) => Some(TaskError::from_code(e.code)),
            None => None,
        };
        CreateTaskResponseWrapper { success, error }
    }

    /// What the reply amounts to.
    pub fn into_result(self) -> (r: Result<(), TaskError>)
        ensures
            r == self.outcome(),
    {
        if self.success {
            Ok(())
        } else {
            match self.error {
                Some(e) => Err(e),
                None => Err(TaskError::ParseError),
            }
        }
    }
}

/// How an optional error object is written in a message.
pub open spec fn error_debug_text(error: Option<SynologyError>) -> Seq<char> {
    match error {
        Some(e) => "Some(SynologyError { code: "@ + decimal(e.code as nat) + " })"@,
        None => "None"@,
    }
}

/// Appends an optional error object to a message.
pub fn push_error_debug(out: &mut String, error: &Option<SynologyError>)
    ensures
        final(out)@ == old(out)@ + error_debug_text(*error),
{
    match error {
        Some(e) => {
            out.append("Some(SynologyError { code: ");
            push_decimal(out, e.code as u64);
            out.append(" })");
            assert(out@ =~= old(out)@ + error_debug_text(*error));
        },
        None => {
            out.append("None");
        },
    }
}

/// The position of the first task whose action failed, in list order.
pub open spec fn first_failure(results: Seq<TaskActionResponseModel>) -> Option<int> {
    if exists|i: int| 0 <= i < results.len() && results[i].error != 0 {
        let first = choose|i: int|
            0 <= i < results.len() && results[i].error != 0 && forall|j: int|
                0 <= j < i ==> results[j].error == 0;
        Some(first)
    } else {
        None
    }
}

/// The first failure is a failure, nothing before it is one, and there is
/// none only where every action succeeded.
pub proof fn lemma_first_failure(results: Seq<TaskActionResponseModel>)
    ensures
        match first_failure(results) {
            Some(i) => 0 <= i < results.len() && results[i].error != 0 && forall|j: int|
                0 <= j < i ==> results[j].error == 0,
            None => forall|j: int| 0 <= j < results.len() ==> results[j].error == 0,
        },
{
    if exists|i: int| 0 <= i < results.len() && results[i].error != 0 {
        let w = choose|i: int| 0 <= i < results.len() && results[i].error != 0;
        lemma_least_failure(results, w);
    }
}

proof fn lemma_least_failure(results: Seq<TaskActionResponseModel>, w: int)
    requires
        0 <= w < results.len(),
        results[w].error != 0,
    ensures
        exists|i: int|
            0 <= i < results.len() && results[i].error != 0 && forall|j: int|
                0 <= j < i ==> results[j].error == 0,
    decreases w,
{
    if exists|k: int| 0 <= k < w && results[k].error != 0 {
        let k = choose|k: int| 0 <= k < w && results[k].error != 0;
        lemma_least_failure(results, k);
    } else {
        assert(0 <= w < results.len() && results[w].error != 0 && forall|j: int|
            0 <= j < w ==> results[j].error == 0);
    }
}

/// The position of the first task whose action failed, in list order.
pub fn find_first_failure(results: &Vec<TaskActionResponse>) -> (found: Option<usize>)
    ensures
        match found {
            Some(i) => first_failure(results.deep_view()) == Some(i as int) && i
                < results@.len(),
            None => first_failure(results.deep_view()) is None,
        },
{
    let ghost all = results.deep_view();
    let mut i: usize = 0;
    while i < results.len()
        invariant
            i <= results@.len(),
            all == results.deep_view(),
            forall|j: int| 0 <= j < i ==> all[j].error == 0,
        decreases results@.len() - i,
    {
        if results[i].error != 0 {
            proof {
                lemma_first_failure(all);
                assert(all[i as int].error != 0);
            }
            return Some(i);
        }
        i = i + 1;
    }
    None
}

} // verus!
