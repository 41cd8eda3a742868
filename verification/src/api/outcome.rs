//! What each reply of the service amounts to: a value, or the error that is
//! shown to the user.

use crate::api::client::{
    catalog_after, ApiEntry, ApiEntryModel, Reply, ReplyModel, SynologyClient,
};
use crate::api::error::{AuthError, TaskError};
use crate::api::reply::{
    AuthResponse, AuthResponseModel, ConfigData, ConfigDataModel, ConfigResponse,
    ConfigResponseModel, CreateTaskResponseWrapper, TaskActionResponseWrapper,
    TaskActionResponseWrapperModel, TaskDetailResponse, TaskDetailResponseModel,
    TaskListResponse, TaskListResponseModel, error_debug_text, find_first_failure,
    first_failure, push_error_debug,
};
use crate::api::task::{DownloadTask, DownloadTaskModel};
use crate::text::{decimal, push_decimal};
use vstd::prelude::*;

verus! {

/// The catalogue of the service as it arrives.
#[derive(Debug, Clone, PartialEq, Eq)]
pub enum ApiCatalog {
    /// The reply has no `data` member.
    MissingData,
    /// The `data` member is not an object.
    NotAnObject,
    /// The members of `data`, in the order in which they are walked.
    Entries(Vec<ApiEntry>),
}

/// What an `ApiCatalog` holds, with texts as plain characters.
pub enum ApiCatalogModel {
    MissingData,
    NotAnObject,
    Entries(Seq<ApiEntryModel>),
}

impl DeepView for ApiCatalog {
    type V = ApiCatalogModel;

    open spec fn deep_view(&self) -> ApiCatalogModel {
        match self {
            ApiCatalog::MissingData => ApiCatalogModel::MissingData,
            ApiCatalog::NotAnObject => ApiCatalogModel::NotAnObject,
            ApiCatalog::Entries(entries) => ApiCatalogModel::Entries(entries.deep_view()),
        }
    }
}

/// Nothing, or the text of an error.
pub open spec fn done_or_text(r: Result<(), String>) -> Result<(), Seq<char>> {
    match r {
        Ok(_) => Ok(()),
        Err(text) => Err(text@),
    }
}

/// A list of tasks, or the text of an error.
pub open spec fn tasks_or_text(r: Result<Vec<DownloadTask>, String>) -> Result<
    Seq<DownloadTaskModel>,
    Seq<char>,
> {
    match r {
        Ok(tasks) => Ok(tasks.deep_view()),
        Err(text) => Err(text@),
    }
}

/// A list of ids, or the text of an error.
pub open spec fn ids_or_text(r: Result<Vec<String>, String>) -> Result<Seq<Seq<char>>, Seq<char>> {
    match r {
        Ok(ids) => Ok(ids.deep_view()),
        Err(text) => Err(text@),
    }
}

/// The settings, or the text of an error.
pub open spec fn config_or_text(r: Result<ConfigData, String>) -> Result<
    ConfigDataModel,
    Seq<char>,
> {
    match r {
        Ok(config) => Ok(config@),
        Err(text) => Err(text@),
    }
}

/// The error of a login or logout that the service turned down: the one its
/// code stands for, or `Other(0)` where it names none.
pub open spec fn refusal(reply: AuthResponseModel) -> AuthError {
    match reply.error {
        Some(e) => AuthError::of_code(e.code),
        None => AuthError::Other(0),
    }
}

/// What a login amounts to: the session id, or why there is none. A reply
/// that never arrived or could not be decoded is a parse error.
pub open spec fn login_outcome(reply: Option<AuthResponseModel>) -> Result<Seq<char>, AuthError> {
    match reply {
        None => Err(AuthError::ParseError),
        Some(reply) => if !reply.success {
            Err(refusal(reply))
        } else {
            match reply.data {
                Some(data) => Ok(data.sid),
                None => Err(AuthError::Other(0)),
            }
        },
    }
}

/// What a logout amounts to.
pub open spec fn logout_outcome(reply: Option<AuthResponseModel>) -> Result<(), AuthError> {
    match reply {
        None => Err(AuthError::ParseError),
        Some(reply) => if !reply.success {
            Err(refusal(reply))
        } else {
            Ok(())
        },
    }
}

/// What the reply to a catalogue request amounts to.
pub open spec fn catalog_outcome(reply: ReplyModel<ApiCatalogModel>) -> Result<
    Seq<ApiEntryModel>,
    Seq<char>,
> {
    match reply {
        ReplyModel::SendFailed(e) => Err(e),
        ReplyModel::BodyFailed(e) => Err(e),
        ReplyModel::Malformed(e) => Err(e),
        ReplyModel::Received(ApiCatalogModel::MissingData) => Err("Missing `data` field"@),
        ReplyModel::Received(ApiCatalogModel::NotAnObject) => Err("`data` is not an object"@),
        ReplyModel::Received(ApiCatalogModel::Entries(entries)) => Ok(entries),
    }
}

/// What the reply to a settings request amounts to.
pub open spec fn config_outcome(reply: ReplyModel<ConfigResponseModel>) -> Result<
    ConfigDataModel,
    Seq<char>,
> {
    match reply {
        ReplyModel::SendFailed(e) => Err(e),
        ReplyModel::BodyFailed(e) => Err(e),
        ReplyModel::Malformed(e) => Err("parsing ConfigResponse: "@ + e),
        ReplyModel::Received(reply) => if !reply.success {
            Err("getconfig returned success=false"@)
        } else {
            Ok(reply.data)
        },
    }
}

/// What the reply to a request for the task list amounts to.
pub open spec fn task_list_outcome(reply: ReplyModel<TaskListResponseModel>) -> Result<
    Seq<DownloadTaskModel>,
    Seq<char>,
> {
    match reply {
        ReplyModel::SendFailed(e) => Err(e),
        ReplyModel::BodyFailed(e) => Err(e),
        ReplyModel::Malformed(e) => Err(e),
        ReplyModel::Received(reply) => if !reply.success {
            Err("Failed to list tasks"@)
        } else {
            match reply.data {
                Some(data) => Ok(data.tasks),
                None => Err("No task data returned"@),
            }
        },
    }
}

/// The ids of the tasks, in order.
pub open spec fn ids_of(tasks: Seq<DownloadTaskModel>) -> Seq<Seq<char>> {
    tasks.map_values(|t: DownloadTaskModel| t.id)
}

/// What the reply to a request for the bare task list amounts to.
pub open spec fn task_ids_outcome(reply: ReplyModel<TaskListResponseModel>) -> Result<
    Seq<Seq<char>>,
    Seq<char>,
> {
    match reply {
        ReplyModel::SendFailed(e) => Err(e),
        ReplyModel::BodyFailed(e) => Err(e),
        ReplyModel::Malformed(e) => Err(e),
        ReplyModel::Received(reply) => if !reply.success {
            Err("❌ Failed to list tasks: "@ + error_debug_text(reply.error))
        } else {
            match reply.data {
                Some(data) => Ok(ids_of(data.tasks)),
                None => Err("No task data returned"@),
            }
        },
    }
}

/// What the reply to a request for task details amounts to.
pub open spec fn task_details_outcome(reply: ReplyModel<TaskDetailResponseModel>) -> Result<
    Seq<DownloadTaskModel>,
    Seq<char>,
> {
    match reply {
        ReplyModel::SendFailed(e) => Err(e),
        ReplyModel::BodyFailed(e) => Err(e),
        ReplyModel::Malformed(e) => Err(e),
        ReplyModel::Received(reply) => if !reply.success {
            Err("❌ Failed to fetch task info: "@ + error_debug_text(reply.error))
        } else {
            match reply.data {
                Some(data) => Ok(data.tasks),
                None => Err("No task data returned"@),
            }
        },
    }
}

/// The words with which the failures of one action are reported.
pub struct ActionWords {
    pub send_failed: Seq<char>,
    pub body_failed: Seq<char>,
    pub malformed: Seq<char>,
    pub refused: Seq<char>,
    pub no_data: Seq<char>,
    pub failed_for: Seq<char>,
    pub before_code: Seq<char>,
    pub after_code: Seq<char>,
}

/// What the reply to an action on tasks amounts to. The batch has failed as
/// soon as one task failed, and the failure reported is that of the first
/// such task in list order, with its id and its code.
pub open spec fn action_outcome(
    reply: ReplyModel<TaskActionResponseWrapperModel>,
    words: ActionWords,
) -> Result<(), Seq<char>> {
    match reply {
        ReplyModel::SendFailed(e) => Err(words.send_failed + e),
        ReplyModel::BodyFailed(e) => Err(words.body_failed + e),
        ReplyModel::Malformed(e) => Err(words.malformed + e),
        ReplyModel::Received(reply) => if !reply.success {
            Err(words.refused + error_debug_text(reply.error))
        } else {
            match reply.data {
                None => Err(words.no_data),
                Some(results) => match first_failure(results) {
                    Some(i) => Err(
                        words.failed_for + results[i].id + words.before_code + decimal(
                            results[i].error as nat,
                        ) + words.after_code,
                    ),
                    None => Ok(()),
                },
            }
        },
    }
}

/// The words of a pause.
pub open spec fn pause_words() -> ActionWords {
    ActionWords {
        send_failed: "Network error during pause_task: "@,
        body_failed: "Failed to read pause response body: "@,
        malformed: "Failed to parse pause_task envelope: "@,
        refused: "Pause API returned success=false: "@,
        no_data: "Pause API returned no `data` field"@,
        failed_for: "Pause failed for task "@,
        before_code: ": error code "@,
        after_code: ""@,
    }
}

/// The words of a resume.
pub open spec fn resume_words() -> ActionWords {
    ActionWords {
        send_failed: ""@,
        body_failed: ""@,
        malformed: "Failed to parse resume envelope: "@,
        refused: "Resume API returned success=false: "@,
        no_data: "Resume API returned no data"@,
        failed_for: "Resume failed for "@,
        before_code: " (code "@,
        after_code: ")"@,
    }
}

/// The words of a delete.
pub open spec fn delete_words() -> ActionWords {
    ActionWords {
        send_failed: "Network error during delete_task: "@,
        body_failed: "Failed to read delete response body: "@,
        malformed: "Failed to parse delete_task envelope: "@,
        refused: "Delete API returned success=false: "@,
        no_data: "Delete API returned no `data` field"@,
        failed_for: "Delete failed for task "@,
        before_code: ": error code "@,
        after_code: ""@,
    }
}

/// `prefix` followed by `rest`.
fn prefixed(prefix: &str, rest: &str) -> (text: String)
    ensures
        text@ == prefix@ + rest@,
{
    let mut text = String::from_str(prefix);
    text.append(rest);
    text
}

/// Judges the reply to an action with the given words.
fn judge_action(
    reply: Reply<TaskActionResponseWrapper>,
    send_failed: &str,
    body_failed: &str,
    malformed: &str,
    refused: &str,
    no_data: &str,
    failed_for: &str,
    before_code: &str,
    after_code: &str,
) -> (r: Result<(), String>)
    ensures
        done_or_text(r) == action_outcome(
            reply.deep_view(),
            ActionWords {
                send_failed: send_failed@,
                body_failed: body_failed@,
                malformed: malformed@,
                refused: refused@,
                no_data: no_data@,
                failed_for: failed_for@,
                before_code: before_code@,
                after_code: after_code@,
            },
        ),
{
    match reply {
        Reply::SendFailed(e) => Err(prefixed(send_failed, e.as_str())),
        Reply::BodyFailed(e) => Err(prefixed(body_failed, e.as_str())),
        Reply::Malformed(e) => Err(prefixed(malformed, e.as_str())),
        Reply::Received(reply) => {
            if !reply.success {
                let mut text = String::from_str(refused);
                push_error_debug(&mut text, &reply.error);
                return Err(text);
            }
            let results = match reply.data {
                Some(results) => results,
                None => { return Err(String::from_str(no_data)); },
            };
            match find_first_failure(&results) {
                Some(i) => {
                    let mut text = String::from_str(failed_for);
                    text.append(results[i].id.as_str());
                    text.append(before_code);
                    push_decimal(&mut text, results[i].error as u64);
                    text.append(after_code);
                    Err(text)
                },
                None => Ok(()),
            }
        },
    }
}

impl SynologyClient {
    /// Takes in the reply to a login. On success the session id is kept; on
    /// failure the session is as it was.
    pub fn login(&mut self, reply: Option<AuthResponse>) -> (r: Result<(), AuthError>)
        ensures
            final(self).base() == old(self).base(),
            final(self).catalog() == old(self).catalog(),
            match login_outcome(reply.deep_view()) {
                Ok(sid) => r is Ok && final(self).session_id() == Some(sid),
                Err(e) => r == Err::<(), AuthError>(e) && final(self).session_id() == old(
                    self,
                ).session_id(),
            },
    {
        let reply = match reply {
            Some(reply) => reply,
            None => { return Err(AuthError::ParseError); },
        };
        if !reply.success {
            return Err(
                match reply.error {
                    Some(e) => e.into_auth_error(),
                    None => AuthError::Other(0),
                },
            );
        }
        match reply.data {
            Some(data) => {
                self.set_sid(data.sid);
                Ok(())
            },
            None => Err(AuthError::Other(0)),
        }
    }

    /// Judges the reply to a logout.
    pub fn logout(&self, reply: Option<AuthResponse>) -> (r: Result<(), AuthError>)
        ensures
            r == logout_outcome(reply.deep_view()),
    {
        let reply = match reply {
            Some(reply) => reply,
            None => { return Err(AuthError::ParseError); },
        };
        if !reply.success {
            return Err(
                match reply.error {
                    Some(e) => e.into_auth_error(),
                    None => AuthError::Other(0),
                },
            );
        }
        Ok(())
    }

    /// Takes in the reply to a catalogue request: on success every complete
    /// entry is catalogued, in order; on failure the catalogue is as it was.
    pub fn get_available_apis(&mut self, reply: Reply<ApiCatalog>) -> (r: Result<(), String>)
        ensures
            final(self).base() == old(self).base(),
            final(self).session_id() == old(self).session_id(),
            match catalog_outcome(reply.deep_view()) {
                Ok(entries) => r is Ok && final(self).catalog() == catalog_after(
                    old(self).catalog(),
                    entries,
                ),
                Err(text) => r is Err && r->Err_0@ == text && final(self).catalog() == old(
                    self,
                ).catalog(),
            },
    {
        match reply {
            Reply::SendFailed(e) => Err(e),
            Reply::BodyFailed(e) => Err(e),
            Reply::Malformed(e) => Err(e),
            Reply::Received(ApiCatalog::MissingData) => Err(
                String::from_str("Missing `data` field"),
            ),
            Reply::Received(ApiCatalog::NotAnObject) => Err(
                String::from_str("`data` is not an object"),
            ),
            Reply::Received(ApiCatalog::Entries(entries)) => {
                self.register_apis(&entries);
                Ok(())
            },
        }
    }

    /// Judges the reply to a settings request.
    pub fn get_config(&self, reply: Reply<ConfigResponse>) -> (r: Result<ConfigData, String>)
        ensures
            config_or_text(r) == config_outcome(reply.deep_view()),
    {
        match reply {
            Reply::SendFailed(e) => Err(e),
            Reply::BodyFailed(e) => Err(e),
            Reply::Malformed(e) => Err(prefixed("parsing ConfigResponse: ", e.as_str())),
            Reply::Received(reply) => {
                if !reply.success {
                    Err(String::from_str("getconfig returned success=false"))
                } else {
                    Ok(reply.data)
                }
            },
        }
    }

    /// Judges the reply to a request for the task list.
    pub fn list_download_tasks(&self, reply: Reply<TaskListResponse>) -> (r: Result<
        Vec<DownloadTask>,
        String,
    >)
        ensures
            tasks_or_text(r) == task_list_outcome(reply.deep_view()),
    {
        match reply {
            Reply::SendFailed(e) => Err(e),
            Reply::BodyFailed(e) => Err(e),
            Reply::Malformed(e) => Err(e),
            Reply::Received(reply) => {
                if !reply.success {
                    return Err(String::from_str("Failed to list tasks"));
                }
                match reply.data {
                    Some(data) => Ok(data.tasks),
                    None => Err(String::from_str("No task data returned")),
                }
            },
        }
    }

    /// Judges the reply to a request for the bare task list: the ids of the
    /// tasks, in order.
    pub fn list_download_task_ids(&self, reply: Reply<TaskListResponse>) -> (r: Result<
        Vec<String>,
        String,
    >)
        ensures
            ids_or_text(r) == task_ids_outcome(reply.deep_view()),
    {
        match reply {
            Reply::SendFailed(e) => Err(e),
            Reply::BodyFailed(e) => Err(e),
            Reply::Malformed(e) => Err(e),
            Reply::Received(reply) => {
                if !reply.success {
                    let mut text = String::from_str("❌ Failed to list tasks: ");
                    push_error_debug(&mut text, &reply.error);
                    return Err(text);
                }
                match reply.data {
                    Some(data) => {
                        let mut ids: Vec<String> = Vec::new();
                        let mut i: usize = 0;
                        while i < data.tasks.len()
                            invariant
                                i <= data.tasks@.len(),
                                ids@.len() == i,
                                forall|j: int|
                                    0 <= j < i ==> (#[trigger] ids@[j])@ == data.tasks@[j]@.id,
                            decreases data.tasks@.len() - i,
                        {
                            ids.push(data.tasks[i].id.clone());
                            i = i + 1;
                        }
                        assert(ids.deep_view() =~= ids_of(data.tasks.deep_view()));
                        Ok(ids)
                    },
                    None => Err(String::from_str("No task data returned")),
                }
            },
        }
    }

    /// Judges the reply to a request for task details.
    pub fn get_task_details(&self, reply: Reply<TaskDetailResponse>) -> (r: Result<
        Vec<DownloadTask>,
        String,
    >)
        ensures
            tasks_or_text(r) == task_details_outcome(reply.deep_view()),
    {
        match reply {
            Reply::SendFailed(e) => Err(e),
            Reply::BodyFailed(e) => Err(e),
            Reply::Malformed(e) => Err(e),
            Reply::Received(reply) => {
                if !reply.success {
                    let mut text = String::from_str("❌ Failed to fetch task info: ");
                    push_error_debug(&mut text, &reply.error);
                    return Err(text);
                }
                match reply.data {
                    Some(data) => Ok(data.tasks),
                    None => Err(String::from_str("No task data returned")),
                }
            },
        }
    }

    /// Judges the reply to a pause.
    pub fn pause_task(&self, reply: Reply<TaskActionResponseWrapper>) -> (r: Result<(), String>)
        ensures
            done_or_text(r) == action_outcome(reply.deep_view(), pause_words()),
    {
        judge_action(
            reply,
            "Network error during pause_task: ",
            "Failed to read pause response body: ",
            "Failed to parse pause_task envelope: ",
            "Pause API returned success=false: ",
            "Pause API returned no `data` field",
            "Pause failed for task ",
            ": error code ",
            "",
        )
    }

    /// Judges the reply to a resume.
    pub fn resume_task(&self, reply: Reply<TaskActionResponseWrapper>) -> (r: Result<(), String>)
        ensures
            done_or_text(r) == action_outcome(reply.deep_view(), resume_words()),
    {
        judge_action(
            reply,
            "",
            "",
            "Failed to parse resume envelope: ",
            "Resume API returned success=false: ",
            "Resume API returned no data",
            "Resume failed for ",
            " (code ",
            ")",
        )
    }

    /// Judges the reply to a delete.
    pub fn delete_task(&self, reply: Reply<TaskActionResponseWrapper>) -> (r: Result<(), String>)
        ensures
            done_or_text(r) == action_outcome(reply.deep_view(), delete_words()),
    {
        judge_action(
            reply,
            "Network error during delete_task: ",
            "Failed to read delete response body: ",
            "Failed to parse delete_task envelope: ",
            "Delete API returned success=false: ",
            "Delete API returned no `data` field",
            "Delete failed for task ",
            ": error code ",
            "",
        )
    }

    /// Judges the reply to a request that creates a task from a link. A
    /// reply that never arrived or could not be decoded is a parse error.
    pub fn create_task_from_url(&self, reply: Option<CreateTaskResponseWrapper>) -> (r: Result<
        (),
        TaskError,
    >)
        ensures
            r == match reply {
                Some(reply) => reply.outcome(),
                None => Err(TaskError::ParseError),
            },
    {
        match reply {
            Some(reply) => reply.into_result(),
            None => Err(TaskError::ParseError),
        }
    }

    /// Judges the reply to a request that creates a task from a file.
    pub fn create_task_from_file(&self, reply: Option<CreateTaskResponseWrapper>) -> (r: Result<
        (),
        TaskError,
    >)
        ensures
            r == match reply {
                Some(reply) => reply.outcome(),
                None => Err(TaskError::ParseError),
            },
    {
        match reply {
            Some(reply) => reply.into_result(),
            None => Err(TaskError::ParseError),
        }
    }
}

} // verus!
