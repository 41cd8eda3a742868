//! The requests to the remote service, one builder for each operation.

use crate::api::client::{param, request_or, request_or_text, Request, RequestModel, SynologyClient};
use crate::api::error::{AuthError, TaskError};
use crate::text::{decimal, decimal_string, ends_with, has_suffix};
use vstd::prelude::*;
use vstd::slice::slice_to_vec;

verus! {

/// The texts of `parts` in order, with `separator` between neighbours.
pub open spec fn joined(parts: Seq<Seq<char>>, separator: Seq<char>) -> Seq<char>
    decreases parts.len(),
{
    if parts.len() == 0 {
        Seq::empty()
    } else if parts.len() == 1 {
        parts[0]
    } else {
        joined(parts.drop_last(), separator) + separator + parts.last()
    }
}

/// The texts of `parts` in order, with `separator` between neighbours.
pub fn join(parts: &Vec<String>, separator: &str) -> (text: String)
    ensures
        text@ == joined(parts.deep_view(), separator@),
{
    let ghost all = parts.deep_view();
    let mut text = String::new();
    let mut i: usize = 0;
    while i < parts.len()
        invariant
            i <= parts@.len(),
            all == parts.deep_view(),
            text@ == joined(all.subrange(0, i as int), separator@),
        decreases parts@.len() - i,
    {
        if i > 0 {
            text.append(separator);
        }
        text.append(parts[i].as_str());
        proof {
            let next = all.subrange(0, i + 1);
            assert(next.drop_last() =~= all.subrange(0, i as int));
            assert(next.last() == parts@[i as int]@);
            if i == 0 {
                assert(text@ =~= next[0]);
            }
        }
        i = i + 1;
    }
    assert(all.subrange(0, i as int) =~= all);
    text
}

/// A request that uploads a file as one part of a form.
#[derive(Debug, Clone, PartialEq, Eq)]
pub struct Upload {
    pub url: String,
    pub fields: Vec<(String, String)>,
    pub part_name: String,
    pub file_name: String,
    pub mime: String,
    pub data: Vec<u8>,
}

/// What an `Upload` holds, with texts as plain characters.
pub struct UploadModel {
    pub url: Seq<char>,
    pub fields: Seq<(Seq<char>, Seq<char>)>,
    pub part_name: Seq<char>,
    pub file_name: Seq<char>,
    pub mime: Seq<char>,
    pub data: Seq<u8>,
}

impl View for Upload {
    type V = UploadModel;

    open spec fn view(&self) -> UploadModel {
        UploadModel {
            url: self.url@,
            fields: self.fields.deep_view(),
            part_name: self.part_name@,
            file_name: self.file_name@,
            mime: self.mime@,
            data: self.data@,
        }
    }
}

/// An upload, or the error that says why it cannot be made.
pub open spec fn upload_or(r: Result<Upload, TaskError>) -> Result<UploadModel, TaskError> {
    match r {
        Ok(upload) => Ok(upload@),
        Err(e) => Err(e),
    }
}

impl SynologyClient {
    /// The request for the catalogue of APIs that the service offers.
    pub open spec fn api_catalog_request(&self) -> RequestModel {
        RequestModel {
            url: self.base() + "/webapi/query.cgi"@,
            params: seq![
                ("api"@, "SYNO.API.Info"@),
                ("version"@, "1"@),
                ("method"@, "query"@),
                ("query"@, "ALL"@),
            ],
        }
    }

    /// The request for the catalogue of APIs that the service offers.
    pub fn get_available_apis_request(&self) -> (request: Request)
        ensures
            request@ == self.api_catalog_request(),
    {
        let mut url = String::from_str(self.base_url());
        url.append("/webapi/query.cgi");
        let mut params: Vec<(String, String)> = Vec::new();
        params.push(param("api", "SYNO.API.Info"));
        params.push(param("version", "1"));
        params.push(param("method", "query"));
        params.push(param("query", "ALL"));
        let request = Request { url, params };
        assert(request@.params =~= self.api_catalog_request().params);
        request
    }

    /// What `create_task_from_file_request` returns. A session comes first;
    /// then the file must not be empty, its name must not be empty, and the
    /// name must end in `.torrent`.
    pub open spec fn create_task_from_file_request_for(
        &self,
        file_path: Seq<char>,
        file_data: Seq<u8>,
    ) -> Result<UploadModel, TaskError> {
        if self.session_id() is None {
            Err(TaskError::ParseError)
        } else if file_data.len() == 0 {
            Err(TaskError::EmptyFile)
        } else if file_path.len() == 0 {
            Err(TaskError::EmptyFilePath)
        } else if !has_suffix(file_path, ".torrent"@) {
            Err(TaskError::NotTorrentFile)
        } else {
            Ok(
                UploadModel {
                    url: self.base() + "/webapi/entry.cgi"@ + "?_sid="@ + self.session_id()->0,
                    fields: seq![
                        ("api"@, "SYNO.DownloadStation2.Task"@),
                        ("version"@, "2"@),
                        ("method"@, "create"@),
                        ("type"@, "\"file\""@),
                        ("file"@, "[\"torrent\"]"@),
                        ("create_list"@, "false"@),
                    ],
                    part_name: "torrent"@,
                    file_name: file_path,
                    mime: "application/x-bittorrent"@,
                    data: file_data,
                },
            )
        }
    }

    /// The request that creates a task from a file. An empty file, an empty
    /// name and a name that does not end in `.torrent` are turned down
    /// before anything is sent, each with an error of its own.
    pub fn create_task_from_file_request(&self, file_path: String, file_data: &[u8]) -> (r: Result<
        Upload,
        TaskError,
    >)
        ensures
            upload_or(r) == self.create_task_from_file_request_for(file_path@, file_data@),
    {
        let sid = match self.sid() {
            Some(sid) => sid,
            None => { return Err(TaskError::ParseError); },
        };
        if file_data.len() == 0 {
            return Err(TaskError::EmptyFile);
        }
        if file_path.as_str().unicode_len() == 0 {
            return Err(TaskError::EmptyFilePath);
        }
        if !ends_with(file_path.as_str(), ".torrent") {
            return Err(TaskError::NotTorrentFile);
        }
        let mut url = String::from_str(self.base_url());
        url.append("/webapi/entry.cgi");
        url.append("?_sid=");
        url.append(sid.as_str());
        let mut fields: Vec<(String, String)> = Vec::new();
        fields.push(param("api", "SYNO.DownloadStation2.Task"));
        fields.push(param("version", "2"));
        fields.push(param("method", "create"));
        fields.push(param("type", "\"file\""));
        fields.push(param("file", "[\"torrent\"]"));
        fields.push(param("create_list", "false"));
        let upload = Upload {
            url,
            fields,
            part_name: String::from_str("torrent"),
            file_name: file_path,
            mime: String::from_str("application/x-bittorrent"),
            data: slice_to_vec(file_data),
        };
        assert(upload@.fields =~= self.create_task_from_file_request_for(
            file_path@,
            file_data@,
        )->Ok_0.fields);
        Ok(upload)
    }

    /// What `login_request` returns.
    pub open spec fn login_request_for(
        &self,
        account: Seq<char>,
        password: Seq<char>,
        session: Seq<char>,
    ) -> Result<RequestModel, AuthError> {
        if self.url_of("SYNO.API.Auth"@) is None {
            Err(AuthError::Other(0))
        } else if self.version_of("SYNO.API.Auth"@) is None {
            Err(AuthError::Other(0))
        } else {
            Ok(
                RequestModel {
                    url: self.url_of("SYNO.API.Auth"@)->0,
                    params: seq![
                        ("api"@, "SYNO.API.Auth"@),
                        ("method"@, "login"@),
                        ("version"@, decimal(self.version_of("SYNO.API.Auth"@)->0 as nat)),
                        ("account"@, account),
                        ("passwd"@, password),
                        ("session"@, session),
                        ("format"@, "sid"@),
                    ],
                },
            )
        }
    }

    /// The request that logs in with an account and a password, for a named session.
    pub fn login_request(
        &self,
        account: &str,
        password: &str,
        session: &str,
    ) -> (r: Result<Request, AuthError>)
        ensures
            request_or(r) == self.login_request_for(account@, password@, session@),
    {
        let url = match self.api_url("SYNO.API.Auth") {
            Some(url) => url,
            None => { return Err(AuthError::Other(0)); },
        };
        let version = match self.api_version("SYNO.API.Auth") {
            Some(version) => decimal_string(version as u64),
            None => { return Err(AuthError::Other(0)); },
        };
        let mut params: Vec<(String, String)> = Vec::new();
        params.push(param("api", "SYNO.API.Auth"));
        params.push(param("method", "login"));
        params.push(param("version", version.as_str()));
        params.push(param("account", account));
        params.push(param("passwd", password));
        params.push(param("session", session));
        params.push(param("format", "sid"));
        let request = Request { url, params };
        assert(request@.params =~= self.login_request_for(
            account@,
            password@,
            session@,
        )->Ok_0.params);
        Ok(request)
    }

    /// What `logout_request` returns.
    pub open spec fn logout_request_for(
        &self,
        session: Seq<char>,
    ) -> Result<RequestModel, AuthError> {
        if self.url_of("SYNO.API.Auth"@) is None {
            Err(AuthError::Other(0))
        } else if self.version_of("SYNO.API.Auth"@) is None {
            Err(AuthError::Other(0))
        } else {
            Ok(
                RequestModel {
                    url: self.url_of("SYNO.API.Auth"@)->0,
                    params: seq![
                        ("api"@, "SYNO.API.Auth"@),
                        ("method"@, "logout"@),
                        ("version"@, decimal(self.version_of("SYNO.API.Auth"@)->0 as nat)),
                        ("session"@, session),
                    ],
                },
            )
        }
    }

    /// The request that ends a named session.
    pub fn logout_request(&self, session: &str) -> (r: Result<Request, AuthError>)
        ensures
            request_or(r) == self.logout_request_for(session@),
    {
        let url = match self.api_url("SYNO.API.Auth") {
            Some(url) => url,
            None => { return Err(AuthError::Other(0)); },
        };
        let version = match self.api_version("SYNO.API.Auth") {
            Some(version) => decimal_string(version as u64),
            None => { return Err(AuthError::Other(0)); },
        };
        let mut params: Vec<(String, String)> = Vec::new();
        params.push(param("api", "SYNO.API.Auth"));
        params.push(param("method", "logout"));
        params.push(param("version", version.as_str()));
        params.push(param("session", session));
        let request = Request { url, params };
        assert(request@.params =~= self.logout_request_for(session@)->Ok_0.params);
        Ok(request)
    }

    /// What `get_config_request` returns.
    pub open spec fn get_config_request_for(&self) -> Result<RequestModel, Seq<char>> {
        if self.url_of("SYNO.DownloadStation.Info"@) is None {
            Err("Missing API info for SYNO.DownloadStation.Info"@)
        } else if self.version_of("SYNO.DownloadStation.Info"@) is None {
            Err("Missing version info for SYNO.DownloadStation.Info"@)
        } else if self.session_id() is None {
            Err("Not logged in"@)
        } else {
            Ok(
                RequestModel {
                    url: self.url_of("SYNO.DownloadStation.Info"@)->0,
                    params: seq![
                        ("api"@, "SYNO.DownloadStation.Info"@),
                        (
                            "version"@,
                            decimal(self.version_of("SYNO.DownloadStation.Info"@)->0 as nat),
                        ),
                        ("method"@, "getconfig"@),
                        ("_sid"@, self.session_id()->0),
                    ],
                },
            )
        }
    }

    /// The request for the service's settings.
    pub fn get_config_request(&self) -> (r: Result<Request, String>)
        ensures
            request_or_text(r) == self.get_config_request_for(),
    {
        let url = match self.api_url("SYNO.DownloadStation.Info") {
            Some(url) => url,
            None => {
                return Err(String::from_str("Missing API info for SYNO.DownloadStation.Info"));
            },
        };
        let version = match self.api_version("SYNO.DownloadStation.Info") {
            Some(version) => decimal_string(version as u64),
            None => {
                return Err(String::from_str("Missing version info for SYNO.DownloadStation.Info"));
            },
        };
        let sid = match self.sid() {
            Some(sid) => sid,
            None => { return Err(String::from_str("Not logged in")); },
        };
        let mut params: Vec<(String, String)> = Vec::new();
        params.push(param("api", "SYNO.DownloadStation.Info"));
        params.push(param("version", version.as_str()));
        params.push(param("method", "getconfig"));
        params.push(param("_sid", sid.as_str()));
        let request = Request { url, params };
        assert(request@.params =~= self.get_config_request_for()->Ok_0.params);
        Ok(request)
    }

    /// What `list_download_tasks_request` returns.
    pub open spec fn list_download_tasks_request_for(&self) -> Result<RequestModel, Seq<char>> {
        if self.session_id() is None {
            Err("SID missing — not logged in"@)
        } else if self.url_of("SYNO.DownloadStation.Task"@) is None {
            Err("Missing API info for SYNO.DownloadStation.Task"@)
        } else if self.version_of("SYNO.DownloadStation.Task"@) is None {
            Err("Missing version info for SYNO.DownloadStation.Task"@)
        } else {
            Ok(
                RequestModel {
                    url: self.url_of("SYNO.DownloadStation.Task"@)->0,
                    params: seq![
                        ("api"@, "SYNO.DownloadStation.Task"@),
                        ("method"@, "list"@),
                        (
                            "version"@,
                            decimal(self.version_of("SYNO.DownloadStation.Task"@)->0 as nat),
                        ),
                        ("_sid"@, self.session_id()->0),
                        ("additional"@, "detail,transfer,file,peer,tracker"@),
                    ],
                },
            )
        }
    }

    /// The request for the list of tasks with all their details.
    pub fn list_download_tasks_request(&self) -> (r: Result<Request, String>)
        ensures
            request_or_text(r) == self.list_download_tasks_request_for(),
    {
        let sid = match self.sid() {
            Some(sid) => sid,
            None => { return Err(String::from_str("SID missing — not logged in")); },
        };
        let url = match self.api_url("SYNO.DownloadStation.Task") {
            Some(url) => url,
            None => {
                return Err(String::from_str("Missing API info for SYNO.DownloadStation.Task"));
            },
        };
        let version = match self.api_version("SYNO.DownloadStation.Task") {
            Some(version) => decimal_string(version as u64),
            None => {
                return Err(String::from_str("Missing version info for SYNO.DownloadStation.Task"));
            },
        };
        let mut params: Vec<(String, String)> = Vec::new();
        params.push(param("api", "SYNO.DownloadStation.Task"));
        params.push(param("method", "list"));
        params.push(param("version", version.as_str()));
        params.push(param("_sid", sid.as_str()));
        params.push(param("additional", "detail,transfer,file,peer,tracker"));
        let request = Request { url, params };
        assert(request@.params =~= self.list_download_tasks_request_for()->Ok_0.params);
        Ok(request)
    }

    /// What `list_download_task_ids_request` returns.
    pub open spec fn list_download_task_ids_request_for(&self) -> Result<RequestModel, Seq<char>> {
        if self.session_id() is None {
            Err("SID is missing - not logged in"@)
        } else if self.url_of("SYNO.DownloadStation.Task"@) is None {
            Err("Missing API info for SYNO.DownloadStation.Task"@)
        } else if self.version_of("SYNO.DownloadStation.Task"@) is None {
            Err("Missing API version"@)
        } else {
            Ok(
                RequestModel {
                    url: self.url_of("SYNO.DownloadStation.Task"@)->0,
                    params: seq![
                        ("api"@, "SYNO.DownloadStation.Task"@),
                        ("method"@, "list"@),
                        (
                            "version"@,
                            decimal(self.version_of("SYNO.DownloadStation.Task"@)->0 as nat),
                        ),
                        ("_sid"@, self.session_id()->0),
                    ],
                },
            )
        }
    }

    /// The request for the bare list of tasks.
    pub fn list_download_task_ids_request(&self) -> (r: Result<Request, String>)
        ensures
            request_or_text(r) == self.list_download_task_ids_request_for(),
    {
        let sid = match self.sid() {
            Some(sid) => sid,
            None => { return Err(String::from_str("SID is missing - not logged in")); },
        };
        let url = match self.api_url("SYNO.DownloadStation.Task") {
            Some(url) => url,
            None => {
                return Err(String::from_str("Missing API info for SYNO.DownloadStation.Task"));
            },
        };
        let version = match self.api_version("SYNO.DownloadStation.Task") {
            Some(version) => decimal_string(version as u64),
            None => { return Err(String::from_str("Missing API version")); },
        };
        let mut params: Vec<(String, String)> = Vec::new();
        params.push(param("api", "SYNO.DownloadStation.Task"));
        params.push(param("method", "list"));
        params.push(param("version", version.as_str()));
        params.push(param("_sid", sid.as_str()));
        let request = Request { url, params };
        assert(request@.params =~= self.list_download_task_ids_request_for()->Ok_0.params);
        Ok(request)
    }

    /// What `get_task_details_request` returns.
    pub open spec fn get_task_details_request_for(
        &self,
        ids: Seq<Seq<char>>,
    ) -> Result<RequestModel, Seq<char>> {
        if self.session_id() is None {
            Err("SID missing — not logged in"@)
        } else if self.url_of("SYNO.DownloadStation.Task"@) is None {
            Err("Missing API info for SYNO.DownloadStation.Task"@)
        } else if self.version_of("SYNO.DownloadStation.Task"@) is None {
            Err("Missing API version"@)
        } else {
            Ok(
                RequestModel {
                    url: self.url_of("SYNO.DownloadStation.Task"@)->0,
                    params: seq![
                        ("api"@, "SYNO.DownloadStation.Task"@),
                        ("method"@, "getinfo"@),
                        (
                            "version"@,
                            decimal(self.version_of("SYNO.DownloadStation.Task"@)->0 as nat),
                        ),
                        ("_sid"@, self.session_id()->0),
                        ("id"@, joined(ids, ","@)),
                        ("additional"@, "detail,transfer,file,peer,tracker"@),
                    ],
                },
            )
        }
    }

    /// The request for the details of the tasks with the given ids.
    pub fn get_task_details_request(&self, ids: &Vec<String>) -> (r: Result<Request, String>)
        ensures
            request_or_text(r) == self.get_task_details_request_for(ids.deep_view()),
    {
        let sid = match self.sid() {
            Some(sid) => sid,
            None => { return Err(String::from_str("SID missing — not logged in")); },
        };
        let url = match self.api_url("SYNO.DownloadStation.Task") {
            Some(url) => url,
            None => {
                return Err(String::from_str("Missing API info for SYNO.DownloadStation.Task"));
            },
        };
        let version = match self.api_version("SYNO.DownloadStation.Task") {
            Some(version) => decimal_string(version as u64),
            None => { return Err(String::from_str("Missing API version")); },
        };
        let ids_joined = join(&ids, ",");
        let mut params: Vec<(String, String)> = Vec::new();
        params.push(param("api", "SYNO.DownloadStation.Task"));
        params.push(param("method", "getinfo"));
        params.push(param("version", version.as_str()));
        params.push(param("_sid", sid.as_str()));
        params.push(param("id", ids_joined.as_str()));
        params.push(param("additional", "detail,transfer,file,peer,tracker"));
        let request = Request { url, params };
        assert(request@.params =~= self.get_task_details_request_for(ids.deep_view())->Ok_0.params);
        Ok(request)
    }

    /// What `pause_task_request` returns.
    pub open spec fn pause_task_request_for(
        &self,
        id: Seq<char>,
    ) -> Result<RequestModel, Seq<char>> {
        if self.url_of("SYNO.DownloadStation.Task"@) is None {
            Err("❌ Missing API info for SYNO.DownloadStation.Task"@)
        } else if self.version_of("SYNO.DownloadStation.Task"@) is None {
            Err("❌ Missing version info for SYNO.DownloadStation.Task"@)
        } else if self.session_id() is None {
            Err("❌ No session ID (not logged in)"@)
        } else {
            Ok(
                RequestModel {
                    url: self.url_of("SYNO.DownloadStation.Task"@)->0,
                    params: seq![
                        ("api"@, "SYNO.DownloadStation.Task"@),
                        (
                            "version"@,
                            decimal(self.version_of("SYNO.DownloadStation.Task"@)->0 as nat),
                        ),
                        ("method"@, "pause"@),
                        ("id"@, id),
                        ("_sid"@, self.session_id()->0),
                    ],
                },
            )
        }
    }

    /// The request that pauses a task.
    pub fn pause_task_request(&self, id: &str) -> (r: Result<Request, String>)
        ensures
            request_or_text(r) == self.pause_task_request_for(id@),
    {
        let url = match self.api_url("SYNO.DownloadStation.Task") {
            Some(url) => url,
            None => {
                return Err(String::from_str("❌ Missing API info for SYNO.DownloadStation.Task"));
            },
        };
        let version = match self.api_version("SYNO.DownloadStation.Task") {
            Some(version) => decimal_string(version as u64),
            None => {
                return Err(
                    String::from_str("❌ Missing version info for SYNO.DownloadStation.Task"),
                );
            },
        };
        let sid = match self.sid() {
            Some(sid) => sid,
            None => { return Err(String::from_str("❌ No session ID (not logged in)")); },
        };
        let mut params: Vec<(String, String)> = Vec::new();
        params.push(param("api", "SYNO.DownloadStation.Task"));
        params.push(param("version", version.as_str()));
        params.push(param("method", "pause"));
        params.push(param("id", id));
        params.push(param("_sid", sid.as_str()));
        let request = Request { url, params };
        assert(request@.params =~= self.pause_task_request_for(id@)->Ok_0.params);
        Ok(request)
    }

    /// What `resume_task_request` returns.
    pub open spec fn resume_task_request_for(
        &self,
        id: Seq<char>,
    ) -> Result<RequestModel, Seq<char>> {
        if self.url_of("SYNO.DownloadStation.Task"@) is None {
            Err("Missing API info for SYNO.DownloadStation.Task"@)
        } else if self.version_of("SYNO.DownloadStation.Task"@) is None {
            Err("Missing version info for SYNO.DownloadStation.Task"@)
        } else if self.session_id() is None {
            Err("No SID"@)
        } else {
            Ok(
                RequestModel {
                    url: self.url_of("SYNO.DownloadStation.Task"@)->0,
                    params: seq![
                        ("api"@, "SYNO.DownloadStation.Task"@),
                        (
                            "version"@,
                            decimal(self.version_of("SYNO.DownloadStation.Task"@)->0 as nat),
                        ),
                        ("method"@, "resume"@),
                        ("id"@, id),
                        ("_sid"@, self.session_id()->0),
                    ],
                },
            )
        }
    }

    /// The request that resumes a task.
    pub fn resume_task_request(&self, id: &str) -> (r: Result<Request, String>)
        ensures
            request_or_text(r) == self.resume_task_request_for(id@),
    {
        let url = match self.api_url("SYNO.DownloadStation.Task") {
            Some(url) => url,
            None => {
                return Err(String::from_str("Missing API info for SYNO.DownloadStation.Task"));
            },
        };
        let version = match self.api_version("SYNO.DownloadStation.Task") {
            Some(version) => decimal_string(version as u64),
            None => {
                return Err(String::from_str("Missing version info for SYNO.DownloadStation.Task"));
            },
        };
        let sid = match self.sid() {
            Some(sid) => sid,
            None => { return Err(String::from_str("No SID")); },
        };
        let mut params: Vec<(String, String)> = Vec::new();
        params.push(param("api", "SYNO.DownloadStation.Task"));
        params.push(param("version", version.as_str()));
        params.push(param("method", "resume"));
        params.push(param("id", id));
        params.push(param("_sid", sid.as_str()));
        let request = Request { url, params };
        assert(request@.params =~= self.resume_task_request_for(id@)->Ok_0.params);
        Ok(request)
    }

    /// What `delete_task_request` returns.
    pub open spec fn delete_task_request_for(
        &self,
        id: Seq<char>,
    ) -> Result<RequestModel, Seq<char>> {
        if self.url_of("SYNO.DownloadStation.Task"@) is None {
            Err("❌ Missing API info for SYNO.DownloadStation.Task"@)
        } else if self.version_of("SYNO.DownloadStation.Task"@) is None {
            Err("❌ Missing version info for SYNO.DownloadStation.Task"@)
        } else if self.session_id() is None {
            Err("❌ No session ID (not logged in)"@)
        } else {
            Ok(
                RequestModel {
                    url: self.url_of("SYNO.DownloadStation.Task"@)->0,
                    params: seq![
                        ("api"@, "SYNO.DownloadStation.Task"@),
                        (
                            "version"@,
                            decimal(self.version_of("SYNO.DownloadStation.Task"@)->0 as nat),
                        ),
                        ("method"@, "delete"@),
                        ("id"@, id),
                        ("_sid"@, self.session_id()->0),
                    ],
                },
            )
        }
    }

    /// The request that deletes a task.
    pub fn delete_task_request(&self, id: &str) -> (r: Result<Request, String>)
        ensures
            request_or_text(r) == self.delete_task_request_for(id@),
    {
        let url = match self.api_url("SYNO.DownloadStation.Task") {
            Some(url) => url,
            None => {
                return Err(String::from_str("❌ Missing API info for SYNO.DownloadStation.Task"));
            },
        };
        let version = match self.api_version("SYNO.DownloadStation.Task") {
            Some(version) => decimal_string(version as u64),
            None => {
                return Err(
                    String::from_str("❌ Missing version info for SYNO.DownloadStation.Task"),
                );
            },
        };
        let sid = match self.sid() {
            Some(sid) => sid,
            None => { return Err(String::from_str("❌ No session ID (not logged in)")); },
        };
        let mut params: Vec<(String, String)> = Vec::new();
        params.push(param("api", "SYNO.DownloadStation.Task"));
        params.push(param("version", version.as_str()));
        params.push(param("method", "delete"));
        params.push(param("id", id));
        params.push(param("_sid", sid.as_str()));
        let request = Request { url, params };
        assert(request@.params =~= self.delete_task_request_for(id@)->Ok_0.params);
        Ok(request)
    }

    /// What `create_task_from_url_request` returns.
    pub open spec fn create_task_from_url_request_for(
        &self,
        uri: Seq<char>,
    ) -> Result<RequestModel, TaskError> {
        if self.url_of("SYNO.DownloadStation.Task"@) is None {
            Err(TaskError::ParseError)
        } else if self.version_of("SYNO.DownloadStation.Task"@) is None {
            Err(TaskError::ParseError)
        } else if self.session_id() is None {
            Err(TaskError::ParseError)
        } else {
            Ok(
                RequestModel {
                    url: self.url_of("SYNO.DownloadStation.Task"@)->0,
                    params: seq![
                        ("api"@, "SYNO.DownloadStation.Task"@),
                        (
                            "version"@,
                            decimal(self.version_of("SYNO.DownloadStation.Task"@)->0 as nat),
                        ),
                        ("method"@, "create"@),
                        ("uri"@, uri),
                        ("_sid"@, self.session_id()->0),
                    ],
                },
            )
        }
    }

    /// The request that creates a task from a link.
    pub fn create_task_from_url_request(&self, uri: &str) -> (r: Result<Request, TaskError>)
        ensures
            request_or(r) == self.create_task_from_url_request_for(uri@),
    {
        let url = match self.api_url("SYNO.DownloadStation.Task") {
            Some(url) => url,
            None => { return Err(TaskError::ParseError); },
        };
        let version = match self.api_version("SYNO.DownloadStation.Task") {
            Some(version) => decimal_string(version as u64),
            None => { return Err(TaskError::ParseError); },
        };
        let sid = match self.sid() {
            Some(sid) => sid,
            None => { return Err(TaskError::ParseError); },
        };
        let mut params: Vec<(String, String)> = Vec::new();
        params.push(param("api", "SYNO.DownloadStation.Task"));
        params.push(param("version", version.as_str()));
        params.push(param("method", "create"));
        params.push(param("uri", uri));
        params.push(param("_sid", sid.as_str()));
        let request = Request { url, params };
        assert(request@.params =~= self.create_task_from_url_request_for(uri@)->Ok_0.params);
        Ok(request)
    }
}

} // verus!
