//! The session with the remote service: which APIs it offers, the session
//! id, and how each request is put together.

use vstd::hash_map::StringHashMap;
use vstd::prelude::*;

verus! {

/// Where one API of the service lives, and the versions it speaks.
#[derive(Debug, Clone, PartialEq, Eq)]
pub struct ApiInfo {
    pub path: String,
    pub min_version: u32,
    pub max_version: u32,
}

/// What an `ApiInfo` holds, with the path as plain characters.
pub struct ApiInfoModel {
    pub path: Seq<char>,
    pub min_version: u32,
    pub max_version: u32,
}

impl View for ApiInfo {
    type V = ApiInfoModel;

    open spec fn view(&self) -> ApiInfoModel {
        ApiInfoModel {
            path: self.path@,
            min_version: self.min_version,
            max_version: self.max_version,
        }
    }
}

impl DeepView for ApiInfo {
    type V = ApiInfoModel;

    open spec fn deep_view(&self) -> ApiInfoModel {
        self.view()
    }
}

/// One entry of the service's API catalogue as it arrives: any of the three
/// values may be missing or of the wrong kind.
#[derive(Debug, Clone, PartialEq, Eq)]
pub struct ApiEntry {
    pub name: String,
    pub path: Option<String>,
    pub min_version: Option<u64>,
    pub max_version: Option<u64>,
}

/// What an `ApiEntry` holds, with texts as plain characters.
pub struct ApiEntryModel {
    pub name: Seq<char>,
    pub path: Option<Seq<char>>,
    pub min_version: Option<u64>,
    pub max_version: Option<u64>,
}

impl View for ApiEntry {
    type V = ApiEntryModel;

    open spec fn view(&self) -> ApiEntryModel {
        ApiEntryModel {
            name: self.name@,
            path: self.path.deep_view(),
            min_version: self.min_version,
            max_version: self.max_version,
        }
    }
}

impl DeepView for ApiEntry {
    type V = ApiEntryModel;

    open spec fn deep_view(&self) -> ApiEntryModel {
        self.view()
    }
}

impl ApiEntryModel {
    /// Whether the entry has all three values, so that it can be kept.
    pub open spec fn is_complete(self) -> bool {
        self.path is Some && self.min_version is Some && self.max_version is Some
    }

    /// The catalogue record of a complete entry. Versions keep their low 32 bits.
    pub open spec fn info(self) -> ApiInfoModel {
        ApiInfoModel {
            path: self.path->0,
            min_version: (self.min_version->0 % 0x1_0000_0000) as u32,
            max_version: (self.max_version->0 % 0x1_0000_0000) as u32,
        }
    }
}

/// The catalogue after the entries were taken in, one after the other: a
/// complete entry replaces what its name stood for, an incomplete one is
/// passed over.
pub open spec fn catalog_after(
    catalog: Map<Seq<char>, ApiInfoModel>,
    entries: Seq<ApiEntryModel>,
) -> Map<Seq<char>, ApiInfoModel>
    decreases entries.len(),
{
    if entries.len() == 0 {
        catalog
    } else {
        let before = catalog_after(catalog, entries.drop_last());
        let entry = entries.last();
        if entry.is_complete() {
            before.insert(entry.name, entry.info())
        } else {
            before
        }
    }
}

/// A GET request: an address and its query parameters, in order.
#[derive(Debug, Clone, PartialEq, Eq)]
pub struct Request {
    pub url: String,
    pub params: Vec<(String, String)>,
}

/// What a `Request` holds, with texts as plain characters.
pub struct RequestModel {
    pub url: Seq<char>,
    pub params: Seq<(Seq<char>, Seq<char>)>,
}

impl View for Request {
    type V = RequestModel;

    open spec fn view(&self) -> RequestModel {
        RequestModel { url: self.url@, params: self.params.deep_view() }
    }
}

/// What came back for a request: the decoded reply, or the text of what
/// went wrong on the way.
#[derive(Debug, Clone, PartialEq, Eq)]
pub enum Reply<T> {
    /// The reply arrived and was decoded.
    Received(T),
    /// The request could not be sent.
    SendFailed(String),
    /// The reply's body could not be read.
    BodyFailed(String),
    /// The body was not what the service promises.
    Malformed(String),
}

/// What a `Reply` holds, with texts as plain characters.
pub enum ReplyModel<M> {
    Received(M),
    SendFailed(Seq<char>),
    BodyFailed(Seq<char>),
    Malformed(Seq<char>),
}

impl<T: DeepView> DeepView for Reply<T> {
    type V = ReplyModel<T::V>;

    open spec fn deep_view(&self) -> ReplyModel<T::V> {
        match self {
            Reply::Received(reply) => ReplyModel::Received(reply.deep_view()),
            Reply::SendFailed(text) => ReplyModel::SendFailed(text@),
            Reply::BodyFailed(text) => ReplyModel::BodyFailed(text@),
            Reply::Malformed(text) => ReplyModel::Malformed(text@),
        }
    }
}

/// A request, or the text that says why it cannot be made.
pub open spec fn request_or_text(r: Result<Request, String>) -> Result<RequestModel, Seq<char>> {
    match r {
        Ok(request) => Ok(request@),
        Err(text) => Err(text@),
    }
}

/// A request, or the error that says why it cannot be made.
pub open spec fn request_or<E>(r: Result<Request, E>) -> Result<RequestModel, E> {
    match r {
        Ok(request) => Ok(request@),
        Err(e) => Err(e),
    }
}

/// The session with the remote service.
pub struct SynologyClient {
    base_url: String,
    sid: Option<String>,
    apis: StringHashMap<ApiInfo>,
}

/// The address of an API below a base address.
pub open spec fn api_address(base_url: Seq<char>, path: Seq<char>) -> Seq<char> {
    base_url + "/webapi/"@ + path
}

impl SynologyClient {
    /// The address of the service, without a trailing path.
    pub closed spec fn base(&self) -> Seq<char> {
        self.base_url@
    }

    /// The session id, once logged in.
    pub closed spec fn session_id(&self) -> Option<Seq<char>> {
        self.sid.deep_view()
    }

    /// The catalogue of APIs that the service offers, by name.
    pub closed spec fn catalog(&self) -> Map<Seq<char>, ApiInfoModel> {
        self.apis@.map_values(|info: ApiInfo| info@)
    }

    /// The address of a catalogued API.
    pub open spec fn url_of(&self, api: Seq<char>) -> Option<Seq<char>> {
        if self.catalog().contains_key(api) {
            Some(api_address(self.base(), self.catalog()[api].path))
        } else {
            None
        }
    }

    /// The version in which a catalogued API is spoken to: its highest.
    pub open spec fn version_of(&self, api: Seq<char>) -> Option<u32> {
        if self.catalog().contains_key(api) {
            Some(self.catalog()[api].max_version)
        } else {
            None
        }
    }

    /// A session with the service at `base_url`: not logged in, and with an
    /// empty catalogue.
    pub fn new(base_url: &str) -> (client: Self)
        ensures
            client.base() == base_url@,
            client.session_id() is None,
            client.catalog() == Map::<Seq<char>, ApiInfoModel>::empty(),
    {
        let client = SynologyClient {
            base_url: String::from_str(base_url),
            sid: None,
            apis: StringHashMap::new(),
        };
        assert(client.catalog() =~= Map::<Seq<char>, ApiInfoModel>::empty());
        client
    }

    /// The catalogue record of an API, if the service offers it.
    pub fn api_info(&self, api: &str) -> (info: Option<&ApiInfo>)
        ensures
            info is Some <==> self.catalog().contains_key(api@),
            info is Some ==> info->0@ == self.catalog()[api@],
    {
        self.apis.get(api)
    }

    /// The address of an API, if the service offers it.
    pub fn api_url(&self, api: &str) -> (url: Option<String>)
        ensures
            url.deep_view() == self.url_of(api@),
    {
        match self.api_info(api) {
            Some(info) => {
                let mut url = self.base_url.clone();
                url.append("/webapi/");
                url.append(info.path.as_str());
                Some(url)
            },
            None => None,
        }
    }

    /// The version in which an API is spoken to, if the service offers it.
    pub fn api_version(&self, api: &str) -> (version: Option<u32>)
        ensures
            version == self.version_of(api@),
    {
        match self.api_info(api) {
            Some(info) => Some(info.max_version),
            None => None,
        }
    }

    /// The session id, once logged in.
    pub fn sid(&self) -> (sid: Option<&String>)
        ensures
            sid.deep_view() == self.session_id(),
    {
        self.sid.as_ref()
    }

    /// The address of the service.
    pub fn base_url(&self) -> (url: &str)
        ensures
            url@ == self.base(),
    {
        self.base_url.as_str()
    }

    /// Remembers the session id that a login handed out.
    pub(crate) fn set_sid(&mut self, sid: String)
        ensures
            final(self).base() == old(self).base(),
            final(self).catalog() == old(self).catalog(),
            final(self).session_id() == Some(sid@),
    {
        self.sid = Some(sid);
    }

    /// Takes one catalogue entry in: kept if it is complete, passed over if not.
    fn take_entry(&mut self, entry: &ApiEntry)
        ensures
            final(self).base() == old(self).base(),
            final(self).session_id() == old(self).session_id(),
            final(self).catalog() == if entry@.is_complete() {
                old(self).catalog().insert(entry@.name, entry@.info())
            } else {
                old(self).catalog()
            },
    {
        match (&entry.path, entry.min_version, entry.max_version) {
            (Some(path), Some(min_version), Some(max_version)) => {
                let info = ApiInfo {
                    path: path.clone(),
                    min_version: (min_version % 0x1_0000_0000) as u32,
                    max_version: (max_version % 0x1_0000_0000) as u32,
                };
                self.apis.insert(entry.name.clone(), info);
                assert(self.catalog() =~= old(self).catalog().insert(entry@.name, entry@.info()));
            },
            _ => {},
        }
    }

    /// Takes the entries of the service's catalogue in, in order. An entry
    /// without a path or without one of its versions is passed over; a later
    /// entry of the same name replaces an earlier one.
    pub fn register_apis(&mut self, entries: &Vec<ApiEntry>)
        ensures
            final(self).base() == old(self).base(),
            final(self).session_id() == old(self).session_id(),
            final(self).catalog() == catalog_after(old(self).catalog(), entries.deep_view()),
    {
        let ghost all = entries.deep_view();
        let mut i: usize = 0;
        while i < entries.len()
            invariant
                i <= entries@.len(),
                all == entries.deep_view(),
                self.base() == old(self).base(),
                self.session_id() == old(self).session_id(),
                self.catalog() == catalog_after(old(self).catalog(), all.subrange(0, i as int)),
            decreases entries@.len() - i,
        {
            self.take_entry(&entries[i]);
            proof {
                let next = all.subrange(0, i + 1);
                assert(next.drop_last() =~= all.subrange(0, i as int));
                assert(next.last() == entries@[i as int]@);
            }
            i = i + 1;
        }
        assert(all.subrange(0, i as int) =~= all);
    }
}

/// A pair of a parameter's name and its value.
pub fn param(name: &str, value: &str) -> (p: (String, String))
    ensures
        p.deep_view() == (name@, value@),
{
    (String::from_str(name), String::from_str(value))
}

} // verus!
