//! Tasks as the service sends them, and flattened for display.

use crate::api::status::{StatusView, TaskStatus};
use crate::text::{or_empty, same_text, text_or_empty};
use crate::util::{
    bytes_text, fixed2, format_bytes, progress_bar, push_fixed2, render_progress_bar,
    round_half_even, rounded_quotient,
};
use vstd::prelude::*;

verus! {

/// Transfer totals of a task; the service may leave any of them out.
#[derive(Debug, Clone, Copy, PartialEq, Eq, Structural)]
pub struct TransferInfo {
    pub size_downloaded: Option<u64>,
    pub size_uploaded: Option<u64>,
    pub downloaded_pieces: Option<u64>,
    pub speed_download: Option<u64>,
    pub speed_upload: Option<u64>,
}

/// Bytes sent over bytes received. The bytes received are never zero.
#[derive(Debug, Clone, Copy, PartialEq, Eq)]
pub struct Ratio {
    uploaded: u64,
    downloaded: u64,
}

/// The two byte counts of a `Ratio`.
pub struct RatioModel {
    pub uploaded: nat,
    pub downloaded: nat,
}

impl RatioModel {
    /// The ratio in hundredths, rounded to the nearest, a tie to the even one.
    pub open spec fn hundredths(self) -> nat {
        round_half_even(self.uploaded * 100, self.downloaded)
    }
}

impl View for Ratio {
    type V = RatioModel;

    closed spec fn view(&self) -> RatioModel {
        RatioModel { uploaded: self.uploaded as nat, downloaded: self.downloaded as nat }
    }
}

impl Ratio {
    #[verifier::type_invariant]
    spec fn downloaded_is_positive(self) -> bool {
        self.downloaded > 0
    }

    /// The ratio of `uploaded` to `downloaded`; none where nothing was received.
    pub fn new(uploaded: u64, downloaded: u64) -> (r: Option<Ratio>)
        ensures
            r is None <==> downloaded == 0,
            r is Some ==> r->0@ == (RatioModel {
                uploaded: uploaded as nat,
                downloaded: downloaded as nat,
            }),
    {
        if downloaded == 0 {
            None
        } else {
            Some(Ratio { uploaded, downloaded })
        }
    }

    /// The bytes sent.
    pub fn uploaded_bytes(&self) -> (n: u64)
        ensures
            n == self@.uploaded,
    {
        self.uploaded
    }

    /// The bytes received.
    pub fn downloaded_bytes(&self) -> (n: u64)
        ensures
            n == self@.downloaded,
            n > 0,
    {
        proof {
            use_type_invariant(self);
        }
        self.downloaded
    }

    /// The ratio with two decimals.
    pub fn to_string(&self) -> (text: String)
        ensures
            text@ == fixed2(self@.hundredths()),
    {
        proof {
            use_type_invariant(self);
        }
        let num: u128 = self.uploaded as u128 * 100;
        let den: u128 = self.downloaded as u128;
        let hundredths = rounded_quotient(num, den);
        assert(hundredths / 100 <= u64::MAX) by {
            assert(num / den <= num) by (nonlinear_arith)
                requires
                    den >= 1,
            ;
        }
        let mut text = String::new();
        push_fixed2(&mut text, hundredths);
        text
    }
}

/// Details of a task; the service may leave any of them out.
#[derive(Debug, Clone, PartialEq, Eq)]
pub struct DetailInfo {
    pub connected_leechers: Option<u64>,
    pub connected_seeders: Option<u64>,
    pub connected_peers: Option<u64>,
    pub create_time: Option<u64>,
    pub started_time: Option<u64>,
    pub completed_time: Option<u64>,
    pub seedelapsed: Option<u64>,
    pub destination: Option<String>,
    pub priority: Option<String>,
    pub total_peers: Option<u64>,
    pub total_pieces: Option<u64>,
    pub unzip_password: Option<String>,
    pub waiting_seconds: Option<u64>,
    pub uri: Option<String>,
}

/// What a `DetailInfo` holds, with texts as plain characters.
pub struct DetailInfoModel {
    pub connected_leechers: Option<u64>,
    pub connected_seeders: Option<u64>,
    pub connected_peers: Option<u64>,
    pub create_time: Option<u64>,
    pub started_time: Option<u64>,
    pub completed_time: Option<u64>,
    pub seedelapsed: Option<u64>,
    pub destination: Option<Seq<char>>,
    pub priority: Option<Seq<char>>,
    pub total_peers: Option<u64>,
    pub total_pieces: Option<u64>,
    pub unzip_password: Option<Seq<char>>,
    pub waiting_seconds: Option<u64>,
    pub uri: Option<Seq<char>>,
}

impl View for DetailInfo {
    type V = DetailInfoModel;

    open spec fn view(&self) -> DetailInfoModel {
        DetailInfoModel {
            connected_leechers: self.connected_leechers,
            connected_seeders: self.connected_seeders,
            connected_peers: self.connected_peers,
            create_time: self.create_time,
            started_time: self.started_time,
            completed_time: self.completed_time,
            seedelapsed: self.seedelapsed,
            destination: self.destination.deep_view(),
            priority: self.priority.deep_view(),
            total_peers: self.total_peers,
            total_pieces: self.total_pieces,
            unzip_password: self.unzip_password.deep_view(),
            waiting_seconds: self.waiting_seconds,
            uri: self.uri.deep_view(),
        }
    }
}

impl DeepView for DetailInfo {
    type V = DetailInfoModel;

    open spec fn deep_view(&self) -> DetailInfoModel {
        self.view()
    }
}

/// One file of a task, as the service sends it.
#[derive(Debug, Clone, PartialEq, Eq)]
pub struct FileInfo {
    pub filename: Option<String>,
    pub priority: Option<String>,
    pub size: Option<u64>,
    pub size_downloaded: Option<u64>,
}

/// What a `FileInfo` holds, with texts as plain characters.
pub struct FileInfoModel {
    pub filename: Option<Seq<char>>,
    pub priority: Option<Seq<char>>,
    pub size: Option<u64>,
    pub size_downloaded: Option<u64>,
}

impl View for FileInfo {
    type V = FileInfoModel;

    open spec fn view(&self) -> FileInfoModel {
        FileInfoModel {
            filename: self.filename.deep_view(),
            priority: self.priority.deep_view(),
            size: self.size,
            size_downloaded: self.size_downloaded,
        }
    }
}

impl DeepView for FileInfo {
    type V = FileInfoModel;

    open spec fn deep_view(&self) -> FileInfoModel {
        self.view()
    }
}

/// One tracker of a task, as the service sends it.
#[derive(Debug, Clone, PartialEq, Eq)]
pub struct TrackerInfo {
    pub url: Option<String>,
    pub status: Option<String>,
    pub update_timer: Option<u64>,
    pub seeds: Option<i64>,
    pub peers: Option<i64>,
}

/// What a `TrackerInfo` holds, with texts as plain characters.
pub struct TrackerInfoModel {
    pub url: Option<Seq<char>>,
    pub status: Option<Seq<char>>,
    pub update_timer: Option<u64>,
    pub seeds: Option<i64>,
    pub peers: Option<i64>,
}

impl View for TrackerInfo {
    type V = TrackerInfoModel;

    open spec fn view(&self) -> TrackerInfoModel {
        TrackerInfoModel {
            url: self.url.deep_view(),
            status: self.status.deep_view(),
            update_timer: self.update_timer,
            seeds: self.seeds,
            peers: self.peers,
        }
    }
}

impl DeepView for TrackerInfo {
    type V = TrackerInfoModel;

    open spec fn deep_view(&self) -> TrackerInfoModel {
        self.view()
    }
}

/// One peer of a task, as the service sends it. `progress` is in thousandths.
#[derive(Debug, Clone, PartialEq, Eq)]
pub struct PeerInfo {
    pub address: Option<String>,
    pub agent: Option<String>,
    pub progress: Option<u64>,
    pub speed_download: Option<u64>,
    pub speed_upload: Option<u64>,
}

/// What a `PeerInfo` holds, with texts as plain characters.
pub struct PeerInfoModel {
    pub address: Option<Seq<char>>,
    pub agent: Option<Seq<char>>,
    pub progress: Option<u64>,
    pub speed_download: Option<u64>,
    pub speed_upload: Option<u64>,
}

impl View for PeerInfo {
    type V = PeerInfoModel;

    open spec fn view(&self) -> PeerInfoModel {
        PeerInfoModel {
            address: self.address.deep_view(),
            agent: self.agent.deep_view(),
            progress: self.progress,
            speed_download: self.speed_download,
            speed_upload: self.speed_upload,
        }
    }
}

impl DeepView for PeerInfo {
    type V = PeerInfoModel;

    open spec fn deep_view(&self) -> PeerInfoModel {
        self.view()
    }
}

/// One file of a task, every field present.
#[derive(Debug, Clone, PartialEq, Eq)]
pub struct FileEntry {
    pub filename: String,
    pub priority: String,
    pub size: u64,
    pub size_downloaded: u64,
}

/// What a `FileEntry` holds, with texts as plain characters.
pub struct FileEntryModel {
    pub filename: Seq<char>,
    pub priority: Seq<char>,
    pub size: u64,
    pub size_downloaded: u64,
}

impl View for FileEntry {
    type V = FileEntryModel;

    open spec fn view(&self) -> FileEntryModel {
        FileEntryModel {
            filename: self.filename@,
            priority: self.priority@,
            size: self.size,
            size_downloaded: self.size_downloaded,
        }
    }
}

impl DeepView for FileEntry {
    type V = FileEntryModel;

    open spec fn deep_view(&self) -> FileEntryModel {
        self.view()
    }
}

/// One peer of a task, every field present. `progress` is in thousandths.
#[derive(Debug, Clone, PartialEq, Eq)]
pub struct PeerEntry {
    pub address: String,
    pub agent: String,
    pub progress: u64,
    pub speed_download: u64,
    pub speed_upload: u64,
}

/// What a `PeerEntry` holds, with texts as plain characters.
pub struct PeerEntryModel {
    pub address: Seq<char>,
    pub agent: Seq<char>,
    pub progress: u64,
    pub speed_download: u64,
    pub speed_upload: u64,
}

impl View for PeerEntry {
    type V = PeerEntryModel;

    open spec fn view(&self) -> PeerEntryModel {
        PeerEntryModel {
            address: self.address@,
            agent: self.agent@,
            progress: self.progress,
            speed_download: self.speed_download,
            speed_upload: self.speed_upload,
        }
    }
}

impl DeepView for PeerEntry {
    type V = PeerEntryModel;

    open spec fn deep_view(&self) -> PeerEntryModel {
        self.view()
    }
}

/// One tracker of a task, every field present.
#[derive(Debug, Clone, PartialEq, Eq)]
pub struct TrackerEntry {
    pub url: String,
    pub status: String,
    pub update_timer: u64,
    pub seeds: i64,
    pub peers: i64,
}

/// What a `TrackerEntry` holds, with texts as plain characters.
pub struct TrackerEntryModel {
    pub url: Seq<char>,
    pub status: Seq<char>,
    pub update_timer: u64,
    pub seeds: i64,
    pub peers: i64,
}

impl View for TrackerEntry {
    type V = TrackerEntryModel;

    open spec fn view(&self) -> TrackerEntryModel {
        TrackerEntryModel {
            url: self.url@,
            status: self.status@,
            update_timer: self.update_timer,
            seeds: self.seeds,
            peers: self.peers,
        }
    }
}

impl DeepView for TrackerEntry {
    type V = TrackerEntryModel;

    open spec fn deep_view(&self) -> TrackerEntryModel {
        self.view()
    }
}

/// The optional extended block of a task.
#[derive(Debug, Clone, PartialEq, Eq)]
pub struct AdditionalInfo {
    pub detail: Option<DetailInfo>,
    pub transfer: Option<TransferInfo>,
    pub file: Option<Vec<FileInfo>>,
    pub peer: Option<Vec<PeerInfo>>,
    pub tracker: Option<Vec<TrackerInfo>>,
}

/// What a `AdditionalInfo` holds, with texts as plain characters.
pub struct AdditionalInfoModel {
    pub detail: Option<DetailInfoModel>,
    pub transfer: Option<TransferInfo>,
    pub file: Option<Seq<FileInfoModel>>,
    pub peer: Option<Seq<PeerInfoModel>>,
    pub tracker: Option<Seq<TrackerInfoModel>>,
}

impl View for AdditionalInfo {
    type V = AdditionalInfoModel;

    open spec fn view(&self) -> AdditionalInfoModel {
        AdditionalInfoModel {
            detail: self.detail.deep_view(),
            transfer: self.transfer,
            file: self.file.deep_view(),
            peer: self.peer.deep_view(),
            tracker: self.tracker.deep_view(),
        }
    }
}

impl DeepView for AdditionalInfo {
    type V = AdditionalInfoModel;

    open spec fn deep_view(&self) -> AdditionalInfoModel {
        self.view()
    }
}

/// One transfer job of the remote service. Its identity is its `id`.
#[derive(Debug, Clone, PartialEq, Eq)]
pub struct DownloadTask {
    pub id: String,
    pub size: u64,
    pub status: TaskStatus,
    pub title: String,
    pub task_type: String,
    pub username: String,
    pub additional: Option<AdditionalInfo>,
}

/// What a `DownloadTask` holds, with texts as plain characters.
pub struct DownloadTaskModel {
    pub id: Seq<char>,
    pub size: u64,
    pub status: StatusView,
    pub title: Seq<char>,
    pub task_type: Seq<char>,
    pub username: Seq<char>,
    pub additional: Option<AdditionalInfoModel>,
}

impl View for DownloadTask {
    type V = DownloadTaskModel;

    open spec fn view(&self) -> DownloadTaskModel {
        DownloadTaskModel {
            id: self.id@,
            size: self.size,
            status: self.status@,
            title: self.title@,
            task_type: self.task_type@,
            username: self.username@,
            additional: self.additional.deep_view(),
        }
    }
}

impl DeepView for DownloadTask {
    type V = DownloadTaskModel;

    open spec fn deep_view(&self) -> DownloadTaskModel {
        self.view()
    }
}

/// A task flattened for display: every optional number, text and list
/// replaced by its zero value. The ratio alone stays optional: an undefined
/// ratio is not zero.
#[derive(Debug, Clone, PartialEq, Eq)]
pub struct ExtendedDownloadTask {
    pub task_id: String,
    pub task_size: u64,
    pub task_status: TaskStatus,
    pub task_title: String,
    pub task_type: String,
    pub task_ratio: Option<Ratio>,
    pub task_username: String,
    pub connected_leechers: u64,
    pub connected_seeders: u64,
    pub connected_peers: u64,
    pub task_create_time: u64,
    pub task_started_time: u64,
    pub task_completed_time: u64,
    pub task_seedelapsed: u64,
    pub task_destination: String,
    pub task_priority: String,
    pub total_peers: u64,
    pub total_pieces: u64,
    pub unzip_password: String,
    pub waiting_seconds: u64,
    pub task_uri: String,
    pub task_size_downloaded: u64,
    pub task_size_uploaded: u64,
    pub task_downloaded_pieces: u64,
    pub task_speed_download: u64,
    pub task_speed_upload: u64,
    pub files: Vec<FileEntry>,
    pub peers: Vec<PeerEntry>,
    pub trackers: Vec<TrackerEntry>,
}

/// What a `ExtendedDownloadTask` holds, with texts as plain characters.
pub struct ExtendedDownloadTaskModel {
    pub task_id: Seq<char>,
    pub task_size: u64,
    pub task_status: StatusView,
    pub task_title: Seq<char>,
    pub task_type: Seq<char>,
    pub task_ratio: Option<RatioModel>,
    pub task_username: Seq<char>,
    pub connected_leechers: u64,
    pub connected_seeders: u64,
    pub connected_peers: u64,
    pub task_create_time: u64,
    pub task_started_time: u64,
    pub task_completed_time: u64,
    pub task_seedelapsed: u64,
    pub task_destination: Seq<char>,
    pub task_priority: Seq<char>,
    pub total_peers: u64,
    pub total_pieces: u64,
    pub unzip_password: Seq<char>,
    pub waiting_seconds: u64,
    pub task_uri: Seq<char>,
    pub task_size_downloaded: u64,
    pub task_size_uploaded: u64,
    pub task_downloaded_pieces: u64,
    pub task_speed_download: u64,
    pub task_speed_upload: u64,
    pub files: Seq<FileEntryModel>,
    pub peers: Seq<PeerEntryModel>,
    pub trackers: Seq<TrackerEntryModel>,
}

impl View for ExtendedDownloadTask {
    type V = ExtendedDownloadTaskModel;

    open spec fn view(&self) -> ExtendedDownloadTaskModel {
        ExtendedDownloadTaskModel {
            task_id: self.task_id@,
            task_size: self.task_size,
            task_status: self.task_status@,
            task_title: self.task_title@,
            task_type: self.task_type@,
            task_ratio: self.task_ratio.deep_view(),
            task_username: self.task_username@,
            connected_leechers: self.connected_leechers,
            connected_seeders: self.connected_seeders,
            connected_peers: self.connected_peers,
            task_create_time: self.task_create_time,
            task_started_time: self.task_started_time,
            task_completed_time: self.task_completed_time,
            task_seedelapsed: self.task_seedelapsed,
            task_destination: self.task_destination@,
            task_priority: self.task_priority@,
            total_peers: self.total_peers,
            total_pieces: self.total_pieces,
            unzip_password: self.unzip_password@,
            waiting_seconds: self.waiting_seconds,
            task_uri: self.task_uri@,
            task_size_downloaded: self.task_size_downloaded,
            task_size_uploaded: self.task_size_uploaded,
            task_downloaded_pieces: self.task_downloaded_pieces,
            task_speed_download: self.task_speed_download,
            task_speed_upload: self.task_speed_upload,
            files: self.files.deep_view(),
            peers: self.peers.deep_view(),
            trackers: self.trackers.deep_view(),
        }
    }
}

impl DeepView for ExtendedDownloadTask {
    type V = ExtendedDownloadTaskModel;

    open spec fn deep_view(&self) -> ExtendedDownloadTaskModel {
        self.view()
    }
}
/// The number of an optional count, zero where there is none.
pub open spec fn or_zero(n: Option<u64>) -> u64 {
    match n {
        Some(n) => n,
        None => 0,
    }
}

/// The number of an optional signed count, zero where there is none.
pub open spec fn or_zero_signed(n: Option<i64>) -> i64 {
    match n {
        Some(n) => n,
        None => 0,
    }
}

/// A file with every missing field replaced by its zero value.
pub open spec fn file_entry(f: FileInfoModel) -> FileEntryModel {
    FileEntryModel {
        filename: or_empty(f.filename),
        priority: or_empty(f.priority),
        size: or_zero(f.size),
        size_downloaded: or_zero(f.size_downloaded),
    }
}

/// A peer with every missing field replaced by its zero value.
pub open spec fn peer_entry(p: PeerInfoModel) -> PeerEntryModel {
    PeerEntryModel {
        address: or_empty(p.address),
        agent: or_empty(p.agent),
        progress: or_zero(p.progress),
        speed_download: or_zero(p.speed_download),
        speed_upload: or_zero(p.speed_upload),
    }
}

/// A tracker with every missing field replaced by its zero value.
pub open spec fn tracker_entry(t: TrackerInfoModel) -> TrackerEntryModel {
    TrackerEntryModel {
        url: or_empty(t.url),
        status: or_empty(t.status),
        update_timer: or_zero(t.update_timer),
        seeds: or_zero_signed(t.seeds),
        peers: or_zero_signed(t.peers),
    }
}

/// The files of a task in their order, none where the list is missing.
pub open spec fn file_entries(files: Option<Seq<FileInfoModel>>) -> Seq<FileEntryModel> {
    match files {
        Some(list) => list.map_values(|f: FileInfoModel| file_entry(f)),
        None => Seq::empty(),
    }
}

/// The peers of a task in their order, none where the list is missing.
pub open spec fn peer_entries(peers: Option<Seq<PeerInfoModel>>) -> Seq<PeerEntryModel> {
    match peers {
        Some(list) => list.map_values(|p: PeerInfoModel| peer_entry(p)),
        None => Seq::empty(),
    }
}

/// The trackers of a task in their order, none where the list is missing.
pub open spec fn tracker_entries(trackers: Option<Seq<TrackerInfoModel>>) -> Seq<
    TrackerEntryModel,
> {
    match trackers {
        Some(list) => list.map_values(|t: TrackerInfoModel| tracker_entry(t)),
        None => Seq::empty(),
    }
}

impl DetailInfoModel {
    /// Details with nothing in them.
    pub open spec fn empty() -> DetailInfoModel {
        DetailInfoModel {
            connected_leechers: None,
            connected_seeders: None,
            connected_peers: None,
            create_time: None,
            started_time: None,
            completed_time: None,
            seedelapsed: None,
            destination: None,
            priority: None,
            total_peers: None,
            total_pieces: None,
            unzip_password: None,
            waiting_seconds: None,
            uri: None,
        }
    }
}

impl TransferInfo {
    /// Transfer totals with nothing in them.
    pub open spec fn empty() -> TransferInfo {
        TransferInfo {
            size_downloaded: None,
            size_uploaded: None,
            downloaded_pieces: None,
            speed_download: None,
            speed_upload: None,
        }
    }
}

impl AdditionalInfoModel {
    /// An extended block with nothing in it.
    pub open spec fn empty() -> AdditionalInfoModel {
        AdditionalInfoModel { detail: None, transfer: None, file: None, peer: None, tracker: None }
    }
}

impl DownloadTaskModel {
    /// The extended block, empty where the task has none.
    pub open spec fn extra(self) -> AdditionalInfoModel {
        match self.additional {
            Some(a) => a,
            None => AdditionalInfoModel::empty(),
        }
    }

    /// The details, empty where the task has none.
    pub open spec fn detail(self) -> DetailInfoModel {
        match self.extra().detail {
            Some(d) => d,
            None => DetailInfoModel::empty(),
        }
    }

    /// The transfer totals, empty where the task has none.
    pub open spec fn transfer(self) -> TransferInfo {
        match self.extra().transfer {
            Some(t) => t,
            None => TransferInfo::empty(),
        }
    }

    /// Bytes sent over bytes received: defined where both counts are known
    /// and something was received, and undefined otherwise.
    pub open spec fn ratio(self) -> Option<RatioModel> {
        let t = self.transfer();
        if t.size_downloaded is Some && t.size_uploaded is Some && t.size_downloaded->0 != 0 {
            Some(
                RatioModel {
                    uploaded: t.size_uploaded->0 as nat,
                    downloaded: t.size_downloaded->0 as nat,
                },
            )
        } else {
            None
        }
    }

    /// The flattened task: every optional number, text and list replaced by
    /// its zero value, and the ratio as it is, defined or not.
    pub open spec fn extended(self) -> ExtendedDownloadTaskModel {
        let detail = self.detail();
        let transfer = self.transfer();
        ExtendedDownloadTaskModel {
            task_id: self.id,
            task_size: self.size,
            task_status: self.status,
            task_title: self.title,
            task_type: self.task_type,
            task_ratio: self.ratio(),
            task_username: self.username,
            connected_leechers: or_zero(detail.connected_leechers),
            connected_seeders: or_zero(detail.connected_seeders),
            connected_peers: or_zero(detail.connected_peers),
            task_create_time: or_zero(detail.create_time),
            task_started_time: or_zero(detail.started_time),
            task_completed_time: or_zero(detail.completed_time),
            task_seedelapsed: or_zero(detail.seedelapsed),
            task_destination: or_empty(detail.destination),
            task_priority: or_empty(detail.priority),
            total_peers: or_zero(detail.total_peers),
            total_pieces: or_zero(detail.total_pieces),
            unzip_password: or_empty(detail.unzip_password),
            waiting_seconds: or_zero(detail.waiting_seconds),
            task_uri: or_empty(detail.uri),
            task_size_downloaded: or_zero(transfer.size_downloaded),
            task_size_uploaded: or_zero(transfer.size_uploaded),
            task_downloaded_pieces: or_zero(transfer.downloaded_pieces),
            task_speed_download: or_zero(transfer.speed_download),
            task_speed_upload: or_zero(transfer.speed_upload),
            files: file_entries(self.extra().file),
            peers: peer_entries(self.extra().peer),
            trackers: tracker_entries(self.extra().tracker),
        }
    }
}

/// The display name of a task type tag.
pub open spec fn type_label(tag: Seq<char>) -> Seq<char> {
    if tag == "bt"@ {
        "Bittorrent"@
    } else if tag == "ftp"@ {
        "FTP download"@
    } else if tag == "http"@ {
        "HTTP download"@
    } else if tag == "https"@ {
        "HTTPS download"@
    } else {
        "Other type of download"@
    }
}

/// Downloaded over total in percent, rounded to the nearest, a half going
/// up; zero where the total is zero; never above the largest `u64`.
pub open spec fn progress_percent(downloaded: nat, total: nat) -> nat {
    if total == 0 {
        0
    } else {
        let p = (200 * downloaded + total) / (2 * total);
        if p > u64::MAX {
            u64::MAX as nat
        } else {
            p
        }
    }
}

/// Downloaded over total in percent, as `progress_percent` defines it.
pub fn percent_done(downloaded: u64, total: u64) -> (p: u64)
    ensures
        p == progress_percent(downloaded as nat, total as nat),
{
    if total == 0 {
        return 0;
    }
    let num: u128 = 200 * (downloaded as u128) + total as u128;
    let den: u128 = 2 * (total as u128);
    let p = num / den;
    if p > u64::MAX as u128 {
        u64::MAX
    } else {
        p as u64
    }
}

fn number_or_zero(n: Option<u64>) -> (r: u64)
    ensures
        r == or_zero(n),
{
    match n {
        Some(n) => n,
        None => 0,
    }
}

fn signed_or_zero(n: Option<i64>) -> (r: i64)
    ensures
        r == or_zero_signed(n),
{
    match n {
        Some(n) => n,
        None => 0,
    }
}

fn flatten_files(files: &Option<Vec<FileInfo>>) -> (entries: Vec<FileEntry>)
    ensures
        entries.deep_view() == file_entries(files.deep_view()),
{
    let mut entries: Vec<FileEntry> = Vec::new();
    match files {
        Some(list) => {
            let mut i: usize = 0;
            while i < list.len()
                invariant
                    i <= list@.len(),
                    entries@.len() == i,
                    forall|j: int| 0 <= j < i ==> (
                        #[trigger] entries@[j])@ == file_entry(list@[j]@,
                    ),
                decreases list@.len() - i,
            {
                let f = &list[i];
                entries.push(
                    FileEntry {
                        filename: text_or_empty(&f.filename),
                        priority: text_or_empty(&f.priority),
                        size: number_or_zero(f.size),
                        size_downloaded: number_or_zero(f.size_downloaded),
                    },
                );
                i = i + 1;
            }
            assert(entries.deep_view() =~= file_entries(files.deep_view()));
        },
        None => {
            assert(entries.deep_view() =~= file_entries(files.deep_view()));
        },
    }
    entries
}

fn flatten_peers(peers: &Option<Vec<PeerInfo>>) -> (entries: Vec<PeerEntry>)
    ensures
        entries.deep_view() == peer_entries(peers.deep_view()),
{
    let mut entries: Vec<PeerEntry> = Vec::new();
    match peers {
        Some(list) => {
            let mut i: usize = 0;
            while i < list.len()
                invariant
                    i <= list@.len(),
                    entries@.len() == i,
                    forall|j: int| 0 <= j < i ==> (
                        #[trigger] entries@[j])@ == peer_entry(list@[j]@,
                    ),
                decreases list@.len() - i,
            {
                let p = &list[i];
                entries.push(
                    PeerEntry {
                        address: text_or_empty(&p.address),
                        agent: text_or_empty(&p.agent),
                        progress: number_or_zero(p.progress),
                        speed_download: number_or_zero(p.speed_download),
                        speed_upload: number_or_zero(p.speed_upload),
                    },
                );
                i = i + 1;
            }
            assert(entries.deep_view() =~= peer_entries(peers.deep_view()));
        },
        None => {
            assert(entries.deep_view() =~= peer_entries(peers.deep_view()));
        },
    }
    entries
}

fn flatten_trackers(trackers: &Option<Vec<TrackerInfo>>) -> (entries: Vec<TrackerEntry>)
    ensures
        entries.deep_view() == tracker_entries(trackers.deep_view()),
{
    let mut entries: Vec<TrackerEntry> = Vec::new();
    match trackers {
        Some(list) => {
            let mut i: usize = 0;
            while i < list.len()
                invariant
                    i <= list@.len(),
                    entries@.len() == i,
                    forall|j: int|
                        0 <= j < i ==> (#[trigger] entries@[j])@ == tracker_entry(list@[j]@),
                decreases list@.len() - i,
            {
                let t = &list[i];
                entries.push(
                    TrackerEntry {
                        url: text_or_empty(&t.url),
                        status: text_or_empty(&t.status),
                        update_timer: number_or_zero(t.update_timer),
                        seeds: signed_or_zero(t.seeds),
                        peers: signed_or_zero(t.peers),
                    },
                );
                i = i + 1;
            }
            assert(entries.deep_view() =~= tracker_entries(trackers.deep_view()));
        },
        None => {
            assert(entries.deep_view() =~= tracker_entries(trackers.deep_view()));
        },
    }
    entries
}

impl DownloadTask {
    /// Bytes sent over bytes received. It is undefined, not zero, where
    /// either count is missing or nothing was received.
    pub fn upload_download_ratio(&self) -> (r: Option<Ratio>)
        ensures
            r.deep_view() == self@.ratio(),
            r is Some ==> r->0@.downloaded > 0,
    {
        match &self.additional {
            Some(additional) => match additional.transfer {
                Some(transfer) => match (transfer.size_downloaded, transfer.size_uploaded) {
                    (Some(downloaded), Some(uploaded)) => Ratio::new(uploaded, downloaded),
                    _ => None,
                },
                None => None,
            },
            None => None,
        }
    }

    /// The display name of the task's type tag.
    pub fn task_type(&self) -> (label: &str)
        ensures
            label@ == type_label(self@.task_type),
    {
        let tag = self.task_type.as_str();
        if same_text(tag, "bt") {
            "Bittorrent"
        } else if same_text(tag, "ftp") {
            "FTP download"
        } else if same_text(tag, "http") {
            "HTTP download"
        } else if same_text(tag, "https") {
            "HTTPS download"
        } else {
            "Other type of download"
        }
    }
}

impl DeepView for Ratio {
    type V = RatioModel;

    open spec fn deep_view(&self) -> RatioModel {
        self.view()
    }
}

impl ExtendedDownloadTaskModel {
    /// The ratio as it is shown: with two decimals where it is defined, and
    /// a dash where it is not or nothing was received. It is never the text
    /// of a zero where it is undefined.
    pub open spec fn ratio_text(self) -> Seq<char> {
        match self.task_ratio {
            Some(ratio) => if self.task_size_downloaded == 0 {
                "-"@
            } else {
                fixed2(ratio.hundredths())
            },
            None => "-"@,
        }
    }
}

/// An undefined ratio is not shown as zero. Where nothing was received, or
/// the ratio is undefined, the ratio cell of the row is a dash, which is not
/// the text `0.00`.
pub proof fn lemma_undefined_ratio_is_not_zero(e: ExtendedDownloadTaskModel)
    requires
        e.task_size_downloaded == 0 || e.task_ratio is None,
    ensures
        e.ratio_text() == "-"@,
        e.ratio_text() != "0.00"@,
        ExtendedDownloadTask::row_cells(e)[7] == "-"@,
        ExtendedDownloadTask::row_cells(e)[7] != "0.00"@,
{
    reveal_strlit("-");
    reveal_strlit("0.00");
    assert("-"@.len() == 1);
    assert("0.00"@.len() == 4);
}

/// A task of which nothing was received has no ratio once flattened.
pub proof fn lemma_flattened_ratio(task: DownloadTaskModel)
    ensures
        task.extended().task_ratio == task.ratio(),
        task.extended().task_size_downloaded == 0 ==> task.extended().task_ratio is None,
        task.extended().task_ratio is Some ==> task.extended().task_ratio->0.downloaded
            == task.extended().task_size_downloaded && task.extended().task_ratio->0.uploaded
            == task.extended().task_size_uploaded,
{
}

impl ExtendedDownloadTask {
    /// Flattens a task for display. Every missing number becomes zero, every
    /// missing text empty and every missing list empty. An undefined ratio
    /// stays undefined; nothing else changes.
    pub fn from(task: DownloadTask) -> (e: ExtendedDownloadTask)
        ensures
            e@ == task@.extended(),
    {
        Self::from_ref(&task)
    }

    /// Flattens a borrowed task, as `from` does.
    pub fn from_ref(task: &DownloadTask) -> (e: ExtendedDownloadTask)
        ensures
            e@ == task@.extended(),
    {
        let ratio = task.upload_download_ratio();
        let no_text: Option<String> = None;
        let no_files: Option<Vec<FileInfo>> = None;
        let no_peers: Option<Vec<PeerInfo>> = None;
        let no_trackers: Option<Vec<TrackerInfo>> = None;
        let (detail, transfer, files, peers, trackers) = match &task.additional {
            Some(a) => (&a.detail, a.transfer, &a.file, &a.peer, &a.tracker),
            None => (&None, None, &no_files, &no_peers, &no_trackers),
        };
        let transfer = match transfer {
            Some(t) => t,
            None => TransferInfo {
                size_downloaded: None,
                size_uploaded: None,
                downloaded_pieces: None,
                speed_download: None,
                speed_upload: None,
            },
        };
        let files = flatten_files(files);
        let peers = flatten_peers(peers);
        let trackers = flatten_trackers(trackers);
        let e = match detail {
            Some(d) => ExtendedDownloadTask {
                task_id: task.id.clone(),
                task_size: task.size,
                task_status: task.status.duplicate(),
                task_title: task.title.clone(),
                task_type: task.task_type.clone(),
                task_ratio: ratio,
                task_username: task.username.clone(),
                connected_leechers: number_or_zero(d.connected_leechers),
                connected_seeders: number_or_zero(d.connected_seeders),
                connected_peers: number_or_zero(d.connected_peers),
                task_create_time: number_or_zero(d.create_time),
                task_started_time: number_or_zero(d.started_time),
                task_completed_time: number_or_zero(d.completed_time),
                task_seedelapsed: number_or_zero(d.seedelapsed),
                task_destination: text_or_empty(&d.destination),
                task_priority: text_or_empty(&d.priority),
                total_peers: number_or_zero(d.total_peers),
                total_pieces: number_or_zero(d.total_pieces),
                unzip_password: text_or_empty(&d.unzip_password),
                waiting_seconds: number_or_zero(d.waiting_seconds),
                task_uri: text_or_empty(&d.uri),
                task_size_downloaded: number_or_zero(transfer.size_downloaded),
                task_size_uploaded: number_or_zero(transfer.size_uploaded),
                task_downloaded_pieces: number_or_zero(transfer.downloaded_pieces),
                task_speed_download: number_or_zero(transfer.speed_download),
                task_speed_upload: number_or_zero(transfer.speed_upload),
                files,
                peers,
                trackers,
            },
            None => ExtendedDownloadTask {
                task_id: task.id.clone(),
                task_size: task.size,
                task_status: task.status.duplicate(),
                task_title: task.title.clone(),
                task_type: task.task_type.clone(),
                task_ratio: ratio,
                task_username: task.username.clone(),
                connected_leechers: 0,
                connected_seeders: 0,
                connected_peers: 0,
                task_create_time: 0,
                task_started_time: 0,
                task_completed_time: 0,
                task_seedelapsed: 0,
                task_destination: text_or_empty(&no_text),
                task_priority: text_or_empty(&no_text),
                total_peers: 0,
                total_pieces: 0,
                unzip_password: text_or_empty(&no_text),
                waiting_seconds: 0,
                task_uri: text_or_empty(&no_text),
                task_size_downloaded: number_or_zero(transfer.size_downloaded),
                task_size_uploaded: number_or_zero(transfer.size_uploaded),
                task_downloaded_pieces: number_or_zero(transfer.downloaded_pieces),
                task_speed_download: number_or_zero(transfer.speed_download),
                task_speed_upload: number_or_zero(transfer.speed_upload),
                files,
                peers,
                trackers,
            },
        };
        e
    }

    /// The ratio as it is shown: with two decimals where it is defined, and
    /// a dash where it is not or nothing was received.
    pub fn ratio_text(&self) -> (text: String)
        ensures
            text@ == self@.ratio_text(),
    {
        match &self.task_ratio {
            Some(ratio) => if self.task_size_downloaded == 0 {
                String::from_str("-")
            } else {
                ratio.to_string()
            },
            None => String::from_str("-"),
        }
    }

    /// The cells of the task's row in the table.
    pub open spec fn row_cells(e: ExtendedDownloadTaskModel) -> Seq<Seq<char>> {
        seq![
            e.task_title,
            bytes_text(e.task_size as nat),
            bytes_text(e.task_size_downloaded as nat),
            bytes_text(e.task_size_uploaded as nat),
            progress_bar(progress_percent(e.task_size_downloaded as nat, e.task_size as nat), 10),
            bytes_text(e.task_speed_upload as nat),
            bytes_text(e.task_speed_download as nat),
            e.ratio_text(),
            e.task_status.label(),
        ]
    }

    /// The nine cells of the task's row: title, size, downloaded, uploaded,
    /// progress bar, upload speed, download speed, ratio, status label.
    pub fn to_row_cells(&self) -> (cells: Vec<String>)
        ensures
            cells.deep_view() == Self::row_cells(self@),
    {
        let percent = percent_done(self.task_size_downloaded, self.task_size);
        let mut cells: Vec<String> = Vec::new();
        cells.push(self.task_title.clone());
        cells.push(format_bytes(self.task_size));
        cells.push(format_bytes(self.task_size_downloaded));
        cells.push(format_bytes(self.task_size_uploaded));
        cells.push(render_progress_bar(percent, 10));
        cells.push(format_bytes(self.task_speed_upload));
        cells.push(format_bytes(self.task_speed_download));
        cells.push(self.ratio_text());
        cells.push(String::from_str(self.task_status.label()));
        assert(cells.deep_view() =~= Self::row_cells(self@));
        cells
    }
}

/// Flattens every task of a list, in order.
pub fn extend_task_info(tasks: &Vec<DownloadTask>) -> (extended: Vec<ExtendedDownloadTask>)
    ensures
        extended.deep_view() == tasks.deep_view().map_values(
            |t: DownloadTaskModel| t.extended(),
        ),
{
    let mut extended: Vec<ExtendedDownloadTask> = Vec::new();
    let mut i: usize = 0;
    while i < tasks.len()
        invariant
            i <= tasks@.len(),
            extended@.len() == i,
            forall|j: int| 0 <= j < i ==> (#[trigger] extended@[j])@ == tasks@[j]@.extended(),
        decreases tasks@.len() - i,
    {
        extended.push(ExtendedDownloadTask::from_ref(&tasks[i]));
        i = i + 1;
    }
    assert(extended.deep_view() =~= tasks.deep_view().map_values(
        |t: DownloadTaskModel| t.extended(),
    ));
    extended
}

} // verus!
