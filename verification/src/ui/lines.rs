//! The lines of text that the detail panel and the popups show.

use crate::api::reply::{ConfigData, ConfigDataModel};
use crate::api::task::{
    percent_done, progress_percent, ExtendedDownloadTask, ExtendedDownloadTaskModel,
    FileEntryModel, PeerEntryModel, TrackerEntryModel,
};
use crate::config::{AppConfig, AppConfigModel};
use crate::text::{decimal, decimal_string, push_decimal};
use crate::util::{
    as_signed, bytes_text, format_bytes, format_seconds, format_timestamp,
    humantime_text, progress_bar, render_progress_bar, timestamp_label_text, utc_text,
};
use vstd::prelude::*;

verus! {

/// A number with its sign: a minus in front of what is below zero.
pub open spec fn signed_decimal(n: int) -> Seq<char> {
    if n < 0 {
        "-"@ + decimal((-n) as nat)
    } else {
        decimal(n as nat)
    }
}

/// Appends a number with its sign to `out`.
pub fn push_signed(out: &mut String, n: i64)
    ensures
        final(out)@ == old(out)@ + signed_decimal(n as int),
{
    if n < 0 {
        out.append("-");
        let magnitude: u64 = ((-(n + 1)) as u64) + 1;
        push_decimal(out, magnitude);
        assert(out@ =~= old(out)@ + signed_decimal(n as int));
    } else {
        push_decimal(out, n as u64);
    }
}

/// How a yes or no is written.
pub open spec fn flag_text(b: bool) -> Seq<char> {
    if b {
        "true"@
    } else {
        "false"@
    }
}

/// How a yes or no is written.
pub fn flag(b: bool) -> (text: &'static str)
    ensures
        text@ == flag_text(b),
{
    if b {
        "true"
    } else {
        "false"
    }
}

/// An optional text, or `fallback` where there is none.
pub open spec fn text_or(text: Option<Seq<char>>, fallback: Seq<char>) -> Seq<char> {
    match text {
        Some(t) => t,
        None => fallback,
    }
}

/// An optional text, or `fallback` where there is none.
pub fn text_or_else<'a>(text: &'a Option<String>, fallback: &'a str) -> (r: &'a str)
    ensures
        r@ == text_or(text.deep_view(), fallback@),
{
    match text {
        Some(t) => t.as_str(),
        None => fallback,
    }
}

/// The lines of the General tab for a task.
pub open spec fn general_tab_text(task: ExtendedDownloadTaskModel) -> Seq<Seq<char>> {
    seq![
        Seq::<char>::empty(),
        "ID                  : "@ + task.task_id,
        "Title               : "@ + task.task_title,
        "Destination         : "@ + task.task_destination,
        "Size                : "@ + bytes_text(task.task_size as nat),
        "User name           : "@ + task.task_username,
        "URL / File Name     : "@ + task.task_uri,
        "Created time        : "@
            + timestamp_label_text(utc_text(as_signed(task.task_create_time))),
        "Completed time      : "@
            + timestamp_label_text(utc_text(as_signed(task.task_completed_time))),
        "Estimated wait time : "@ + humantime_text(task.waiting_seconds),
    ]
}

/// The lines of the General tab for a task.
pub fn general_tab(task: &ExtendedDownloadTask) -> (lines: Vec<String>)
    ensures
        lines.deep_view() == general_tab_text(task@),
        lines@.len() == 10,
{
    let mut lines: Vec<String> = Vec::new();
    lines.push(String::new());
    {
        let mut line = String::new();
        line.append("ID                  : ");
        line.append(task.task_id.as_str());
        assert(line@ =~= general_tab_text(task@)[1]);
        lines.push(line);
    }
    {
        let mut line = String::new();
        line.append("Title               : ");
        line.append(task.task_title.as_str());
        assert(line@ =~= general_tab_text(task@)[2]);
        lines.push(line);
    }
    {
        let mut line = String::new();
        line.append("Destination         : ");
        line.append(task.task_destination.as_str());
        assert(line@ =~= general_tab_text(task@)[3]);
        lines.push(line);
    }
    {
        let mut line = String::new();
        line.append("Size                : ");
        line.append(format_bytes(task.task_size).as_str());
        assert(line@ =~= general_tab_text(task@)[4]);
        lines.push(line);
    }
    {
        let mut line = String::new();
        line.append("User name           : ");
        line.append(task.task_username.as_str());
        assert(line@ =~= general_tab_text(task@)[5]);
        lines.push(line);
    }
    {
        let mut line = String::new();
        line.append("URL / File Name     : ");
        line.append(task.task_uri.as_str());
        assert(line@ =~= general_tab_text(task@)[6]);
        lines.push(line);
    }
    {
        let mut line = String::new();
        line.append("Created time        : ");
        line.append(format_timestamp(task.task_create_time).as_str());
        assert(line@ =~= general_tab_text(task@)[7]);
        lines.push(line);
    }
    {
        let mut line = String::new();
        line.append("Completed time      : ");
        line.append(format_timestamp(task.task_completed_time).as_str());
        assert(line@ =~= general_tab_text(task@)[8]);
        lines.push(line);
    }
    {
        let mut line = String::new();
        line.append("Estimated wait time : ");
        line.append(format_seconds(task.waiting_seconds).as_str());
        assert(line@ =~= general_tab_text(task@)[9]);
        lines.push(line);
    }
    assert(lines.deep_view() =~= general_tab_text(task@));
    lines
}

/// The lines of the Transfer tab for a task.
pub open spec fn transfer_tab_text(task: ExtendedDownloadTaskModel) -> Seq<Seq<char>> {
    seq![
        Seq::<char>::empty(),
        "Status              : "@ + task.task_status.label(),
        "Tranferred (UL/DL)  : "@ + bytes_text(task.task_size_uploaded as nat) + " / "@
            + bytes_text(task.task_size_downloaded as nat) + " Ratio: "@
            + task.ratio_text(),
        "Progress            : "@ + progress_bar(
            progress_percent(task.task_size_downloaded as nat, task.task_size as nat),
            20,
        ),
        "Speed DL / UL       : "@ + bytes_text(task.task_speed_download as nat) + " / "@
            + bytes_text(task.task_speed_upload as nat),
        "Peers               : "@ + decimal(task.total_peers as nat),
        "Connected peers     : "@ + decimal(task.connected_peers as nat),
        "Total pieces        : "@ + decimal(task.total_pieces as nat),
        "Downloaded pieces   : "@ + decimal(task.task_downloaded_pieces as nat),
        "Seed elapsed        : "@ + humantime_text(task.task_seedelapsed),
        "Seeders / Leechers  : "@ + decimal(task.connected_seeders as nat) + " / "@
            + decimal(task.connected_leechers as nat),
        "Start time          : "@
            + timestamp_label_text(utc_text(as_signed(task.task_started_time))),
    ]
}

/// The lines of the Transfer tab for a task.
pub fn transfer_tab(task: &ExtendedDownloadTask) -> (lines: Vec<String>)
    ensures
        lines.deep_view() == transfer_tab_text(task@),
        lines@.len() == 12,
{
    let mut lines: Vec<String> = Vec::new();
    lines.push(String::new());
    {
        let mut line = String::new();
        line.append("Status              : ");
        line.append(task.task_status.label());
        assert(line@ =~= transfer_tab_text(task@)[1]);
        lines.push(line);
    }
    {
        let mut line = String::new();
        line.append("Tranferred (UL/DL)  : ");
        line.append(format_bytes(task.task_size_uploaded).as_str());
        line.append(" / ");
        line.append(format_bytes(task.task_size_downloaded).as_str());
        line.append(" Ratio: ");
        line.append(task.ratio_text().as_str());
        assert(line@ =~= transfer_tab_text(task@)[2]);
        lines.push(line);
    }
    {
        let mut line = String::new();
        line.append("Progress            : ");
        let percent = percent_done(task.task_size_downloaded, task.task_size);
        line.append(render_progress_bar(percent, 20).as_str());
        assert(line@ =~= transfer_tab_text(task@)[3]);
        lines.push(line);
    }
    {
        let mut line = String::new();
        line.append("Speed DL / UL       : ");
        line.append(format_bytes(task.task_speed_download).as_str());
        line.append(" / ");
        line.append(format_bytes(task.task_speed_upload).as_str());
        assert(line@ =~= transfer_tab_text(task@)[4]);
        lines.push(line);
    }
    {
        let mut line = String::new();
        line.append("Peers               : ");
        push_decimal(&mut line, task.total_peers as u64);
        assert(line@ =~= transfer_tab_text(task@)[5]);
        lines.push(line);
    }
    {
        let mut line = String::new();
        line.append("Connected peers     : ");
        push_decimal(&mut line, task.connected_peers as u64);
        assert(line@ =~= transfer_tab_text(task@)[6]);
        lines.push(line);
    }
    {
        let mut line = String::new();
        line.append("Total pieces        : ");
        push_decimal(&mut line, task.total_pieces as u64);
        assert(line@ =~= transfer_tab_text(task@)[7]);
        lines.push(line);
    }
    {
        let mut line = String::new();
        line.append("Downloaded pieces   : ");
        push_decimal(&mut line, task.task_downloaded_pieces as u64);
        assert(line@ =~= transfer_tab_text(task@)[8]);
        lines.push(line);
    }
    {
        let mut line = String::new();
        line.append("Seed elapsed        : ");
        line.append(format_seconds(task.task_seedelapsed).as_str());
        assert(line@ =~= transfer_tab_text(task@)[9]);
        lines.push(line);
    }
    {
        let mut line = String::new();
        line.append("Seeders / Leechers  : ");
        push_decimal(&mut line, task.connected_seeders as u64);
        line.append(" / ");
        push_decimal(&mut line, task.connected_leechers as u64);
        assert(line@ =~= transfer_tab_text(task@)[10]);
        lines.push(line);
    }
    {
        let mut line = String::new();
        line.append("Start time          : ");
        line.append(format_timestamp(task.task_started_time).as_str());
        assert(line@ =~= transfer_tab_text(task@)[11]);
        lines.push(line);
    }
    assert(lines.deep_view() =~= transfer_tab_text(task@));
    lines
}

/// The line of one entry of `tracker_tab`.
pub open spec fn tracker_tab_line(item: TrackerEntryModel) -> Seq<char> {
    "URL: "@ + item.url + " | Status: "@ + item.status + " | Next Update: "@
        + humantime_text(item.update_timer) + " | Seeds: "@ + signed_decimal(item.seeds as int)
        + " | Peers: "@ + signed_decimal(item.peers as int)
}

/// The lines of the Tracker tab for a task: an empty line, then one line for each tracker.
pub open spec fn tracker_tab_text(task: ExtendedDownloadTaskModel) -> Seq<Seq<char>> {
    seq![Seq::<char>::empty()]
        + task.trackers.map_values(|item: TrackerEntryModel| tracker_tab_line(item))
}

/// The lines of the Tracker tab for a task: an empty line, then one line for each tracker.
pub fn tracker_tab(task: &ExtendedDownloadTask) -> (lines: Vec<String>)
    ensures
        lines.deep_view() == tracker_tab_text(task@),
        lines@.len() == task@.trackers.len() + 1,
{
    let mut lines: Vec<String> = Vec::new();
    lines.push(String::new());
    let mut i: usize = 0;
    while i < task.trackers.len()
        invariant
            i <= task.trackers@.len(),
            lines@.len() == i + 1,
            lines@[0]@ == Seq::<char>::empty(),
            forall|j: int| 0 <= j < i ==> (
                #[trigger] lines@[j + 1])@ == tracker_tab_line(task.trackers@[j]@,
            ),
        decreases task.trackers@.len() - i,
    {
        let item = &task.trackers[i];
        let mut line = String::new();
        line.append("URL: ");
        line.append(item.url.as_str());
        line.append(" | Status: ");
        line.append(item.status.as_str());
        line.append(" | Next Update: ");
        line.append(format_seconds(item.update_timer).as_str());
        line.append(" | Seeds: ");
        push_signed(&mut line, item.seeds);
        line.append(" | Peers: ");
        push_signed(&mut line, item.peers);
        assert(line@ =~= tracker_tab_line(item@));
        lines.push(line);
        i = i + 1;
    }
    proof {
        let text = tracker_tab_text(task@);
        assert(lines.deep_view().len() == text.len());
        assert forall|k: int| 0 <= k < text.len() implies lines.deep_view()[k] == text[k] by {
            if k > 0 {
                assert(lines@[(k - 1) + 1]@ == tracker_tab_line(task.trackers@[k - 1]@));
            }
        }
    }
    assert(lines.deep_view() =~= tracker_tab_text(task@));
    lines
}

/// The line of one entry of `peers_tab`.
pub open spec fn peers_tab_line(item: PeerEntryModel) -> Seq<char> {
    "IP: "@ + item.address + " | Agent: "@ + item.agent + " | Progress: "@
        + progress_bar((item.progress / 10) as nat, 10) + " | Download Speed: "@
        + bytes_text(item.speed_download as nat) + " | Upload Speed: "@
        + bytes_text(item.speed_upload as nat)
}

/// The lines of the Peers tab for a task: an empty line, then one line for each peer.
pub open spec fn peers_tab_text(task: ExtendedDownloadTaskModel) -> Seq<Seq<char>> {
    seq![Seq::<char>::empty()] + task.peers.map_values(|item: PeerEntryModel| peers_tab_line(item))
}

/// The lines of the Peers tab for a task: an empty line, then one line for each peer.
pub fn peers_tab(task: &ExtendedDownloadTask) -> (lines: Vec<String>)
    ensures
        lines.deep_view() == peers_tab_text(task@),
        lines@.len() == task@.peers.len() + 1,
{
    let mut lines: Vec<String> = Vec::new();
    lines.push(String::new());
    let mut i: usize = 0;
    while i < task.peers.len()
        invariant
            i <= task.peers@.len(),
            lines@.len() == i + 1,
            lines@[0]@ == Seq::<char>::empty(),
            forall|j: int| 0 <= j < i ==> (
                #[trigger] lines@[j + 1])@ == peers_tab_line(task.peers@[j]@,
            ),
        decreases task.peers@.len() - i,
    {
        let item = &task.peers[i];
        let mut line = String::new();
        line.append("IP: ");
        line.append(item.address.as_str());
        line.append(" | Agent: ");
        line.append(item.agent.as_str());
        line.append(" | Progress: ");
        line.append(render_progress_bar(item.progress / 10, 10).as_str());
        line.append(" | Download Speed: ");
        line.append(format_bytes(item.speed_download).as_str());
        line.append(" | Upload Speed: ");
        line.append(format_bytes(item.speed_upload).as_str());
        assert(line@ =~= peers_tab_line(item@));
        lines.push(line);
        i = i + 1;
    }
    proof {
        let text = peers_tab_text(task@);
        assert(lines.deep_view().len() == text.len());
        assert forall|k: int| 0 <= k < text.len() implies lines.deep_view()[k] == text[k] by {
            if k > 0 {
                assert(lines@[(k - 1) + 1]@ == peers_tab_line(task.peers@[k - 1]@));
            }
        }
    }
    assert(lines.deep_view() =~= peers_tab_text(task@));
    lines
}

/// The line of one entry of `files_tab`.
pub open spec fn files_tab_line(item: FileEntryModel) -> Seq<char> {
    item.filename + " | "@ + bytes_text(item.size as nat) + " | Downloaded: "@
        + bytes_text(item.size_downloaded as nat) + " | Priority: "@ + item.priority
}

/// The lines of the File tab for a task: an empty line, then one line for each file.
pub open spec fn files_tab_text(task: ExtendedDownloadTaskModel) -> Seq<Seq<char>> {
    seq![Seq::<char>::empty()] + task.files.map_values(|item: FileEntryModel| files_tab_line(item))
}

/// The lines of the File tab for a task: an empty line, then one line for each file.
pub fn files_tab(task: &ExtendedDownloadTask) -> (lines: Vec<String>)
    ensures
        lines.deep_view() == files_tab_text(task@),
        lines@.len() == task@.files.len() + 1,
{
    let mut lines: Vec<String> = Vec::new();
    lines.push(String::new());
    let mut i: usize = 0;
    while i < task.files.len()
        invariant
            i <= task.files@.len(),
            lines@.len() == i + 1,
            lines@[0]@ == Seq::<char>::empty(),
            forall|j: int| 0 <= j < i ==> (
                #[trigger] lines@[j + 1])@ == files_tab_line(task.files@[j]@,
            ),
        decreases task.files@.len() - i,
    {
        let item = &task.files[i];
        let mut line = String::new();
        line.append(item.filename.as_str());
        line.append(" | ");
        line.append(format_bytes(item.size).as_str());
        line.append(" | Downloaded: ");
        line.append(format_bytes(item.size_downloaded).as_str());
        line.append(" | Priority: ");
        line.append(item.priority.as_str());
        assert(line@ =~= files_tab_line(item@));
        lines.push(line);
        i = i + 1;
    }
    proof {
        let text = files_tab_text(task@);
        assert(lines.deep_view().len() == text.len());
        assert forall|k: int| 0 <= k < text.len() implies lines.deep_view()[k] == text[k] by {
            if k > 0 {
                assert(lines@[(k - 1) + 1]@ == files_tab_line(task.files@[k - 1]@));
            }
        }
    }
    assert(lines.deep_view() =~= files_tab_text(task@));
    lines
}

/// The lines of the help popup.
pub open spec fn help_text() -> Seq<Seq<char>> {
    seq![
        "Shortcuts:"@,
        Seq::<char>::empty(),
        " a: Add a new task by URL from clipboard"@,
        " d: Delete task"@,
        " h: Show previous tab"@,
        " i: Show server info"@,
        " j: Move down / Scroll down in popups"@,
        " k: Move up / Scrull up in popups"@,
        " l: Show next tab"@,
        " q: Quit or close any open popup"@,
        " p: Pause / Resume task"@,
        " r: Manually refresh tasks"@,
        " ↓: Scroll down in the info panel"@,
        " ?: Show this help"@,
    ]
}

/// The lines of the help popup.
pub fn help() -> (lines: Vec<String>)
    ensures
        lines.deep_view() == help_text(),
        lines@.len() == 14,
{
    let mut lines: Vec<String> = Vec::new();
    {
        let mut line = String::new();
        line.append("Shortcuts:");
        assert(line@ =~= help_text()[0]);
        lines.push(line);
    }
    lines.push(String::new());
    {
        let mut line = String::new();
        line.append(" a: Add a new task by URL from clipboard");
        assert(line@ =~= help_text()[2]);
        lines.push(line);
    }
    {
        let mut line = String::new();
        line.append(" d: Delete task");
        assert(line@ =~= help_text()[3]);
        lines.push(line);
    }
    {
        let mut line = String::new();
        line.append(" h: Show previous tab");
        assert(line@ =~= help_text()[4]);
        lines.push(line);
    }
    {
        let mut line = String::new();
        line.append(" i: Show server info");
        assert(line@ =~= help_text()[5]);
        lines.push(line);
    }
    {
        let mut line = String::new();
        line.append(" j: Move down / Scroll down in popups");
        assert(line@ =~= help_text()[6]);
        lines.push(line);
    }
    {
        let mut line = String::new();
        line.append(" k: Move up / Scrull up in popups");
        assert(line@ =~= help_text()[7]);
        lines.push(line);
    }
    {
        let mut line = String::new();
        line.append(" l: Show next tab");
        assert(line@ =~= help_text()[8]);
        lines.push(line);
    }
    {
        let mut line = String::new();
        line.append(" q: Quit or close any open popup");
        assert(line@ =~= help_text()[9]);
        lines.push(line);
    }
    {
        let mut line = String::new();
        line.append(" p: Pause / Resume task");
        assert(line@ =~= help_text()[10]);
        lines.push(line);
    }
    {
        let mut line = String::new();
        line.append(" r: Manually refresh tasks");
        assert(line@ =~= help_text()[11]);
        lines.push(line);
    }
    {
        let mut line = String::new();
        line.append(" ↓: Scroll down in the info panel");
        assert(line@ =~= help_text()[12]);
        lines.push(line);
    }
    {
        let mut line = String::new();
        line.append(" ?: Show this help");
        assert(line@ =~= help_text()[13]);
        lines.push(line);
    }
    assert(lines.deep_view() =~= help_text());
    lines
}

/// The lines of the popup with the settings of the client and of the service.
pub open spec fn server_info_text(
    config_path: Seq<char>,
    config: AppConfigModel,
    limits: ConfigDataModel,
) -> Seq<Seq<char>> {
    seq![
        " Config file path    : "@ + config_path,
        " Server address      : "@ + config.server_url,
        " Server port         : "@ + decimal(config.port as nat),
        " User name           : "@ + config.username,
        " Refresh interval    : "@ + decimal(config.refresh_interval as nat) + " (in seconds)"@,
        Seq::<char>::empty(),
        " BT Max download     : "@ + decimal(limits.bt_max_download as nat) + " KB/s"@,
        " BT Max Upload       : "@ + decimal(limits.bt_max_upload as nat) + " KB/s"@,
        " HTTP Max Download   : "@ + decimal(limits.http_max_download as nat) + " KB/s"@,
        " FTP Max Download    : "@ + decimal(limits.ftp_max_download as nat) + " KB/s"@,
        " NZB Max Download    : "@ + decimal(limits.nzb_max_download as nat) + " KB/s"@,
        " eMule Enabled       : "@ + flag_text(limits.emule_enabled),
        " eMule Max Download  : "@ + decimal(limits.emule_max_download as nat) + " KB/s"@,
        " eMule Max Upload    : "@ + decimal(limits.emule_max_upload as nat) + " KB/s"@,
        " Unzip Service       : "@ + flag_text(limits.unzip_service_enabled),
        " Default Dest.       : "@ + text_or(limits.default_destination, "<none>"@),
        " eMule Default Dest. : "@ + text_or(limits.emule_default_destination, "<none>"@),
    ]
}

/// The lines of the popup with the settings of the client and of the service.
pub fn server_info(config_path: &str, config: &AppConfig, limits: &ConfigData) -> (lines: Vec<
    String,
>)
    ensures
        lines.deep_view() == server_info_text(config_path@, config@, limits@),
        lines@.len() == 17,
{
    let mut lines: Vec<String> = Vec::new();
    {
        let mut line = String::new();
        line.append(" Config file path    : ");
        line.append(config_path);
        assert(line@ =~= server_info_text(config_path@, config@, limits@)[0]);
        lines.push(line);
    }
    {
        let mut line = String::new();
        line.append(" Server address      : ");
        line.append(config.server_url.as_str());
        assert(line@ =~= server_info_text(config_path@, config@, limits@)[1]);
        lines.push(line);
    }
    {
        let mut line = String::new();
        line.append(" Server port         : ");
        line.append(decimal_string(config.port as u64).as_str());
        assert(line@ =~= server_info_text(config_path@, config@, limits@)[2]);
        lines.push(line);
    }
    {
        let mut line = String::new();
        line.append(" User name           : ");
        line.append(config.username.as_str());
        assert(line@ =~= server_info_text(config_path@, config@, limits@)[3]);
        lines.push(line);
    }
    {
        let mut line = String::new();
        line.append(" Refresh interval    : ");
        line.append(decimal_string(config.refresh_interval).as_str());
        line.append(" (in seconds)");
        assert(line@ =~= server_info_text(config_path@, config@, limits@)[4]);
        lines.push(line);
    }
    lines.push(String::new());
    {
        let mut line = String::new();
        line.append(" BT Max download     : ");
        line.append(decimal_string(limits.bt_max_download).as_str());
        line.append(" KB/s");
        assert(line@ =~= server_info_text(config_path@, config@, limits@)[6]);
        lines.push(line);
    }
    {
        let mut line = String::new();
        line.append(" BT Max Upload       : ");
        line.append(decimal_string(limits.bt_max_upload).as_str());
        line.append(" KB/s");
        assert(line@ =~= server_info_text(config_path@, config@, limits@)[7]);
        lines.push(line);
    }
    {
        let mut line = String::new();
        line.append(" HTTP Max Download   : ");
        line.append(decimal_string(limits.http_max_download).as_str());
        line.append(" KB/s");
        assert(line@ =~= server_info_text(config_path@, config@, limits@)[8]);
        lines.push(line);
    }
    {
        let mut line = String::new();
        line.append(" FTP Max Download    : ");
        line.append(decimal_string(limits.ftp_max_download).as_str());
        line.append(" KB/s");
        assert(line@ =~= server_info_text(config_path@, config@, limits@)[9]);
        lines.push(line);
    }
    {
        let mut line = String::new();
        line.append(" NZB Max Download    : ");
        line.append(decimal_string(limits.nzb_max_download).as_str());
        line.append(" KB/s");
        assert(line@ =~= server_info_text(config_path@, config@, limits@)[10]);
        lines.push(line);
    }
    {
        let mut line = String::new();
        line.append(" eMule Enabled       : ");
        line.append(flag(limits.emule_enabled));
        assert(line@ =~= server_info_text(config_path@, config@, limits@)[11]);
        lines.push(line);
    }
    {
        let mut line = String::new();
        line.append(" eMule Max Download  : ");
        line.append(decimal_string(limits.emule_max_download).as_str());
        line.append(" KB/s");
        assert(line@ =~= server_info_text(config_path@, config@, limits@)[12]);
        lines.push(line);
    }
    {
        let mut line = String::new();
        line.append(" eMule Max Upload    : ");
        line.append(decimal_string(limits.emule_max_upload).as_str());
        line.append(" KB/s");
        assert(line@ =~= server_info_text(config_path@, config@, limits@)[13]);
        lines.push(line);
    }
    {
        let mut line = String::new();
        line.append(" Unzip Service       : ");
        line.append(flag(limits.unzip_service_enabled));
        assert(line@ =~= server_info_text(config_path@, config@, limits@)[14]);
        lines.push(line);
    }
    {
        let mut line = String::new();
        line.append(" Default Dest.       : ");
        line.append(text_or_else(&limits.default_destination, "<none>"));
        assert(line@ =~= server_info_text(config_path@, config@, limits@)[15]);
        lines.push(line);
    }
    {
        let mut line = String::new();
        line.append(" eMule Default Dest. : ");
        line.append(text_or_else(&limits.emule_default_destination, "<none>"));
        assert(line@ =~= server_info_text(config_path@, config@, limits@)[16]);
        lines.push(line);
    }
    assert(lines.deep_view() =~= server_info_text(config_path@, config@, limits@));
    lines
}
/// The lines of the detail panel for a task: those of the given tab, or a
/// single empty line where there is no such tab.
pub open spec fn tab_text(tab: usize, task: ExtendedDownloadTaskModel) -> Seq<Seq<char>> {
    if tab == 0 {
        general_tab_text(task)
    } else if tab == 1 {
        transfer_tab_text(task)
    } else if tab == 2 {
        tracker_tab_text(task)
    } else if tab == 3 {
        peers_tab_text(task)
    } else if tab == 4 {
        files_tab_text(task)
    } else {
        seq![Seq::<char>::empty()]
    }
}

/// The lines of the detail panel for a task on the given tab.
pub fn tab_lines(tab: usize, task: &ExtendedDownloadTask) -> (lines: Vec<String>)
    ensures
        lines.deep_view() == tab_text(tab, task@),
{
    if tab == 0 {
        general_tab(task)
    } else if tab == 1 {
        transfer_tab(task)
    } else if tab == 2 {
        tracker_tab(task)
    } else if tab == 3 {
        peers_tab(task)
    } else if tab == 4 {
        files_tab(task)
    } else {
        let mut lines: Vec<String> = Vec::new();
        lines.push(String::new());
        assert(lines.deep_view() =~= seq![Seq::<char>::empty()]);
        lines
    }
}

} // verus!
