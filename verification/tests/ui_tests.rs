use dstui::api::{
    AdditionalInfo, ConfigData, DownloadTask, ExtendedDownloadTask, FileInfo, PeerInfo,
    TaskStatus, TrackerInfo, TransferInfo,
};
use dstui::config::AppConfig;
use dstui::ui::lines::{
    files_tab, general_tab, help, peers_tab, server_info, tab_lines, tracker_tab,
    transfer_tab,
};
use dstui::ui::{centered_rect, clamp_scroll, popup_viewport, scroll_range, visible_window, Rect};

fn rect(x: u16, y: u16, width: u16, height: u16) -> Rect {
    Rect { x, y, width, height }
}

#[test]
fn popup_rectangles() {
    assert_eq!(centered_rect(60, 40, rect(0, 0, 100, 50)), rect(20, 15, 60, 20));
    assert_eq!(centered_rect(50, 40, rect(10, 5, 80, 24)), rect(30, 12, 40, 9));
    assert_eq!(centered_rect(60, 40, rect(0, 0, 4, 4)), rect(0, 0, 3, 3));
    assert_eq!(centered_rect(60, 40, rect(0, 0, 2, 1)), rect(0, 0, 2, 1));
    assert_eq!(centered_rect(60, 40, rect(0, 0, 0, 0)), rect(0, 0, 0, 0));
    assert_eq!(centered_rect(100, 100, rect(3, 4, 10, 10)), rect(3, 4, 10, 10));
    assert_eq!(centered_rect(200, 200, rect(3, 4, 10, 10)), rect(3, 4, 10, 10));
    assert_eq!(centered_rect(0, 0, rect(0, 0, 11, 11)), rect(4, 4, 3, 3));
}

#[test]
fn popup_rectangles_of_a_huge_area() {
    let area = rect(0, 0, 60000, 2000);
    assert!(area.is_valid());
    assert_eq!(centered_rect(60, 40, area), rect(29672, 672, 655, 655));
    assert!(!rect(60000, 0, 60000, 1).is_valid());
    assert!(!rect(0, 1, 0, u16::MAX).is_valid());
    assert!(rect(0, 0, u16::MAX, u16::MAX).is_valid());
}

#[test]
fn scroll_offsets_are_clamped() {
    assert_eq!(clamp_scroll(0, 14, 10), 0);
    assert_eq!(clamp_scroll(3, 14, 10), 3);
    assert_eq!(clamp_scroll(4, 14, 10), 4);
    assert_eq!(clamp_scroll(5, 14, 10), 4);
    assert_eq!(clamp_scroll(usize::MAX, 14, 10), 4);
    assert_eq!(clamp_scroll(7, 10, 10), 0);
    assert_eq!(clamp_scroll(7, 3, 10), 0);
    assert_eq!(clamp_scroll(7, 0, 0), 0);
    assert_eq!(clamp_scroll(7, 5, 0), 5);
    for n in 0..20 {
        for v in 0..20 {
            for s in [0usize, 1, 5, 19, 20, 1000, usize::MAX] {
                let offset = clamp_scroll(s, n, v);
                assert!(offset <= n.saturating_sub(v));
                assert!(offset <= s);
                assert_eq!(offset, s.min(n.saturating_sub(v)));
            }
        }
    }
    assert_eq!(scroll_range(14, 10), 4);
    assert_eq!(scroll_range(10, 10), 1);
    assert_eq!(scroll_range(0, 10), 1);
    assert_eq!(popup_viewport(rect(0, 0, 10, 12)), 10);
    assert_eq!(popup_viewport(rect(0, 0, 10, 2)), 0);
    assert_eq!(popup_viewport(rect(0, 0, 10, 1)), 0);
}

#[test]
fn the_window_keeps_the_selected_row_on_screen() {
    let w = visible_window(0, 5, 20);
    assert_eq!((w.start, w.end), (0, 5));
    let w = visible_window(4, 5, 20);
    assert_eq!((w.start, w.end), (0, 5));
    let w = visible_window(5, 5, 20);
    assert_eq!((w.start, w.end), (1, 6));
    let w = visible_window(19, 5, 20);
    assert_eq!((w.start, w.end), (15, 20));
    let w = visible_window(2, 5, 3);
    assert_eq!((w.start, w.end), (0, 3));
    let w = visible_window(2, 0, 3);
    assert_eq!((w.start, w.end), (3, 3));
    for total in 1..15usize {
        for height in 1..15usize {
            for selected in 0..total {
                let w = visible_window(selected, height, total);
                assert!(w.start <= selected && selected < w.end && w.end <= total);
                assert!(w.end - w.start <= height);
            }
        }
    }
}

fn sample() -> ExtendedDownloadTask {
    let task = DownloadTask {
        id: "dbid_1".to_string(),
        size: 2048,
        status: TaskStatus::Code(8),
        title: "Some title".to_string(),
        task_type: "bt".to_string(),
        username: "admin".to_string(),
        additional: Some(AdditionalInfo {
            detail: Some(dstui::api::DetailInfo {
                connected_leechers: Some(1),
                connected_seeders: Some(2),
                connected_peers: Some(3),
                create_time: Some(1271651654),
                started_time: Some(0),
                completed_time: Some(1271651655),
                seedelapsed: Some(121),
                destination: Some("downloads".to_string()),
                priority: None,
                total_peers: Some(8),
                total_pieces: Some(9),
                unzip_password: None,
                waiting_seconds: Some(50),
                uri: Some("magnet:x".to_string()),
            }),
            transfer: Some(TransferInfo {
                size_downloaded: Some(1024),
                size_uploaded: Some(512),
                downloaded_pieces: Some(4),
                speed_download: Some(10),
                speed_upload: Some(20),
            }),
            file: Some(vec![FileInfo {
                filename: Some("a.iso".to_string()),
                priority: Some("normal".to_string()),
                size: Some(2048),
                size_downloaded: Some(1024),
            }]),
            peer: Some(vec![PeerInfo {
                address: Some("1.2.3.4".to_string()),
                agent: Some("agent".to_string()),
                progress: Some(505),
                speed_download: Some(1),
                speed_upload: Some(2),
            }]),
            tracker: Some(vec![
                TrackerInfo {
                    url: Some("udp://t".to_string()),
                    status: Some("ok".to_string()),
                    update_timer: Some(121),
                    seeds: Some(5),
                    peers: Some(-1),
                },
                TrackerInfo { url: None, status: None, update_timer: None, seeds: None, peers: Some(i64::MIN) },
            ]),
        }),
    };
    ExtendedDownloadTask::from(task)
}

#[test]
fn general_tab_lines() {
    assert_eq!(
        general_tab(&sample()),
        vec![
            "",
            "ID                  : dbid_1",
            "Title               : Some title",
            "Destination         : downloads",
            "Size                : 2.00 KB",
            "User name           : admin",
            "URL / File Name     : magnet:x",
            "Created time        : 2010-04-19 04:34:14",
            "Completed time      : 2010-04-19 04:34:15",
            "Estimated wait time : 50s",
        ]
    );
}

#[test]
fn transfer_tab_lines() {
    assert_eq!(
        transfer_tab(&sample()),
        vec![
            "",
            "Status              : seeding",
            "Tranferred (UL/DL)  : 512.00 B / 1.00 KB Ratio: 0.50",
            "Progress            : [████████ 50%        ]",
            "Speed DL / UL       : 10.00 B / 20.00 B",
            "Peers               : 8",
            "Connected peers     : 3",
            "Total pieces        : 9",
            "Downloaded pieces   : 4",
            "Seed elapsed        : 2m 1s",
            "Seeders / Leechers  : 2 / 1",
            "Start time          : -",
        ]
    );
}

#[test]
fn list_tab_lines() {
    assert_eq!(
        tracker_tab(&sample()),
        vec![
            "",
            "URL: udp://t | Status: ok | Next Update: 2m 1s | Seeds: 5 | Peers: -1",
            "URL:  | Status:  | Next Update: 0s | Seeds: 0 | Peers: -9223372036854775808",
        ]
    );
    assert_eq!(
        peers_tab(&sample()),
        vec![
            "",
            "IP: 1.2.3.4 | Agent: agent | Progress: [███ 50%   ] | Download Speed: 1.00 B | Upload Speed: 2.00 B",
        ]
    );
    assert_eq!(
        files_tab(&sample()),
        vec!["", "a.iso | 2.00 KB | Downloaded: 1.00 KB | Priority: normal"]
    );
}

#[test]
fn tab_lines_by_index() {
    let task = sample();
    assert_eq!(tab_lines(0, &task), general_tab(&task));
    assert_eq!(tab_lines(1, &task), transfer_tab(&task));
    assert_eq!(tab_lines(2, &task), tracker_tab(&task));
    assert_eq!(tab_lines(3, &task), peers_tab(&task));
    assert_eq!(tab_lines(4, &task), files_tab(&task));
    assert_eq!(tab_lines(5, &task), vec![""]);
    assert_eq!(tab_lines(usize::MAX, &task), vec![""]);
}

#[test]
fn the_transfer_tab_rounds_the_progress_to_the_nearest_percent() {
    let mut task = sample();
    task.task_size = 3;
    task.task_size_downloaded = 2;
    assert_eq!(transfer_tab(&task)[3], "Progress            : [████████ 67%█       ]");
    task.task_size = 0;
    task.task_size_downloaded = 5;
    assert_eq!(transfer_tab(&task)[3], "Progress            : [          0%        ]");
    task.task_size = 200;
    task.task_size_downloaded = 1;
    assert_eq!(transfer_tab(&task)[3], "Progress            : [          1%        ]");
}

#[test]
fn help_lines_are_fixed() {
    let lines = help();
    assert_eq!(lines.len(), 14);
    assert_eq!(lines[0], "Shortcuts:");
    assert_eq!(lines[1], "");
    assert_eq!(lines[2], " a: Add a new task by URL from clipboard");
    assert_eq!(lines[12], " ↓: Scroll down in the info panel");
    assert_eq!(lines[13], " ?: Show this help");
}

#[test]
fn server_info_lines() {
    let config = AppConfig {
        server_url: "http://localhost".to_string(),
        port: 5000,
        username: "user".to_string(),
        password: "pass".to_string(),
        refresh_interval: 30,
    };
    let limits = ConfigData {
        bt_max_download: 1,
        bt_max_upload: 2,
        default_destination: Some("downloads".to_string()),
        emule_default_destination: None,
        emule_enabled: false,
        emule_max_download: 3,
        emule_max_upload: 4,
        ftp_max_download: 5,
        http_max_download: 6,
        nzb_max_download: 7,
        unzip_service_enabled: true,
    };
    assert_eq!(
        server_info("/home/u/.config/dstui/config.toml", &config, &limits),
        vec![
            " Config file path    : /home/u/.config/dstui/config.toml",
            " Server address      : http://localhost",
            " Server port         : 5000",
            " User name           : user",
            " Refresh interval    : 30 (in seconds)",
            "",
            " BT Max download     : 1 KB/s",
            " BT Max Upload       : 2 KB/s",
            " HTTP Max Download   : 6 KB/s",
            " FTP Max Download    : 5 KB/s",
            " NZB Max Download    : 7 KB/s",
            " eMule Enabled       : false",
            " eMule Max Download  : 3 KB/s",
            " eMule Max Upload    : 4 KB/s",
            " Unzip Service       : true",
            " Default Dest.       : downloads",
            " eMule Default Dest. : <none>",
        ]
    );
    assert_eq!(config.endpoint(), "http://localhost:5000");
}
