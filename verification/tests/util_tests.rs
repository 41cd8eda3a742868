use dstui::util::{format_bytes, render_progress_bar, validate_url};

#[test]
fn test_format_bytes() {
    assert_eq!(format_bytes(0), "0 B");
    assert_eq!(format_bytes(1024), "1.00 KB");
    assert_eq!(format_bytes(1048576), "1.00 MB");
}

#[test]
fn test_render_progress_bar() {
    assert_eq!(render_progress_bar(50, 10), "[███ 50%   ]");
    assert_eq!(render_progress_bar(100, 10), "[███100%███]");
}

fn float_format_bytes(bytes: u64) -> String {
    let units = ["B", "KB", "MB", "GB", "TB"];
    let mut size = bytes as f64;
    let mut unit = 0;
    while size >= 1024.0 && unit < units.len() - 1 {
        size /= 1024.0;
        unit += 1;
    }
    if size == 0.0 {
        return "0 B".to_string();
    }
    format!("{:.2} {}", size, units[unit])
}

#[test]
fn format_bytes_agrees_with_floating_point_on_small_counts() {
    let mut b: u64 = 0;
    while b < 300_000 {
        assert_eq!(format_bytes(b), float_format_bytes(b), "at {}", b);
        b += 1;
    }
}

#[test]
fn format_bytes_agrees_with_floating_point_on_ties() {
    for b in [1152u64, 1029, 1034, 1280, 1024 + 128, 3 * 1024 + 128, 1024 * 1024 + 128 * 1024] {
        assert_eq!(format_bytes(b), float_format_bytes(b), "at {}", b);
    }
}

#[test]
fn format_bytes_agrees_with_floating_point_on_large_counts() {
    let mut b: u64 = 1;
    let mut k = 0;
    while k < 5000 {
        b = b.wrapping_mul(6364136223846793005).wrapping_add(1442695040888963407);
        let v = b >> (k % 64);
        assert_eq!(format_bytes(v), float_format_bytes(v), "at {}", v);
        k += 1;
    }
    for v in [
        u64::MAX,
        u64::MAX - 1,
        1 << 53,
        (1 << 53) + 1,
        (1 << 40) - 1,
        1 << 40,
        (1 << 50) + 5,
        (1u64 << 37) * 65539 - 1,
        (1u64 << 37) * 65539 + 1,
        (1u64 << 37) * 65537 - 1,
        (1u64 << 37) * 65537 + 1,
    ] {
        assert_eq!(format_bytes(v), float_format_bytes(v), "at {}", v);
    }
}

#[test]
fn format_bytes_exact_values() {
    assert_eq!(format_bytes(1), "1.00 B");
    assert_eq!(format_bytes(1023), "1023.00 B");
    assert_eq!(format_bytes(1536), "1.50 KB");
    assert_eq!(format_bytes(1073741824), "1.00 GB");
    assert_eq!(format_bytes(1099511627776), "1.00 TB");
    assert_eq!(format_bytes(u64::MAX), "16777216.00 TB");
}

#[test]
fn format_bytes_unit_never_shrinks() {
    let units = ["B", "KB", "MB", "GB", "TB"];
    let mut last = 0;
    let mut b: u64 = 1;
    while b < (1 << 50) {
        let text = format_bytes(b);
        let unit = text.split(' ').nth(1).unwrap().to_string();
        let index = units.iter().position(|u| *u == unit).unwrap();
        assert!(index >= last);
        last = index;
        b = b * 3 + 1;
    }
}

fn plain_bar(percentage: u64, width: usize) -> String {
    let percent_text = format!("{percentage:>3}%");
    let text_len = percent_text.len();
    let filled = (percentage as usize * width / 100).min(width);
    let mut bar = String::new();
    for i in 0..width {
        let start = (width.saturating_sub(text_len)) / 2;
        let end = start + text_len;
        if i >= start && i < end {
            bar.push(percent_text.chars().nth(i - start).unwrap());
        } else {
            bar.push(if i < filled { '█' } else { ' ' });
        }
    }
    format!("[{bar}]")
}

#[test]
fn progress_bar_has_fixed_width_and_holds_the_text() {
    for p in 0..=100u64 {
        for w in 0..40usize {
            let bar = render_progress_bar(p, w);
            assert_eq!(bar.chars().count(), w + 2);
            assert_eq!(bar, plain_bar(p, w));
            if w >= 4 {
                assert!(bar.contains(&format!("{p:>3}%")));
            }
        }
    }
}

#[test]
fn progress_bar_edge_cases() {
    assert_eq!(render_progress_bar(0, 0), "[]");
    assert_eq!(render_progress_bar(7, 2), "[  ]");
    assert_eq!(render_progress_bar(0, 10), "[     0%   ]");
    assert_eq!(render_progress_bar(1000, 6), "[1000%█]");
    assert_eq!(render_progress_bar(250, 8), "[██250%██]");
}

#[test]
fn validate_url_accepts_known_schemes() {
    for url in [
        "http://a", "https://a", "ftp://a", "ftps://a", "sftp://a", "magnet:?xt=urn", "thunder://a",
        "flashget://a", "qqdl://a",
    ] {
        assert_eq!(validate_url(url), Ok(()));
    }
}

#[test]
fn validate_url_rejects_the_rest() {
    assert_eq!(validate_url(""), Err("Invalid URL: ".to_string()));
    assert_eq!(validate_url("hello"), Err("Invalid URL: hello".to_string()));
    assert_eq!(validate_url("http:/x"), Err("Invalid URL: http:/x".to_string()));
    assert_eq!(validate_url(" http://x"), Err("Invalid URL:  http://x".to_string()));
    assert_eq!(validate_url("HTTP://x"), Err("Invalid URL: HTTP://x".to_string()));
    assert_eq!(validate_url("ümlaut"), Err("Invalid URL: ümlaut".to_string()));
}

#[test]
fn test_format_seconds() {
    assert_eq!(dstui::util::format_seconds(50), "50s");
    assert_eq!(dstui::util::format_seconds(121), "2m 1s");
    assert_eq!(dstui::util::format_seconds(25674), "7h 7m 54s");
    assert_eq!(dstui::util::format_seconds(9879654), "3months 23days 40m 6s");
}

#[test]
fn test_format_timestamp() {
    assert_eq!(dstui::util::format_timestamp(1271651654), "2010-04-19 04:34:14");
    assert_eq!(dstui::util::format_timestamp(989791271651654), "N/A");
}

#[test]
fn format_timestamp_shows_a_dash_for_zero() {
    assert_eq!(dstui::util::format_timestamp(0), "-");
    assert_eq!(dstui::util::format_timestamp(1), "1970-01-01 00:00:01");
}

#[test]
fn format_timestamp_reads_large_counts_as_signed() {
    assert_eq!(dstui::util::format_timestamp(u64::MAX), "1969-12-31 23:59:59");
    assert_eq!(dstui::util::format_timestamp(1 << 63), "N/A");
}

#[test]
fn timestamp_label_cases() {
    assert_eq!(dstui::util::timestamp_label(None), "N/A");
    assert_eq!(dstui::util::timestamp_label(Some("1970-01-01 00:00:00".to_string())), "-");
    assert_eq!(
        dstui::util::timestamp_label(Some("2010-04-19 04:34:14".to_string())),
        "2010-04-19 04:34:14"
    );
}

#[test]
fn format_seconds_of_zero() {
    assert_eq!(dstui::util::format_seconds(0), "0s");
}

#[test]
fn elapsed_time_uses_finish_or_now() {
    assert_eq!(dstui::util::elapsed_time_at(100, 221, 5000), "2m 1s");
    assert_eq!(dstui::util::elapsed_time_at(100, 0, 150), "50s");
    assert_eq!(dstui::util::elapsed_time_at(100, 50, 150), "0s");
    assert_eq!(dstui::util::elapsed_time_at(200, 0, 150), "0s");
    assert_eq!(dstui::util::elapsed_time_at(u64::MAX, 0, 1_700_000_000), "0s");
    assert_eq!(dstui::util::elapsed_time_at(0, 0, 0), "0s");
}
