//! Display strings for byte counts, progress and download links.

use crate::text::{
    decimal, digit, digit_char, has_prefix, lemma_decimal_len, lemma_decimal_max_len, pad_left,
    push_decimal, push_decimal_chars, repeat, same_text, starts_with,
};
use vstd::prelude::*;

pub use crate::files::{get_files, FileAttributes};

verus! {

/// Index of the unit a byte count is shown in: 0 for B, up to 4 for TB.
pub open spec fn unit_index(bytes: nat) -> nat {
    if bytes < 1024 {
        0
    } else if bytes < 1024 * 1024 {
        1
    } else if bytes < 1024 * 1024 * 1024 {
        2
    } else if bytes < 1024 * 1024 * 1024 * 1024 {
        3
    } else {
        4
    }
}

/// Number of bytes in one unit of the given index.
pub open spec fn unit_size(unit: nat) -> nat {
    if unit == 0 {
        1
    } else if unit == 1 {
        1024
    } else if unit == 2 {
        1024 * 1024
    } else if unit == 3 {
        1024 * 1024 * 1024
    } else {
        1024 * 1024 * 1024 * 1024
    }
}

/// Name of the unit of the given index.
pub open spec fn unit_name(unit: nat) -> Seq<char> {
    if unit == 0 {
        "B"@
    } else if unit == 1 {
        "KB"@
    } else if unit == 2 {
        "MB"@
    } else if unit == 3 {
        "GB"@
    } else {
        "TB"@
    }
}

/// `num / den` rounded to the nearest integer, a tie going to the even one.
pub open spec fn round_half_even(num: nat, den: nat) -> nat
    recommends
        den > 0,
{
    let q = num / den;
    let r = num % den;
    if 2 * r < den {
        q
    } else if 2 * r > den {
        q + 1
    } else if q % 2 == 0 {
        q
    } else {
        q + 1
    }
}

/// A count of hundredths written with two decimals: `1234` is `12.34`.
pub open spec fn fixed2(hundredths: nat) -> Seq<char> {
    decimal(hundredths / 100) + seq![
        '.',
        digit_char((hundredths % 100 / 10) as int),
        digit_char((hundredths % 10) as int),
    ]
}

/// The gap between neighbouring numbers of 53 significant bits around `n`.
pub open spec fn double_step(n: nat) -> nat {
    if n < 0x20_0000_0000_0000 {
        1
    } else if n < 0x40_0000_0000_0000 {
        2
    } else if n < 0x80_0000_0000_0000 {
        4
    } else if n < 0x100_0000_0000_0000 {
        8
    } else if n < 0x200_0000_0000_0000 {
        16
    } else if n < 0x400_0000_0000_0000 {
        32
    } else if n < 0x800_0000_0000_0000 {
        64
    } else if n < 0x1000_0000_0000_0000 {
        128
    } else if n < 0x2000_0000_0000_0000 {
        256
    } else if n < 0x4000_0000_0000_0000 {
        512
    } else if n < 0x8000_0000_0000_0000 {
        1024
    } else {
        2048
    }
}

/// `n` as a number of 53 significant bits holds it: itself below 2^53, and
/// above it the nearest such number, a tie going to the even one.
pub open spec fn nearest_double(n: nat) -> nat {
    round_half_even(n, double_step(n)) * double_step(n)
}

/// What `format_bytes` returns: the count in its unit with two decimals,
/// rounded to the nearest, a tie going to the even digit. The count is
/// taken as a number of 53 significant bits holds it.
pub open spec fn bytes_text(bytes: nat) -> Seq<char> {
    if bytes == 0 {
        "0 B"@
    } else {
        let unit = unit_index(bytes);
        fixed2(round_half_even(nearest_double(bytes) * 100, unit_size(unit))) + seq![' ']
            + unit_name(unit)
    }
}

/// A larger byte count is never shown in a smaller unit.
pub proof fn lemma_unit_monotonic(a: nat, b: nat)
    requires
        a <= b,
    ensures
        unit_index(a) <= unit_index(b),
        unit_index(0) == 0,
{
}

/// `num / den` rounded to the nearest integer, a tie going to the even one.
pub fn rounded_quotient(num: u128, den: u128) -> (q: u128)
    requires
        den > 0,
        num / den < u128::MAX,
        den <= u128::MAX / 2,
    ensures
        q == round_half_even(num as nat, den as nat),
{
    let q = num / den;
    let r = num % den;
    if 2 * r < den {
        q
    } else if 2 * r > den {
        q + 1
    } else if q % 2 == 0 {
        q
    } else {
        q + 1
    }
}

/// `n` as a number of 53 significant bits holds it.
pub fn to_nearest_double(n: u64) -> (held: u128)
    ensures
        held == nearest_double(n as nat),
        n < 0x20_0000_0000_0000 ==> held == n,
        held <= 0x1_0000_0000_0000_0000,
        n >= 0x100_0000_0000 ==> held >= 0x100_0000_0000,
{
    let step: u128 = if n < 0x20_0000_0000_0000 {
        1
    } else if n < 0x40_0000_0000_0000 {
        2
    } else if n < 0x80_0000_0000_0000 {
        4
    } else if n < 0x100_0000_0000_0000 {
        8
    } else if n < 0x200_0000_0000_0000 {
        16
    } else if n < 0x400_0000_0000_0000 {
        32
    } else if n < 0x800_0000_0000_0000 {
        64
    } else if n < 0x1000_0000_0000_0000 {
        128
    } else if n < 0x2000_0000_0000_0000 {
        256
    } else if n < 0x4000_0000_0000_0000 {
        512
    } else if n < 0x8000_0000_0000_0000 {
        1024
    } else {
        2048
    };
    let q = rounded_quotient(n as u128, step);
    assert(q <= n as u128 / step + 1);
    q * step
}

/// Appends a count of hundredths with two decimals to `out`.
pub fn push_fixed2(out: &mut String, hundredths: u128)
    requires
        hundredths / 100 <= u64::MAX,
    ensures
        final(out)@ == old(out)@ + fixed2(hundredths as nat),
{
    push_decimal(out, (hundredths / 100) as u64);
    out.push('.');
    out.push(digit((hundredths % 100 / 10) as u8));
    out.push(digit((hundredths % 10) as u8));
    assert(out@ =~= old(out)@ + fixed2(hundredths as nat));
}

/// A byte count in the largest unit up to TB that keeps it at 1 or more,
/// with two decimals; `0 B` for zero.
pub fn format_bytes(bytes: u64) -> (text: String)
    ensures
        text@ == bytes_text(bytes as nat),
{
    if bytes == 0 {
        return String::from_str("0 B");
    }
    let mut size: u64 = 1;
    let mut name: &str = "B";
    if bytes >= 1024 * 1024 * 1024 * 1024 {
        size = 1024 * 1024 * 1024 * 1024;
        name = "TB";
    } else if bytes >= 1024 * 1024 * 1024 {
        size = 1024 * 1024 * 1024;
        name = "GB";
    } else if bytes >= 1024 * 1024 {
        size = 1024 * 1024;
        name = "MB";
    } else if bytes >= 1024 {
        size = 1024;
        name = "KB";
    }
    assert(size == unit_size(unit_index(bytes as nat)));
    assert(name@ == unit_name(unit_index(bytes as nat)));
    let held = to_nearest_double(bytes);
    let num: u128 = held * 100;
    assert(num / (size as u128) < 0x1_0000_0000) by {
        if size == 1 {
            assert(bytes < 1024);
            assert(num / 1u128 < 0x1_0000_0000);
        } else if size == 1024 {
            assert(bytes < 1024 * 1024);
            assert(num / 1024u128 < 0x1_0000_0000);
        } else if size == 1024 * 1024 {
            assert(bytes < 1024 * 1024 * 1024);
            assert(num / 0x10_0000u128 < 0x1_0000_0000);
        } else if size == 1024 * 1024 * 1024 {
            assert(bytes < 1024 * 1024 * 1024 * 1024);
            assert(num / 0x4000_0000u128 < 0x1_0000_0000);
        } else {
            assert(size == 0x100_0000_0000u64);
            assert(num / 0x100_0000_0000u128 < 0x1_0000_0000);
        }
    }
    let hundredths = rounded_quotient(num, size as u128);
    let mut text = String::new();
    push_fixed2(&mut text, hundredths);
    text.push(' ');
    text.append(name);
    assert(text@ =~= bytes_text(bytes as nat));
    text
}

/// The percentage as it is written inside the bar: right-aligned in three
/// columns, then a percent sign.
pub open spec fn percent_text(percentage: nat) -> Seq<char> {
    pad_left(decimal(percentage), 3).push('%')
}

/// How many cells of a bar of `width` cells are filled at `percentage`.
pub open spec fn filled_cells(percentage: nat, width: nat) -> nat {
    let filled = percentage * width / 100;
    if filled < width {
        filled
    } else {
        width
    }
}

/// The cell at which the percentage text begins: it is centred, and starts
/// at the left edge where the bar is narrower than the text.
pub open spec fn text_start(percentage: nat, width: nat) -> nat {
    let len = percent_text(percentage).len();
    if width >= len {
        ((width - len) / 2) as nat
    } else {
        0
    }
}

/// The character in cell `i` of the bar.
pub open spec fn bar_cell(percentage: nat, width: nat, i: int) -> char {
    let text = percent_text(percentage);
    let start = text_start(percentage, width) as int;
    if start <= i < start + text.len() {
        text[i - start]
    } else if i < filled_cells(percentage, width) {
        '█'
    } else {
        ' '
    }
}

/// What `render_progress_bar` returns.
pub open spec fn progress_bar(percentage: nat, width: nat) -> Seq<char> {
    seq!['['] + Seq::new(width, |i: int| bar_cell(percentage, width, i)) + seq![']']
}

/// The bar has a fixed width, and where the percentage text fits it stands
/// in the bar whole.
pub proof fn lemma_bar_holds_text(percentage: nat, width: nat)
    ensures
        progress_bar(percentage, width).len() == width + 2,
        progress_bar(percentage, width)[0] == '[',
        progress_bar(percentage, width)[width as int + 1] == ']',
        width >= percent_text(percentage).len() ==> progress_bar(percentage, width).subrange(
            1 + text_start(percentage, width) as int,
            1 + text_start(percentage, width) as int + percent_text(percentage).len() as int,
        ) == percent_text(percentage),
{
    let bar = progress_bar(percentage, width);
    let text = percent_text(percentage);
    let start = text_start(percentage, width) as int;
    if width >= text.len() {
        assert(bar.subrange(1 + start, 1 + start + text.len()) =~= text);
    }
}

/// The characters of `percent_text`.
pub fn percent_chars(percentage: u64) -> (text: Vec<char>)
    ensures
        text@ == percent_text(percentage as nat),
        4 <= text@.len() <= 21,
{
    let mut digits: Vec<char> = Vec::new();
    push_decimal_chars(&mut digits, percentage);
    assert(digits@ =~= decimal(percentage as nat));
    proof {
        lemma_decimal_len(percentage as nat);
        lemma_decimal_max_len(percentage as nat);
    }
    let mut text: Vec<char> = Vec::new();
    let mut k: usize = digits.len();
    while k < 3
        invariant
            digits@.len() <= k,
            k <= 3 || k == digits@.len(),
            text@ == repeat(' ', (k - digits@.len()) as nat),
        decreases 3 - k,
    {
        text.push(' ');
        k = k + 1;
        assert(text@ =~= repeat(' ', (k - digits@.len()) as nat));
    }
    let ghost padding = text@;
    let mut i: usize = 0;
    while i < digits.len()
        invariant
            i <= digits@.len(),
            text@ == padding + digits@.subrange(0, i as int),
        decreases digits@.len() - i,
    {
        text.push(digits[i]);
        i = i + 1;
        assert(text@ =~= padding + digits@.subrange(0, i as int));
    }
    assert(digits@.subrange(0, digits@.len() as int) =~= digits@);
    text.push('%');
    assert(text@ =~= percent_text(percentage as nat));
    text
}

/// A bar of `width` cells between brackets, filled from the left in
/// proportion to `percentage`, with the percentage written over its middle.
pub fn render_progress_bar(percentage: u64, width: usize) -> (bar: String)
    ensures
        bar@ == progress_bar(percentage as nat, width as nat),
        bar@.len() == width + 2,
{
    let text = percent_chars(percentage);
    let len = text.len();
    assert(percentage as int * width as int <= 0xFFFF_FFFF_FFFF_FFFF * 0xFFFF_FFFF_FFFF_FFFF)
        by (nonlinear_arith)
        requires
            percentage <= 0xFFFF_FFFF_FFFF_FFFF,
            width <= 0xFFFF_FFFF_FFFF_FFFF,
    ;
    let product: u128 = percentage as u128 * width as u128;
    let scaled: u128 = product / 100;
    let filled: usize = if scaled < width as u128 {
        scaled as usize
    } else {
        width
    };
    let start: usize = if width >= len {
        (width - len) / 2
    } else {
        0
    };
    let mut bar = String::new();
    bar.push('[');
    let mut i: usize = 0;
    while i < width
        invariant
            i <= width,
            text@ == percent_text(percentage as nat),
            len == text@.len(),
            len <= 21,
            start == text_start(percentage as nat, width as nat),
            filled == filled_cells(percentage as nat, width as nat),
            start + len <= usize::MAX,
            bar@ == seq!['['] + Seq::new(
                i as nat, |j: int| bar_cell(percentage as nat, width as nat, j),
            ),
        decreases width - i,
    {
        if i >= start && i < start + len {
            bar.push(text[i - start]);
        } else if i < filled {
            bar.push('█');
        } else {
            bar.push(' ');
        }
        i = i + 1;
        assert(bar@ =~= seq!['['] + Seq::new(
            i as nat,
            |j: int| bar_cell(percentage as nat, width as nat, j),
        ));
    }
    bar.push(']');
    assert(bar@ =~= progress_bar(percentage as nat, width as nat));
    bar
}

/// Whether a link begins with one of the schemes the service can download from.
pub open spec fn is_download_url(url: Seq<char>) -> bool {
    ||| has_prefix(url, "http://"@)
    ||| has_prefix(url, "https://"@)
    ||| has_prefix(url, "ftp://"@)
    ||| has_prefix(url, "ftps://"@)
    ||| has_prefix(url, "sftp://"@)
    ||| has_prefix(url, "magnet:"@)
    ||| has_prefix(url, "thunder://"@)
    ||| has_prefix(url, "flashget://"@)
    ||| has_prefix(url, "qqdl://"@)
}

/// The message for a link that is turned down.
pub open spec fn invalid_url_text(url: Seq<char>) -> Seq<char> {
    "Invalid URL: "@ + url
}

/// Accepts a link that begins with a known scheme, and says why not otherwise.
pub fn validate_url(url: &str) -> (r: Result<(), String>)
    ensures
        r is Ok <==> is_download_url(url@),
        r is Err ==> r->Err_0@ == invalid_url_text(url@),
{
    if starts_with(url, "http://") || starts_with(url, "https://") || starts_with(url, "ftp://")
        || starts_with(url, "ftps://") || starts_with(url, "sftp://") || starts_with(
        url,
        "magnet:",
    ) || starts_with(url, "thunder://") || starts_with(url, "flashget://") || starts_with(
        url,
        "qqdl://",
    ) {
        Ok(())
    } else {
        let mut message = String::from_str("Invalid URL: ");
        message.append(url);
        Err(message)
    }
}

/// What `chrono` writes for the moment `secs` seconds after the start of
/// 1970 in UTC, as year-month-day and hour:minute:second; none where
/// `chrono` has no date for it.
pub uninterp spec fn utc_text(secs: i64) -> Option<Seq<char>>;

/// What `humantime` writes for a duration of `secs` whole seconds.
pub uninterp spec fn humantime_text(secs: u64) -> Seq<char>;

/// Calls `chrono::DateTime::from_timestamp` with no nanoseconds and formats
/// the moment with `%Y-%m-%d %H:%M:%S`. The result is a function of `secs`
/// alone; nothing more is claimed of it.
#[verifier::external_body]
fn utc_timestamp_text(secs: i64) -> (text: Option<String>)
    ensures
        text.deep_view() == utc_text(secs),
{
    chrono::DateTime::from_timestamp(secs, 0)
        .map(|moment| moment.format("%Y-%m-%d %H:%M:%S").to_string())
}

/// Calls `humantime::format_duration` on a duration of whole seconds. The
/// result is a function of `secs` alone; nothing more is claimed of it.
#[verifier::external_body]
fn duration_text(secs: u64) -> (text: String)
    ensures
        text@ == humantime_text(secs),
{
    humantime::format_duration(std::time::Duration::from_secs(secs)).to_string()
}

/// An unsigned count read as a signed one of the same 64 bits.
pub open spec fn as_signed(n: u64) -> i64 {
    if n <= i64::MAX {
        n as i64
    } else {
        (n - 0x1_0000_0000_0000_0000) as i64
    }
}

/// What is shown for a moment: `N/A` where there is no date for it, a dash
/// for the very start of 1970, which stands for "never", and the date and
/// time otherwise.
pub open spec fn timestamp_label_text(formatted: Option<Seq<char>>) -> Seq<char> {
    match formatted {
        None => "N/A"@,
        Some(text) => if text == "1970-01-01 00:00:00"@ {
            "-"@
        } else {
            text
        },
    }
}

/// What is shown for a moment, given its date and time as text.
pub fn timestamp_label(formatted: Option<String>) -> (label: String)
    ensures
        label@ == timestamp_label_text(formatted.deep_view()),
{
    match formatted {
        None => String::from_str("N/A"),
        Some(text) => {
            if same_text(text.as_str(), "1970-01-01 00:00:00") {
                String::from_str("-")
            } else {
                text
            }
        },
    }
}

/// The date and time of a moment given in seconds since the start of 1970,
/// in UTC; `N/A` where there is no date for it, and a dash for zero.
pub fn format_timestamp(ts: u64) -> (label: String)
    ensures
        label@ == timestamp_label_text(utc_text(as_signed(ts))),
{
    let secs: i64 = if ts <= 0x7FFF_FFFF_FFFF_FFFF {
        ts as i64
    } else {
        ((ts - 0x8000_0000_0000_0000) as i64) + i64::MIN
    };
    timestamp_label(utc_timestamp_text(secs))
}

/// A duration of whole seconds in words.
pub fn format_seconds(secs: u64) -> (text: String)
    ensures
        text@ == humantime_text(secs),
{
    duration_text(secs)
}

/// The seconds that a task has taken: from its start to its finish, or to
/// `now` while it has not finished (a finish of zero); never negative.
pub open spec fn elapsed_seconds(start: u64, finish: u64, now: u64) -> u64 {
    let end = if finish == 0 {
        now
    } else {
        finish
    };
    if end >= start {
        (end - start) as u64
    } else {
        0
    }
}

/// The time that a task has taken up to the moment `now`, in words.
pub fn elapsed_time_at(start: u64, finish: u64, now: u64) -> (text: String)
    ensures
        text@ == humantime_text(elapsed_seconds(start, finish, now)),
{
    let end = if finish == 0 {
        now
    } else {
        finish
    };
    let secs = if end >= start {
        end - start
    } else {
        0
    };
    format_seconds(secs)
}

} // verus!
