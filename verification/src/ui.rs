//! Geometry of the views: where a popup lies, which rows of a list are on
//! screen, and how far a text can be scrolled.

pub mod lines;

use vstd::prelude::*;

verus! {

/// A rectangle of terminal cells.
#[derive(Debug, Clone, Copy, PartialEq, Eq, Structural)]
pub struct Rect {
    pub x: u16,
    pub y: u16,
    pub width: u16,
    pub height: u16,
}

impl Rect {
    /// Whether the rectangle's far edges are still coordinates.
    pub open spec fn fits(self) -> bool {
        self.x + self.width <= u16::MAX && self.y + self.height <= u16::MAX
    }

    /// Whether the rectangle's far edges are still coordinates.
    pub fn is_valid(&self) -> (valid: bool)
        ensures
            valid == self.fits(),
    {
        self.x <= u16::MAX - self.width && self.y <= u16::MAX - self.height
    }
}

/// A share of a length in percent, never more than a `u16` holds.
pub open spec fn share(length: u16, percent: u16) -> int {
    let product = if length * percent > u16::MAX {
        u16::MAX as int
    } else {
        length * percent
    };
    product / 100
}

/// The length of a popup's side: the given share of the side around it, but
/// three cells at least (a border, a line, a border), and never more than
/// the side around it.
pub open spec fn popup_side(length: u16, percent: u16) -> int {
    let raw = share(length, percent);
    let wanted = if raw < 3 {
        3
    } else {
        raw
    };
    if wanted > length {
        length as int
    } else {
        wanted
    }
}

/// The rectangle of a popup: centred in `area`, with sides of `popup_side`.
pub open spec fn centered(percent_x: u16, percent_y: u16, area: Rect) -> Rect {
    let w = popup_side(area.width, percent_x);
    let h = popup_side(area.height, percent_y);
    Rect {
        x: (area.x + (area.width - w) / 2) as u16,
        y: (area.y + (area.height - h) / 2) as u16,
        width: w as u16,
        height: h as u16,
    }
}

fn side(length: u16, percent: u16) -> (s: u16)
    ensures
        s == popup_side(length, percent),
        s <= length,
{
    assert(length as int * percent as int <= 0xFFFF * 0xFFFF) by (nonlinear_arith)
        requires
            length <= 0xFFFF,
            percent <= 0xFFFF,
    ;
    let product: u32 = length as u32 * percent as u32;
    let capped: u32 = if product > 0xFFFF {
        0xFFFF
    } else {
        product
    };
    let raw: u16 = (capped / 100) as u16;
    let wanted: u16 = if raw < 3 {
        3
    } else {
        raw
    };
    if wanted > length {
        length
    } else {
        wanted
    }
}

/// The rectangle of a popup that takes the given shares of `area`: centred,
/// at least three cells a side, and inside `area`.
pub fn centered_rect(percent_x: u16, percent_y: u16, area: Rect) -> (popup: Rect)
    requires
        area.fits(),
    ensures
        popup == centered(percent_x, percent_y, area),
        popup.fits(),
        area.x <= popup.x,
        area.y <= popup.y,
        popup.x + popup.width <= area.x + area.width,
        popup.y + popup.height <= area.y + area.height,
{
    let w = side(area.width, percent_x);
    let h = side(area.height, percent_y);
    Rect {
        x: area.x + (area.width - w) / 2,
        y: area.y + (area.height - h) / 2,
        width: w,
        height: h,
    }
}

/// The largest scroll offset of a text of `lines` lines in a viewport of
/// `visible` lines.
pub open spec fn max_scroll(lines: nat, visible: nat) -> nat {
    if lines > visible {
        (lines - visible) as nat
    } else {
        0
    }
}

/// A scroll offset brought back into what the text allows.
pub open spec fn clamped(scroll: nat, lines: nat, visible: nat) -> nat {
    if scroll > max_scroll(lines, visible) {
        max_scroll(lines, visible)
    } else {
        scroll
    }
}

/// Brings a scroll offset back into `[0, max(lines - visible, 0)]`: an
/// offset in that range is kept, a larger one becomes the largest allowed.
pub fn clamp_scroll(scroll: usize, lines: usize, visible: usize) -> (offset: usize)
    ensures
        offset == clamped(scroll as nat, lines as nat, visible as nat),
        offset <= max_scroll(lines as nat, visible as nat),
        offset <= scroll,
{
    let max = if lines > visible {
        lines - visible
    } else {
        0
    };
    if scroll > max {
        max
    } else {
        scroll
    }
}

/// The length that a scrollbar is told: the scroll range, but one at least.
pub fn scroll_range(lines: usize, visible: usize) -> (range: usize)
    ensures
        range == if max_scroll(lines as nat, visible as nat) < 1 {
            1
        } else {
            max_scroll(lines as nat, visible as nat)
        },
{
    if lines > visible {
        lines - visible
    } else {
        1
    }
}

/// The lines of text that a popup in `area` shows: its height less the two
/// border lines.
pub fn popup_viewport(popup: Rect) -> (visible: usize)
    ensures
        visible == if popup.height >= 2 {
            popup.height - 2
        } else {
            0
        },
{
    if popup.height >= 2 {
        (popup.height - 2) as usize
    } else {
        0
    }
}

/// The first row on screen of a list in which `selected` is highlighted
/// and `height` rows fit: as far up as keeps the highlighted row on screen.
pub open spec fn window_start(selected: nat, height: nat) -> nat {
    if selected >= height {
        (selected + 1 - height) as nat
    } else {
        0
    }
}

/// The rows of a list that are on screen.
pub struct Window {
    pub start: usize,
    pub end: usize,
}

/// The rows on screen of a list of `total` rows of which `height` fit, with
/// `selected` highlighted: `start..end`. The window never reaches past the
/// list, and the highlighted row is inside it wherever a row fits.
pub fn visible_window(selected: usize, height: usize, total: usize) -> (window: Window)
    requires
        selected < total,
    ensures
        window.start == window_start(selected as nat, height as nat),
        window.end == if window.start + height < total {
            window.start + height
        } else {
            total as int
        },
        window.start <= window.end <= total,
        height > 0 ==> window.start <= selected < window.end,
{
    let start = if selected >= height {
        selected + 1 - height
    } else {
        0
    };
    let end = if height < total - start {
        start + height
    } else {
        total
    };
    Window { start, end }
}

/// Whatever offset was stored, the offset after clamping lies in
/// `[0, max(lines - visible, 0)]`, and clamping again changes nothing.
pub proof fn lemma_clamped_in_range(scroll: nat, lines: nat, visible: nat)
    ensures
        0 <= clamped(scroll, lines, visible) <= max_scroll(lines, visible),
        max_scroll(lines, visible) == if lines >= visible {
            lines - visible
        } else {
            0
        },
        clamped(clamped(scroll, lines, visible), lines, visible) == clamped(scroll, lines, visible),
{
}

} // verus!
