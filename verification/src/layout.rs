//! The title-bar layout: derived on demand from the client rectangle, the
//! DPI and the theme caption height, never cached.

use vstd::prelude::*;

verus! {

use crate::geometry::spec_dpi_scale;
use crate::geometry::win32_dpi_scale;
use crate::geometry::Rect;
use vstd::arithmetic::div_mod::lemma_div_is_ordered;
use vstd::arithmetic::mul::lemma_mul_inequality;

/// One hairline border above and one below the caption.
pub const TOP_AND_BOTTOM_BORDERS_SIZE: i32 = 2;

/// Height of the painted strip standing in for the removed top shadow.
pub const FAKE_SHADOW_HEIGHT: i32 = 1;

/// Logical width of each title-bar button at 96 DPI.
pub const BUTTON_WIDTH_96: i32 = 47;

/// Logical side of a button icon at 96 DPI.
pub const ICON_DIMENSION_96: i32 = 10;

/// Offset between the two squares of the restore icon on a maximized window.
pub const MAXIMIZED_BUTTON_OFFSET: i32 = 2;

/// The host's code for a window currently shown maximized.
pub const SHOW_CMD_MAXIMIZED: u32 = 3;

/// Largest coordinate accepted from a host query; values beyond it are
/// treated as an invalid query result.
pub const MAX_HOST_COORD: i32 = 0x0100_0000;

/// Largest theme or frame metric accepted from a host query.
pub const MAX_HOST_METRIC: i32 = 0x1_0000;

/// Largest DPI accepted from a host query.
pub const MAX_HOST_DPI: u32 = 0x1_0000;

/// The three custom buttons, ordered right to left within the title bar.
#[derive(Clone, Copy, PartialEq, Eq, Structural, Debug)]
pub struct ButtonRects {
    pub close: Rect,
    pub maximize: Rect,
    pub minimize: Rect,
}

pub open spec fn host_coord_ok(v: int) -> bool {
    -MAX_HOST_COORD <= v <= MAX_HOST_COORD
}

pub open spec fn host_rect_ok(r: Rect) -> bool {
    &&& r.wf()
    &&& host_coord_ok(r.left as int)
    &&& host_coord_ok(r.top as int)
    &&& host_coord_ok(r.right as int)
    &&& host_coord_ok(r.bottom as int)
}

pub open spec fn dpi_ok(dpi: u32) -> bool {
    0 < dpi <= MAX_HOST_DPI
}

pub open spec fn caption_height_ok(caption_height: int) -> bool {
    0 <= caption_height <= MAX_HOST_METRIC
}

/// The inputs the layout is derived from, as far as the library accepts
/// them; anything else counts as a failed or invalid host query.
pub open spec fn spec_layout_inputs_ok(client: Rect, dpi: u32, caption_height: i32) -> bool {
    host_rect_ok(client) && dpi_ok(dpi) && caption_height_ok(caption_height as int)
}

/// Check host-supplied layout inputs before deriving geometry from them.
pub fn layout_inputs_ok(client: &Rect, dpi: u32, caption_height: i32) -> (r: bool)
    ensures
        r == spec_layout_inputs_ok(*client, dpi, caption_height),
{
    client.left <= client.right && client.top <= client.bottom && -MAX_HOST_COORD <= client.left
        && client.left <= MAX_HOST_COORD && -MAX_HOST_COORD <= client.top && client.top
        <= MAX_HOST_COORD && -MAX_HOST_COORD <= client.right && client.right <= MAX_HOST_COORD
        && -MAX_HOST_COORD <= client.bottom && client.bottom <= MAX_HOST_COORD && 0 < dpi && dpi
        <= MAX_HOST_DPI && 0 <= caption_height && caption_height <= MAX_HOST_METRIC
}

/// The title bar's height: the scaled theme caption height plus the two
/// hairline borders.
pub open spec fn spec_title_bar_height(dpi: int, caption_height: int) -> int {
    spec_dpi_scale(caption_height, dpi) + TOP_AND_BOTTOM_BORDERS_SIZE
}

/// A scaled metric grows with its logical value and stays within the
/// range its bounded inputs allow.
pub proof fn lemma_dpi_scale_range(value: int, dpi: int, dpi_bound: int)
    requires
        0 <= value,
        0 <= dpi <= dpi_bound,
    ensures
        0 <= spec_dpi_scale(value, dpi) <= (value * dpi_bound) / 96,
{
    lemma_mul_inequality(0, value, dpi);
    lemma_div_is_ordered(0, value * dpi, 96);
    lemma_mul_inequality(dpi, dpi_bound, value);
    lemma_div_is_ordered(value * dpi, value * dpi_bound, 96);
}

/// The title-bar rectangle a client rectangle yields: its top slice, as
/// high as the scaled caption plus its two hairline borders.
pub open spec fn spec_title_bar_rect(client: Rect, dpi: int, caption_height: int) -> Rect {
    Rect {
        left: client.left,
        top: client.top,
        right: client.right,
        bottom: (client.top + spec_title_bar_height(dpi, caption_height)) as i32,
    }
}

/// Under accepted layout inputs the title-bar height is small and the
/// title-bar rectangle is well formed with bounded edges.
pub proof fn lemma_title_bar_rect_bounds(client: Rect, dpi: u32, caption_height: i32)
    requires
        spec_layout_inputs_ok(client, dpi, caption_height),
    ensures
        0 <= spec_dpi_scale(caption_height as int, dpi as int) <= 44739242,
        spec_title_bar_rect(client, dpi as int, caption_height as int).wf(),
        derived_rect_ok(spec_title_bar_rect(client, dpi as int, caption_height as int)),
        spec_title_bar_rect(client, dpi as int, caption_height as int).bottom == client.top
            + spec_title_bar_height(dpi as int, caption_height as int),
{
    lemma_dpi_scale_range(caption_height as int, dpi as int, MAX_HOST_DPI as int);
    assert((MAX_HOST_METRIC as int * MAX_HOST_DPI as int) / 96 == 44739242);
    lemma_mul_inequality(caption_height as int, MAX_HOST_METRIC as int, MAX_HOST_DPI as int);
    lemma_div_is_ordered(
        caption_height as int * MAX_HOST_DPI as int,
        MAX_HOST_METRIC as int * MAX_HOST_DPI as int,
        96,
    );
}

/// The title-bar rectangle: the top slice of the client rectangle, as
/// high as the scaled caption plus its two hairline borders.
pub fn win32_titlebar_rect(client: &Rect, dpi: u32, caption_height: i32) -> (r: Rect)
    requires
        spec_layout_inputs_ok(*client, dpi, caption_height),
    ensures
        r == spec_title_bar_rect(*client, dpi as int, caption_height as int),
        r.bottom == client.top + spec_title_bar_height(dpi as int, caption_height as int),
        r.wf(),
{
    proof {
        lemma_title_bar_rect_bounds(*client, dpi, caption_height);
    }
    let height: i32 = win32_dpi_scale(caption_height, dpi) + TOP_AND_BOTTOM_BORDERS_SIZE;
    Rect { left: client.left, top: client.top, right: client.right, bottom: client.top + height }
}

/// The thin strip at the very top of the client area standing in for
/// the removed window shadow.
pub open spec fn spec_fake_shadow_rect(client: Rect) -> Rect {
    Rect {
        left: client.left,
        top: client.top,
        right: client.right,
        bottom: (client.top + FAKE_SHADOW_HEIGHT) as i32,
    }
}

/// The thin strip at the very top of the client area where the fake
/// shadow is painted.
pub fn win32_fake_shadow_rect(client: &Rect) -> (r: Rect)
    requires
        client.wf(),
        client.top + FAKE_SHADOW_HEIGHT <= i32::MAX,
    ensures
        r == spec_fake_shadow_rect(*client),
        r.bottom == client.top + FAKE_SHADOW_HEIGHT,
{
    Rect {
        left: client.left,
        top: client.top,
        right: client.right,
        bottom: client.top + FAKE_SHADOW_HEIGHT,
    }
}

/// Physical width of one title-bar button.
pub open spec fn spec_button_width(dpi: int) -> int {
    spec_dpi_scale(BUTTON_WIDTH_96 as int, dpi)
}

/// A rectangle derived from host-checked inputs: every edge stays well
/// clear of the `i32` range.
pub open spec fn derived_rect_ok(r: Rect) -> bool {
    &&& -0x0800_0000 <= r.left <= 0x0800_0000
    &&& -0x0800_0000 <= r.top <= 0x0800_0000
    &&& -0x0800_0000 <= r.right <= 0x0800_0000
    &&& -0x0800_0000 <= r.bottom <= 0x0800_0000
}

/// The three button rectangles a title-bar rectangle yields at a DPI.
pub open spec fn spec_button_rects(title_bar_rect: Rect, dpi: int) -> ButtonRects {
    let bw = spec_button_width(dpi);
    let close = Rect {
        left: (title_bar_rect.right - bw) as i32,
        top: (title_bar_rect.top + FAKE_SHADOW_HEIGHT) as i32,
        right: title_bar_rect.right,
        bottom: title_bar_rect.bottom,
    };
    let maximize = Rect {
        left: (close.left - bw) as i32,
        top: close.top,
        right: (close.right - bw) as i32,
        bottom: close.bottom,
    };
    let minimize = Rect {
        left: (maximize.left - bw) as i32,
        top: maximize.top,
        right: (maximize.right - bw) as i32,
        bottom: maximize.bottom,
    };
    ButtonRects { close, maximize, minimize }
}

/// At an accepted DPI the button width is at most 32085 pixels.
pub proof fn lemma_button_width_range(dpi: u32)
    requires
        dpi_ok(dpi),
    ensures
        0 <= spec_button_width(dpi as int) <= 32085,
{
    lemma_dpi_scale_range(BUTTON_WIDTH_96 as int, dpi as int, MAX_HOST_DPI as int);
    assert((BUTTON_WIDTH_96 as int * MAX_HOST_DPI as int) / 96 == 32085);
}

impl ButtonRects {
    /// The three button rectangles: the close button fills the rightmost
    /// button-width of the title bar below the shadow strip, and the
    /// maximize and minimize buttons continue leftward, each exactly one
    /// button-width over.
    pub fn win32_get_title_bar_button_rects(title_bar_rect: &Rect, dpi: u32) -> (r: ButtonRects)
        requires
            derived_rect_ok(*title_bar_rect),
            dpi_ok(dpi),
        ensures
            r == spec_button_rects(*title_bar_rect, dpi as int),
            r.close.left == title_bar_rect.right - spec_button_width(dpi as int),
            r.close.top == title_bar_rect.top + FAKE_SHADOW_HEIGHT,
            r.close.right == title_bar_rect.right,
            r.close.bottom == title_bar_rect.bottom,
            r.maximize.left == title_bar_rect.right - 2 * spec_button_width(dpi as int),
            r.maximize.right == title_bar_rect.right - spec_button_width(dpi as int),
            r.maximize.top == r.close.top,
            r.maximize.bottom == r.close.bottom,
            r.minimize.left == title_bar_rect.right - 3 * spec_button_width(dpi as int),
            r.minimize.right == title_bar_rect.right - 2 * spec_button_width(dpi as int),
            r.minimize.top == r.close.top,
            r.minimize.bottom == r.close.bottom,
    {
        proof {
            lemma_button_width_range(dpi);
        }
        let button_width: i32 = win32_dpi_scale(BUTTON_WIDTH_96, dpi);

        let close = Rect {
            left: title_bar_rect.right - button_width,
            top: title_bar_rect.top + FAKE_SHADOW_HEIGHT,
            right: title_bar_rect.right,
            bottom: title_bar_rect.bottom,
        };

        let maximize = Rect {
            left: close.left - button_width,
            top: close.top,
            right: close.right - button_width,
            bottom: close.bottom,
        };

        let minimize = Rect {
            left: maximize.left - button_width,
            top: maximize.top,
            right: maximize.right - button_width,
            bottom: maximize.bottom,
        };

        ButtonRects { close, maximize, minimize }
    }
}

/// Whether a host show-command means the window is currently maximized.
pub fn win32_window_is_maximized(show_cmd: u32) -> (r: bool)
    ensures
        r == (show_cmd == SHOW_CMD_MAXIMIZED),
{
    show_cmd == SHOW_CMD_MAXIMIZED
}

/// No point lies in two button rectangles: the three buttons never
/// overlap, at any DPI and for any bounded title-bar rectangle.
pub proof fn lemma_buttons_disjoint(title_bar_rect: Rect, dpi: u32, p: crate::geometry::Point)
    requires
        derived_rect_ok(title_bar_rect),
        dpi_ok(dpi),
    ensures
        !(spec_button_rects(title_bar_rect, dpi as int).minimize.spec_contains(p)
            && spec_button_rects(title_bar_rect, dpi as int).maximize.spec_contains(p)),
        !(spec_button_rects(title_bar_rect, dpi as int).maximize.spec_contains(p)
            && spec_button_rects(title_bar_rect, dpi as int).close.spec_contains(p)),
        !(spec_button_rects(title_bar_rect, dpi as int).minimize.spec_contains(p)
            && spec_button_rects(title_bar_rect, dpi as int).close.spec_contains(p)),
{
    lemma_button_width_range(dpi);
}

/// The button layout invariant: for any title-bar rectangle and any DPI,
/// the three buttons have equal width and sit contiguously, the close
/// button's right edge on the title bar's right edge; and whenever the
/// title bar is at least three button-widths wide, all three stay inside
/// it horizontally.
pub proof fn lemma_button_layout_invariant(title_bar_rect: Rect, dpi: int)
    requires
        title_bar_rect.wf(),
        0 <= dpi,
    ensures
        spec_button_width(dpi) >= 0,
        title_bar_rect.right - spec_button_width(dpi) <= title_bar_rect.right,
        title_bar_rect.right - 2 * spec_button_width(dpi) <= title_bar_rect.right
            - spec_button_width(dpi),
        title_bar_rect.right - 3 * spec_button_width(dpi) <= title_bar_rect.right - 2
            * spec_button_width(dpi),
        title_bar_rect.width() >= 3 * spec_button_width(dpi) ==> title_bar_rect.left
            <= title_bar_rect.right - 3 * spec_button_width(dpi),
{
    lemma_dpi_scale_range(BUTTON_WIDTH_96 as int, dpi, dpi);
}

} // verus!
