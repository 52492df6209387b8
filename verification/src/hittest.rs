//! The hit-test resolver: turns a cursor position and the host's own
//! classification into the window-management region the window reports.

use vstd::prelude::*;

verus! {

use crate::geometry::Point;
use crate::hover::HoveredButton;

/// Host hit-test code: nowhere.
pub const HTNOWHERE: isize = 0;

/// Host hit-test code: ordinary client area.
pub const HTCLIENT: isize = 1;

/// Host hit-test code: draggable caption.
pub const HTCAPTION: isize = 2;

/// Host hit-test code: the maximize button.
pub const HTMAXBUTTON: isize = 9;

/// Host hit-test code: left resize edge.
pub const HTLEFT: isize = 10;

/// Host hit-test code: right resize edge.
pub const HTRIGHT: isize = 11;

/// Host hit-test code: top resize edge.
pub const HTTOP: isize = 12;

/// Host hit-test code: top-left resize corner.
pub const HTTOPLEFT: isize = 13;

/// Host hit-test code: top-right resize corner.
pub const HTTOPRIGHT: isize = 14;

/// Host hit-test code: bottom resize edge.
pub const HTBOTTOM: isize = 15;

/// Host hit-test code: bottom-left resize corner.
pub const HTBOTTOMLEFT: isize = 16;

/// Host hit-test code: bottom-right resize corner.
pub const HTBOTTOMRIGHT: isize = 17;

/// What the resolver decides for a cursor position.
#[derive(Clone, Copy, PartialEq, Eq, Structural, Debug)]
pub enum HitTestResult {
    /// Keep the host's own classification.
    KeepHost,
    /// The custom maximize button.
    MaxButton,
    /// The synthetic top resize band.
    TopResize,
    /// The draggable caption area.
    Caption,
    /// Ordinary client area.
    ClientArea,
}

/// Host classifications that are preserved as they are: outside the
/// window, and every resize edge or corner except the plain top edge,
/// which the resolver re-derives itself.
pub open spec fn spec_hit_passthrough(host_code: int) -> bool {
    ||| host_code == HTNOWHERE
    ||| host_code == HTLEFT
    ||| host_code == HTRIGHT
    ||| host_code == HTTOPLEFT
    ||| host_code == HTTOPRIGHT
    ||| host_code == HTBOTTOM
    ||| host_code == HTBOTTOMLEFT
    ||| host_code == HTBOTTOMRIGHT
}

/// The resolver's decision, in order: preserve the host's side, bottom,
/// corner and outside classifications; report the maximize button while
/// it is the hovered one; restore the thin top resize band; classify the
/// title bar's height as caption; everything below is client area. When
/// the title-bar bottom could not be derived, the host's classification
/// stands.
pub open spec fn spec_hit_test(
    host_code: int,
    hovered: HoveredButton,
    cursor: Point,
    frame_y: int,
    padding: int,
    title_bar_bottom: Option<i32>,
) -> HitTestResult {
    if spec_hit_passthrough(host_code) {
        HitTestResult::KeepHost
    } else if hovered == HoveredButton::Maximize {
        HitTestResult::MaxButton
    } else if 0 < cursor.y < frame_y + padding {
        HitTestResult::TopResize
    } else {
        match title_bar_bottom {
            Option::None => HitTestResult::KeepHost,
            Option::Some(bottom) => if cursor.y < bottom {
                HitTestResult::Caption
            } else {
                HitTestResult::ClientArea
            },
        }
    }
}

/// Resolve a hit test from the host's classification, the hover state,
/// the cursor in client coordinates and the frame metrics.
pub fn resolve_hit_test(
    host_code: isize,
    hovered: HoveredButton,
    cursor: Point,
    frame_y: i32,
    padding: i32,
    title_bar_bottom: Option<i32>,
) -> (r: HitTestResult)
    requires
        i32::MIN <= frame_y + padding <= i32::MAX,
    ensures
        r == spec_hit_test(
            host_code as int,
            hovered,
            cursor,
            frame_y as int,
            padding as int,
            title_bar_bottom,
        ),
{
    if host_code == HTNOWHERE || host_code == HTLEFT || host_code == HTRIGHT || host_code
        == HTTOPLEFT || host_code == HTTOPRIGHT || host_code == HTBOTTOM || host_code
        == HTBOTTOMLEFT || host_code == HTBOTTOMRIGHT {
        HitTestResult::KeepHost
    } else if hovered == HoveredButton::Maximize {
        HitTestResult::MaxButton
    } else if 0 < cursor.y && cursor.y < frame_y + padding {
        HitTestResult::TopResize
    } else {
        match title_bar_bottom {
            Option::None => HitTestResult::KeepHost,
            Option::Some(bottom) => if cursor.y < bottom {
                HitTestResult::Caption
            } else {
                HitTestResult::ClientArea
            },
        }
    }
}

/// The region code a resolved hit test reports to the host; a preserved
/// classification reports the host's own code back.
pub open spec fn spec_hit_result_code(r: HitTestResult, host_code: int) -> int {
    match r {
        HitTestResult::KeepHost => host_code,
        HitTestResult::MaxButton => HTMAXBUTTON as int,
        HitTestResult::TopResize => HTTOP as int,
        HitTestResult::Caption => HTCAPTION as int,
        HitTestResult::ClientArea => HTCLIENT as int,
    }
}

/// Turn a resolved hit test into the code returned to the host.
pub fn hit_result_code(r: HitTestResult, host_code: isize) -> (c: isize)
    ensures
        c == spec_hit_result_code(r, host_code as int),
{
    match r {
        HitTestResult::KeepHost => host_code,
        HitTestResult::MaxButton => HTMAXBUTTON,
        HitTestResult::TopResize => HTTOP,
        HitTestResult::Caption => HTCAPTION,
        HitTestResult::ClientArea => HTCLIENT,
    }
}

/// Hit-test precedence: while the maximize button is the hovered one,
/// any point the host does not classify as outside or as a preserved
/// resize edge reports the maximize button, even a point that also lies
/// in the synthetic top resize band or the caption.
pub proof fn lemma_hit_test_maximize_precedence(
    host_code: int,
    cursor: Point,
    frame_y: int,
    padding: int,
    title_bar_bottom: Option<i32>,
)
    requires
        !spec_hit_passthrough(host_code),
    ensures
        spec_hit_test(
            host_code,
            HoveredButton::Maximize,
            cursor,
            frame_y,
            padding,
            title_bar_bottom,
        ) == HitTestResult::MaxButton,
{
}

} // verus!
