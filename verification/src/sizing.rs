//! The non-client sizing adjuster: shrinks the host's proposed frame so
//! the whole window becomes client area, while the resize borders stay
//! functional through hit-testing.

use vstd::prelude::*;

verus! {

use crate::geometry::Rect;
use crate::layout::host_rect_ok;
use crate::layout::MAX_HOST_METRIC;

/// Frame metrics accepted from a host query; anything else counts as an
/// invalid query result.
pub open spec fn spec_metrics_ok(frame_x: int, frame_y: int, padding: int) -> bool {
    &&& 0 <= frame_x <= MAX_HOST_METRIC
    &&& 0 <= frame_y <= MAX_HOST_METRIC
    &&& 0 <= padding <= MAX_HOST_METRIC
}

/// Check host-supplied frame metrics.
pub fn metrics_ok(frame_x: i32, frame_y: i32, padding: i32) -> (r: bool)
    ensures
        r == spec_metrics_ok(frame_x as int, frame_y as int, padding as int),
{
    0 <= frame_x && frame_x <= MAX_HOST_METRIC && 0 <= frame_y && frame_y <= MAX_HOST_METRIC && 0
        <= padding && padding <= MAX_HOST_METRIC
}

/// The client rectangle reported back during size negotiation: the left,
/// right and bottom edges move inward past the frame border and padding;
/// the top edge moves down by the padding alone, and only while the
/// window is maximized, so the title bar area joins the client area.
pub open spec fn spec_adjusted_client_rect(
    proposed: Rect,
    frame_x: int,
    frame_y: int,
    padding: int,
    is_maximized: bool,
) -> Rect {
    Rect {
        left: (proposed.left + frame_x + padding) as i32,
        top: if is_maximized {
            (proposed.top + padding) as i32
        } else {
            proposed.top
        },
        right: (proposed.right - (frame_x + padding)) as i32,
        bottom: (proposed.bottom - (frame_y + padding)) as i32,
    }
}

/// Adjust the host's proposed frame rectangle during size negotiation.
pub fn adjust_client_rect(
    proposed: &Rect,
    frame_x: i32,
    frame_y: i32,
    padding: i32,
    is_maximized: bool,
) -> (r: Rect)
    requires
        host_rect_ok(*proposed),
        spec_metrics_ok(frame_x as int, frame_y as int, padding as int),
    ensures
        r == spec_adjusted_client_rect(
            *proposed,
            frame_x as int,
            frame_y as int,
            padding as int,
            is_maximized,
        ),
{
    let left: i32 = proposed.left + frame_x + padding;
    let top: i32 = if is_maximized {
        proposed.top + padding
    } else {
        proposed.top
    };
    let right: i32 = proposed.right - (frame_x + padding);
    let bottom: i32 = proposed.bottom - (frame_y + padding);
    Rect { left, top, right, bottom }
}

} // verus!
