//! Points, rectangles and the DPI scaler.

use vstd::prelude::*;

verus! {

use vstd::arithmetic::div_mod::lemma_div_is_ordered;
use vstd::arithmetic::div_mod::lemma_fundamental_div_mod;
use vstd::arithmetic::mul::lemma_mul_inequality;

/// A cursor position in pixels.
#[derive(Clone, Copy, PartialEq, Eq, Structural, Debug)]
pub struct Point {
    pub x: i32,
    pub y: i32,
}

/// An axis-aligned rectangle with integer edges in physical pixels,
/// relative to the window's client origin.
#[derive(Clone, Copy, PartialEq, Eq, Structural, Debug)]
pub struct Rect {
    pub left: i32,
    pub top: i32,
    pub right: i32,
    pub bottom: i32,
}

impl Rect {
    /// The rectangle's invariant: edges are ordered.
    pub open spec fn wf(self) -> bool {
        self.left <= self.right && self.top <= self.bottom
    }

    pub open spec fn width(self) -> int {
        self.right - self.left
    }

    pub open spec fn height(self) -> int {
        self.bottom - self.top
    }

    /// Containment as the host's point-in-rectangle test defines it: the
    /// left and top edges belong to the rectangle, the right and bottom
    /// edges do not.
    pub open spec fn spec_contains(self, p: Point) -> bool {
        self.left <= p.x < self.right && self.top <= p.y < self.bottom
    }

    pub fn contains(&self, p: Point) -> (r: bool)
        ensures
            r == self.spec_contains(p),
    {
        self.left <= p.x && p.x < self.right && self.top <= p.y && p.y < self.bottom
    }
}

/// Logical-to-physical pixel conversion: `floor(value * dpi / 96)`.
pub open spec fn spec_dpi_scale(value: int, dpi: int) -> int {
    (value * dpi) / 96
}

/// Scale a non-negative logical metric to physical pixels for a DPI.
pub fn win32_dpi_scale(value: i32, dpi: u32) -> (r: i32)
    requires
        0 <= value,
        spec_dpi_scale(value as int, dpi as int) <= i32::MAX,
    ensures
        r == spec_dpi_scale(value as int, dpi as int),
{
    proof {
        lemma_div_bounds_for_scale(value as int, dpi as int);
    }
    ((value as u64 * dpi as u64) / 96) as i32
}

/// The product of an `i32`-sized value and a `u32`-sized DPI is
/// non-negative and fits in a `u64`.
proof fn lemma_div_bounds_for_scale(value: int, dpi: int)
    requires
        0 <= value <= 0x7fff_ffff,
        0 <= dpi <= 0xffff_ffff,
    ensures
        0 <= (value * dpi) / 96,
        value * dpi < 0x8000_0000_0000_0000,
{
    lemma_mul_inequality(0, value, dpi);
    lemma_div_is_ordered(0, value * dpi, 96);
    lemma_mul_inequality(value, 0x7fff_ffff, dpi);
    lemma_mul_inequality(dpi, 0xffff_ffff, 0x7fff_ffff);
}

/// Half of a difference, rounded toward zero, as the machine's signed
/// division computes it.
pub open spec fn half_toward_zero(d: int) -> int {
    if d >= 0 {
        d / 2
    } else {
        -((-d) / 2)
    }
}

/// Where the left edge of `to` lands when `to` is centered horizontally
/// in `outer`.
pub open spec fn centered_left(to: Rect, outer: Rect) -> int {
    outer.left + half_toward_zero(outer.width() - to.width())
}

/// Where the top edge of `to` lands when `to` is centered vertically
/// in `outer`.
pub open spec fn centered_top(to: Rect, outer: Rect) -> int {
    outer.top + half_toward_zero(outer.height() - to.height())
}

/// Move `to_center` so that it sits centered within `outer_rect`,
/// keeping its width and height.
pub fn win32_center_rect_in_rect(to_center: &mut Rect, outer_rect: &Rect)
    requires
        old(to_center).wf(),
        outer_rect.wf(),
        old(to_center).width() <= i32::MAX,
        old(to_center).height() <= i32::MAX,
        outer_rect.width() <= i32::MAX,
        outer_rect.height() <= i32::MAX,
        i32::MIN <= centered_left(*old(to_center), *outer_rect),
        centered_left(*old(to_center), *outer_rect) + old(to_center).width() <= i32::MAX,
        i32::MIN <= centered_top(*old(to_center), *outer_rect),
        centered_top(*old(to_center), *outer_rect) + old(to_center).height() <= i32::MAX,
    ensures
        final(to_center).left == centered_left(*old(to_center), *outer_rect),
        final(to_center).top == centered_top(*old(to_center), *outer_rect),
        final(to_center).width() == old(to_center).width(),
        final(to_center).height() == old(to_center).height(),
        final(to_center).wf(),
{
    let to_width: i32 = to_center.right - to_center.left;
    let to_height: i32 = to_center.bottom - to_center.top;
    let outer_width: i32 = outer_rect.right - outer_rect.left;
    let outer_height: i32 = outer_rect.bottom - outer_rect.top;

    let padding_x: i32 = half_of_difference(outer_width, to_width);
    let padding_y: i32 = half_of_difference(outer_height, to_height);

    to_center.left = outer_rect.left + padding_x;
    to_center.top = outer_rect.top + padding_y;
    to_center.right = to_center.left + to_width;
    to_center.bottom = to_center.top + to_height;
}

/// `(a - b) / 2` with the machine's rounding toward zero.
fn half_of_difference(a: i32, b: i32) -> (r: i32)
    requires
        0 <= a,
        0 <= b,
    ensures
        r == half_toward_zero(a - b),
{
    if a >= b {
        (((a - b) as u32) / 2) as i32
    } else {
        -((((b - a) as u32) / 2) as i32)
    }
}

/// The rectangle of size `w` by `h` centered within `outer`, as the
/// centering routine places it.
pub open spec fn spec_centered_rect(w: int, h: int, outer: Rect) -> Rect {
    let l = outer.left + half_toward_zero(outer.width() - w);
    let t = outer.top + half_toward_zero(outer.height() - h);
    Rect { left: l as i32, top: t as i32, right: (l + w) as i32, bottom: (t + h) as i32 }
}

/// A truncated half lies between zero and the value it halves.
pub proof fn lemma_half_toward_zero_bounds(d: int)
    ensures
        d >= 0 ==> 0 <= half_toward_zero(d) <= d,
        d < 0 ==> d <= half_toward_zero(d) <= 0,
{
    if d >= 0 {
        lemma_fundamental_div_mod(d, 2);
        lemma_div_is_ordered(0, d, 2);
    } else {
        lemma_fundamental_div_mod(-d, 2);
        lemma_div_is_ordered(0, -d, 2);
    }
}

/// Centering preserves the size and moves the midpoints together: on each
/// axis the sum of the two edges (twice the midpoint) differs from the
/// outer rectangle's by at most one.
pub proof fn lemma_center_rect_is_centered(to: Rect, outer: Rect)
    requires
        to.wf(),
        outer.wf(),
    ensures
        -1 <= (outer.left + outer.right) - (2 * centered_left(to, outer) + to.width()) <= 1,
        -1 <= (outer.top + outer.bottom) - (2 * centered_top(to, outer) + to.height()) <= 1,
{
    lemma_half_toward_zero_close(outer.width() - to.width());
    lemma_half_toward_zero_close(outer.height() - to.height());
}

/// Doubling a truncated half loses at most one from the value halved.
proof fn lemma_half_toward_zero_close(d: int)
    ensures
        -1 <= d - 2 * half_toward_zero(d) <= 1,
{
    if d >= 0 {
        lemma_fundamental_div_mod(d, 2);
    } else {
        lemma_fundamental_div_mod(-d, 2);
    }
}

/// At the default 96 DPI, scaling is the identity on non-negative values.
pub proof fn lemma_dpi_scale_at_default(value: int)
    requires
        0 <= value,
    ensures
        spec_dpi_scale(value, 96) == value,
{
}

/// For a fixed non-negative value, the scaled metric never shrinks as the
/// DPI grows.
pub proof fn lemma_dpi_scale_monotonic(value: int, dpi1: int, dpi2: int)
    requires
        0 <= value,
        0 <= dpi1 <= dpi2,
    ensures
        spec_dpi_scale(value, dpi1) <= spec_dpi_scale(value, dpi2),
{
    lemma_mul_inequality(dpi1, dpi2, value);
    lemma_div_is_ordered(value * dpi1, value * dpi2, 96);
}

} // verus!
