//! Frame-space and display-space geometry.
//!
//! The source frame has a fixed resolution of `WIDTH x HEIGHT` pixels.  Each
//! channel is shown in two fixed-size display panes of `WIN_WIDTH x WIN_HEIGHT`
//! pixels: a full pane showing the whole frame, and a zoom pane showing the
//! current crop scaled up.  All mappings between the two spaces are one linear
//! transform, parameterized by a reference window (`scale_point_from_window`),
//! computed with truncating integer arithmetic so results are reproducible.

use vstd::prelude::*;

verus! {

/// Width of the source frame in pixels.
pub const WIDTH: u16 = 1280;

/// Height of the source frame in pixels.
pub const HEIGHT: u16 = 720;

/// Width of one display pane.
pub const WIN_WIDTH: u16 = 640;

/// Height of one display pane.
pub const WIN_HEIGHT: u16 = 360;

/// Bytes per pixel of a raw frame (8-bit RGB, interleaved).
pub const BYTES_PER_PIXEL: usize = 3;

/// Length in bytes of one raw frame payload.
pub const BYTES_PER_FRAME: usize = 1280 * 720 * 3;

/// Reduced numerator of the frame aspect ratio `WIDTH : HEIGHT`.
pub const ASPECT_W: u16 = 16;

/// Reduced denominator of the frame aspect ratio `WIDTH : HEIGHT`.
pub const ASPECT_H: u16 = 9;

/// `ASPECT_W : ASPECT_H` is exactly the frame aspect ratio.
pub proof fn lemma_aspect_matches_frame()
    ensures
        WIDTH * ASPECT_H == HEIGHT * ASPECT_W,
{
}

/// A crop rectangle in frame space.
#[derive(Copy, Clone, PartialEq, Eq, Structural, Debug)]
pub struct Crop {
    pub x: u16,
    pub y: u16,
    pub w: u16,
    pub h: u16,
}

impl Crop {
    /// The invariant every confirmed crop satisfies: positive extent,
    /// entirely within the frame.
    pub open spec fn valid(self) -> bool {
        &&& self.w > 0
        &&& self.h > 0
        &&& self.x + self.w <= WIDTH
        &&& self.y + self.h <= HEIGHT
    }
}

/// The crop showing the whole frame.
pub open spec fn spec_full_crop() -> Crop {
    Crop { x: 0, y: 0, w: WIDTH, h: HEIGHT }
}

/// The crop showing the whole frame.
pub fn full_crop() -> (c: Crop)
    ensures
        c == spec_full_crop(),
        c.valid(),
{
    Crop { x: 0, y: 0, w: WIDTH, h: HEIGHT }
}

/// A candidate rectangle in frame space, possibly out of bounds, as produced
/// by a gesture before clamping.
#[derive(Copy, Clone, PartialEq, Eq, Structural, Debug)]
pub struct FrameRect {
    pub x: i32,
    pub y: i32,
    pub w: u16,
    pub h: u16,
}

/// A rectangle in display (window) space: a pane, or a rubber-band preview.
#[derive(Copy, Clone, PartialEq, Eq, Structural, Debug)]
pub struct DispRect {
    pub x: i32,
    pub y: i32,
    pub w: u32,
    pub h: u32,
}

/// Truncating division (round toward zero), for a positive divisor.
/// This matches the machine's signed division, unlike `int` division,
/// which rounds toward negative infinity.
pub open spec fn tdiv(a: int, b: int) -> int
    recommends
        b > 0,
{
    if a >= 0 {
        a / b
    } else {
        -((-a) / b)
    }
}

/// The quotient of a truncating division never exceeds the given magnitude
/// bound on the dividend.
proof fn lemma_tdiv_bound(a: int, b: int, m: int)
    requires
        b > 0,
        -m <= a <= m,
        0 <= m,
    ensures
        -(m / b) <= tdiv(a, b) <= m / b,
{
    if a >= 0 {
        vstd::arithmetic::div_mod::lemma_div_is_ordered(a, m, b);
        vstd::arithmetic::div_mod::lemma_div_pos_is_pos(a, b);
    } else {
        vstd::arithmetic::div_mod::lemma_div_is_ordered(-a, m, b);
        vstd::arithmetic::div_mod::lemma_div_pos_is_pos(-a, b);
    }
}

/// A product of two factors is bounded by the product of their magnitude
/// bounds.
proof fn lemma_mul_magnitude(a: int, b: int, ma: int, mb: int)
    by (nonlinear_arith)
    requires
        -ma <= a <= ma,
        0 <= b <= mb,
        0 <= ma,
    ensures
        -(ma * mb) <= a * b <= ma * mb,
{
}

/// Truncating division on machine integers.
fn tdiv_i64(a: i64, b: i64) -> (q: i64)
    requires
        b > 0,
        a > i64::MIN,
    ensures
        q == tdiv(a as int, b as int),
{
    if a >= 0 {
        let q0: u64 = (a as u64) / (b as u64);
        assert(q0 <= a as u64 <= i64::MAX as u64) by {
            vstd::arithmetic::div_mod::lemma_div_is_ordered_by_denominator(
                a as int,
                1,
                b as int,
            );
        }
        q0 as i64
    } else {
        let q0: u64 = ((-a) as u64) / (b as u64);
        assert(q0 <= (-a) as u64 <= i64::MAX as u64) by {
            vstd::arithmetic::div_mod::lemma_div_is_ordered_by_denominator(
                (-a) as int,
                1,
                b as int,
            );
        }
        -(q0 as i64)
    }
}

/// The one linear transform between display space and frame space.
///
/// Maps the display point `offset`, relative to the display origin `point`,
/// into the reference window whose size is `(width, height)` and whose origin
/// is `(left, top)`.  With a pane's origin and the pane's reference window
/// this converts a display point to a frame point; with two display points
/// and a zero origin it converts a display delta to a frame delta.
pub fn scale_point_from_window(
    point: (i32, i32),
    offset: (i32, i32),
    width: i32,
    height: i32,
    left: i32,
    top: i32,
) -> (r: (i32, i32))
    requires
        0 <= width <= WIDTH,
        0 <= height <= HEIGHT,
        0 <= left <= WIDTH,
        0 <= top <= HEIGHT,
        -1100000 <= point.0 <= 1100000,
        -1100000 <= point.1 <= 1100000,
        -1100000 <= offset.0 <= 1100000,
        -1100000 <= offset.1 <= 1100000,
    ensures
        r.0 == tdiv((offset.0 - point.0) * width, WIN_WIDTH as int) + left,
        r.1 == tdiv((offset.1 - point.1) * height, WIN_HEIGHT as int) + top,
{
    let dx: i64 = offset.0 as i64 - point.0 as i64;
    let dy: i64 = offset.1 as i64 - point.1 as i64;
    proof {
        lemma_mul_magnitude(dx as int, width as int, 2200000, 1280);
        lemma_mul_magnitude(dy as int, height as int, 2200000, 720);
    }
    let px: i64 = dx * (width as i64);
    let py: i64 = dy * (height as i64);
    proof {
        lemma_tdiv_bound(px as int, WIN_WIDTH as int, (2200000 * 1280) as int);
        lemma_tdiv_bound(py as int, WIN_HEIGHT as int, (2200000 * 720) as int);
    }
    let qx: i64 = tdiv_i64(px, WIN_WIDTH as i64) + left as i64;
    let qy: i64 = tdiv_i64(py, WIN_HEIGHT as i64) + top as i64;
    (qx as i32, qy as i32)
}

/// Converts a display point inside a pane to a frame point, through the
/// pane's reference window `rw`: the full crop for the full pane, the
/// channel's current crop for the zoom pane.
pub fn point_to_frame(pane_origin: (i32, i32), display: (i32, i32), rw: Crop) -> (r: (i32, i32))
    requires
        rw.valid(),
        -1100000 <= pane_origin.0 <= 1100000,
        -1100000 <= pane_origin.1 <= 1100000,
        -1100000 <= display.0 <= 1100000,
        -1100000 <= display.1 <= 1100000,
    ensures
        r.0 == tdiv((display.0 - pane_origin.0) * rw.w, WIN_WIDTH as int) + rw.x,
        r.1 == tdiv((display.1 - pane_origin.1) * rw.h, WIN_HEIGHT as int) + rw.y,
{
    scale_point_from_window(
        pane_origin,
        display,
        rw.w as i32,
        rw.h as i32,
        rw.x as i32,
        rw.y as i32,
    )
}

/// Converts a display-space delta to a frame-space delta, scaled by the
/// reference window `rw`.
pub fn delta_to_frame(delta: (i32, i32), rw: Crop) -> (r: (i32, i32))
    requires
        rw.valid(),
        -2200000 <= delta.0 <= 2200000,
        -2200000 <= delta.1 <= 2200000,
    ensures
        r.0 == tdiv(delta.0 * rw.w, WIN_WIDTH as int),
        r.1 == tdiv(delta.1 * rw.h, WIN_HEIGHT as int),
{
    proof {
        lemma_mul_magnitude(delta.0 as int, rw.w as int, 2200000, 1280);
        lemma_mul_magnitude(delta.1 as int, rw.h as int, 2200000, 720);
    }
    let px: i64 = delta.0 as i64 * (rw.w as i64);
    let py: i64 = delta.1 as i64 * (rw.h as i64);
    proof {
        lemma_tdiv_bound(px as int, WIN_WIDTH as int, (2200000 * 1280) as int);
        lemma_tdiv_bound(py as int, WIN_HEIGHT as int, (2200000 * 720) as int);
    }
    let qx: i64 = tdiv_i64(px, WIN_WIDTH as i64);
    let qy: i64 = tdiv_i64(py, WIN_HEIGHT as i64);
    (qx as i32, qy as i32)
}

/// Whether the display rectangle contains the display point; the right and
/// bottom edges are exclusive.
pub open spec fn spec_contains_point(r: DispRect, p: (i32, i32)) -> bool {
    &&& r.x <= p.0 < r.x + r.w
    &&& r.y <= p.1 < r.y + r.h
}

/// Whether the display rectangle contains the display point.
pub fn contains_point(r: DispRect, p: (i32, i32)) -> (b: bool)
    ensures
        b == spec_contains_point(r, p),
{
    let px: i64 = p.0 as i64;
    let py: i64 = p.1 as i64;
    px >= r.x as i64 && px < r.x as i64 + r.w as i64 && py >= r.y as i64 && py < r.y as i64
        + r.h as i64
}

/// Whether `outer` completely contains `inner`.
pub open spec fn spec_contains_rect(outer: DispRect, inner: DispRect) -> bool {
    &&& inner.x >= outer.x
    &&& inner.x + inner.w <= outer.x + outer.w
    &&& inner.y >= outer.y
    &&& inner.y + inner.h <= outer.y + outer.h
}

/// Whether `outer` completely contains `inner`.
pub fn contains_rect(outer: DispRect, inner: DispRect) -> (b: bool)
    ensures
        b == spec_contains_rect(outer, inner),
{
    inner.x as i64 >= outer.x as i64 && inner.x as i64 + inner.w as i64 <= outer.x as i64
        + outer.w as i64 && inner.y as i64 >= outer.y as i64 && inner.y as i64 + inner.h as i64
        <= outer.y as i64 + outer.h as i64
}

/// The smallest display rectangle containing both points; each point lies on
/// the rectangle's pixel grid, so a degenerate drag still has extent one.
/// An extent too large for the field saturates.
pub open spec fn spec_enclose_points(a: (i32, i32), b: (i32, i32)) -> DispRect {
    let lo_x = if a.0 <= b.0 { a.0 } else { b.0 };
    let hi_x = if a.0 <= b.0 { b.0 } else { a.0 };
    let lo_y = if a.1 <= b.1 { a.1 } else { b.1 };
    let hi_y = if a.1 <= b.1 { b.1 } else { a.1 };
    let w = if hi_x - lo_x + 1 <= u32::MAX { hi_x - lo_x + 1 } else { u32::MAX as int };
    let h = if hi_y - lo_y + 1 <= u32::MAX { hi_y - lo_y + 1 } else { u32::MAX as int };
    DispRect { x: lo_x, y: lo_y, w: w as u32, h: h as u32 }
}

/// The smallest display rectangle containing both points.
pub fn enclose_points(a: (i32, i32), b: (i32, i32)) -> (r: DispRect)
    ensures
        r == spec_enclose_points(a, b),
{
    let lo_x: i32 = if a.0 <= b.0 { a.0 } else { b.0 };
    let hi_x: i32 = if a.0 <= b.0 { b.0 } else { a.0 };
    let lo_y: i32 = if a.1 <= b.1 { a.1 } else { b.1 };
    let hi_y: i32 = if a.1 <= b.1 { b.1 } else { a.1 };
    let w64: i64 = hi_x as i64 - lo_x as i64 + 1;
    let h64: i64 = hi_y as i64 - lo_y as i64 + 1;
    let w: u32 = if w64 <= u32::MAX as i64 { w64 as u32 } else { u32::MAX };
    let h: u32 = if h64 <= u32::MAX as i64 { h64 as u32 } else { u32::MAX };
    DispRect { x: lo_x, y: lo_y, w, h }
}

/// The crop-indicator rectangle drawn into the full pane: the crop with all
/// four fields halved, offset to the pane's horizontal origin.  A halved
/// extent of zero is drawn one pixel wide.
pub open spec fn spec_crop_indicator(crop: Crop, full_rect: DispRect) -> DispRect {
    let w = if crop.w / 2 == 0 { 1 } else { (crop.w / 2) as int };
    let h = if crop.h / 2 == 0 { 1 } else { (crop.h / 2) as int };
    DispRect {
        x: (crop.x / 2 + full_rect.x) as i32,
        y: (crop.y / 2) as i32,
        w: w as u32,
        h: h as u32,
    }
}

/// The crop-indicator rectangle drawn into the full pane.
pub fn crop_indicator_rect(crop: Crop, full_rect: DispRect) -> (r: DispRect)
    requires
        0 <= full_rect.x <= 1000000,
    ensures
        r == spec_crop_indicator(crop, full_rect),
{
    let hw: u16 = crop.w / 2;
    let hh: u16 = crop.h / 2;
    DispRect {
        x: (crop.x / 2) as i32 + full_rect.x,
        y: (crop.y / 2) as i32,
        w: if hw == 0 { 1 } else { hw as u32 },
        h: if hh == 0 { 1 } else { hh as u32 },
    }
}

/// The source rectangle for the zoom pane's blit: the whole frame when the
/// crop is the full crop, otherwise the crop itself.
pub fn zoom_blit_source(crop: Crop) -> (r: Option<Crop>)
    ensures
        r == (if crop == spec_full_crop() {
            Option::<Crop>::None
        } else {
            Option::<Crop>::Some(crop)
        }),
{
    if crop.x == 0 && crop.y == 0 && crop.w == WIDTH && crop.h == HEIGHT {
        None
    } else {
        Some(crop)
    }
}

} // verus!
