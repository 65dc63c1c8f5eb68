//! Crop-update policy: pure functions that turn a gesture into a candidate
//! crop rectangle, clamped to frame bounds.
//!
//! Every operation takes and returns plain crop values; none performs I/O.
//! Clamping only ever translates a rectangle, never resizes it; zooming out
//! past the full frame snaps exactly to the full crop; the rubber-band
//! mapping mirrors the drag into a centered, doubled rectangle whose aspect
//! ratio is forced to exactly `ASPECT_W : ASPECT_H`.

use vstd::prelude::*;

use crate::geometry::Crop;
use crate::geometry::DispRect;
use crate::geometry::FrameRect;
use crate::geometry::spec_contains_rect;
use crate::geometry::spec_full_crop;
use crate::geometry::tdiv;
use crate::geometry::scale_point_from_window;
use crate::geometry::contains_rect;
use crate::geometry::full_crop;
use crate::geometry::ASPECT_H;
use crate::geometry::ASPECT_W;
use crate::geometry::HEIGHT;
use crate::geometry::WIDTH;
use crate::geometry::WIN_HEIGHT;
use crate::geometry::WIN_WIDTH;

verus! {

/// Zoom factor numerator: one wheel step scales the crop by
/// `ZOOM_NUM / ZOOM_DEN` (zooming in); a step the other way scales by the
/// reciprocal.
pub const ZOOM_NUM: u32 = 9;

/// Zoom factor denominator.
pub const ZOOM_DEN: u32 = 10;

/// `v` clamped into `[lo, hi]`.
pub open spec fn clamp_i(v: int, lo: int, hi: int) -> int
    recommends
        lo <= hi,
{
    if v < lo {
        lo
    } else if v > hi {
        hi
    } else {
        v
    }
}

/// The candidate rectangle translated — never resized — so that it lies
/// within the frame.
pub open spec fn spec_clamp(r: FrameRect) -> Crop
    recommends
        1 <= r.w <= WIDTH,
        1 <= r.h <= HEIGHT,
{
    Crop {
        x: clamp_i(r.x as int, 0, WIDTH - r.w) as u16,
        y: clamp_i(r.y as int, 0, HEIGHT - r.h) as u16,
        w: r.w,
        h: r.h,
    }
}

/// Translates the candidate rectangle, without resizing it, so that it lies
/// within the frame.
pub fn clamp_to_bounds(r: FrameRect) -> (c: Crop)
    requires
        1 <= r.w <= WIDTH,
        1 <= r.h <= HEIGHT,
    ensures
        c == spec_clamp(r),
        c.valid(),
        c.w == r.w,
        c.h == r.h,
{
    let hi_x: i32 = (WIDTH - r.w) as i32;
    let hi_y: i32 = (HEIGHT - r.h) as i32;
    let x: u16 = if r.x < 0 {
        0
    } else if r.x > hi_x {
        hi_x as u16
    } else {
        r.x as u16
    };
    let y: u16 = if r.y < 0 {
        0
    } else if r.y > hi_y {
        hi_y as u16
    } else {
        r.y as u16
    };
    Crop { x, y, w: r.w, h: r.h }
}

/// A valid crop is left exactly as it is by clamping: clamping is the
/// identity on rectangles already within the frame.
pub proof fn lemma_clamp_valid_identity(c: Crop)
    requires
        c.valid(),
    ensures
        spec_clamp(FrameRect { x: c.x as i32, y: c.y as i32, w: c.w, h: c.h }) == c,
{
}

/// Clamping keeps the rectangle's extent and yields a crop that lies fully
/// within the frame.
pub proof fn lemma_clamp_within_bounds(r: FrameRect)
    requires
        1 <= r.w <= WIDTH,
        1 <= r.h <= HEIGHT,
    ensures
        spec_clamp(r).w == r.w,
        spec_clamp(r).h == r.h,
        spec_clamp(r).valid(),
{
}

/// The crop translated by the given frame-space delta, clamped to bounds.
pub open spec fn spec_pan(c: Crop, dx: int, dy: int) -> Crop
    recommends
        c.valid(),
{
    Crop {
        x: clamp_i(c.x + dx, 0, WIDTH - c.w) as u16,
        y: clamp_i(c.y + dy, 0, HEIGHT - c.h) as u16,
        w: c.w,
        h: c.h,
    }
}

/// Translates the crop by the given frame-space delta and clamps to bounds;
/// the extent never changes.
pub fn pan(c: Crop, dx: i32, dy: i32) -> (r: Crop)
    requires
        c.valid(),
    ensures
        r == spec_pan(c, dx as int, dy as int),
        r.valid(),
        r.w == c.w,
        r.h == c.h,
{
    let hi_x: i64 = (WIDTH - c.w) as i64;
    let hi_y: i64 = (HEIGHT - c.h) as i64;
    let nx: i64 = c.x as i64 + dx as i64;
    let ny: i64 = c.y as i64 + dy as i64;
    let x: u16 = if nx < 0 {
        0
    } else if nx > hi_x {
        hi_x as u16
    } else {
        nx as u16
    };
    let y: u16 = if ny < 0 {
        0
    } else if ny > hi_y {
        hi_y as u16
    } else {
        ny as u16
    };
    Crop { x, y, w: c.w, h: c.h }
}

/// The crop scaled by `num / den` and recentered on the anchor, clamped to
/// bounds; a result at least as large as the frame in either direction snaps
/// exactly to the full crop, and a scaled extent of zero is kept at one.
pub open spec fn spec_zoom(c: Crop, anchor: (int, int), num: int, den: int) -> Crop
    recommends
        c.valid(),
        num >= 1,
        den >= 1,
{
    let nw = c.w * num / den;
    let nh = c.h * num / den;
    if nw >= WIDTH || nh >= HEIGHT {
        spec_full_crop()
    } else {
        let cw = if nw == 0 { 1 } else { nw };
        let ch = if nh == 0 { 1 } else { nh };
        Crop {
            x: clamp_i(anchor.0 - cw / 2, 0, WIDTH - cw) as u16,
            y: clamp_i(anchor.1 - ch / 2, 0, HEIGHT - ch) as u16,
            w: cw as u16,
            h: ch as u16,
        }
    }
}

/// Scales the crop's extent by `num / den` (truncating), recenters it on the
/// anchor and clamps to bounds.  Zooming out to or past the frame size does
/// not overshoot: it yields exactly the full crop.
pub fn zoom(c: Crop, anchor: (i32, i32), num: u32, den: u32) -> (r: Crop)
    requires
        c.valid(),
        num >= 1,
        den >= 1,
    ensures
        r == spec_zoom(c, (anchor.0 as int, anchor.1 as int), num as int, den as int),
        r.valid(),
{
    proof {
        assert(c.w as int * num as int <= 65535 * 4294967295 && c.h as int * num as int <= 65535
            * 4294967295) by (nonlinear_arith)
            requires
                0 <= c.w <= 65535,
                0 <= c.h <= 65535,
                0 <= num <= 4294967295,
        ;
    }
    let nw: u64 = c.w as u64 * num as u64 / den as u64;
    let nh: u64 = c.h as u64 * num as u64 / den as u64;
    if nw >= WIDTH as u64 || nh >= HEIGHT as u64 {
        full_crop()
    } else {
        let cw: u16 = if nw == 0 { 1 } else { nw as u16 };
        let ch: u16 = if nh == 0 { 1 } else { nh as u16 };
        let hi_x: i64 = (WIDTH - cw) as i64;
        let hi_y: i64 = (HEIGHT - ch) as i64;
        let nx: i64 = anchor.0 as i64 - (cw / 2) as i64;
        let ny: i64 = anchor.1 as i64 - (ch / 2) as i64;
        let x: u16 = if nx < 0 {
            0
        } else if nx > hi_x {
            hi_x as u16
        } else {
            nx as u16
        };
        let y: u16 = if ny < 0 {
            0
        } else if ny > hi_y {
            hi_y as u16
        } else {
            ny as u16
        };
        Crop { x, y, w: cw, h: ch }
    }
}

/// The crop after `n` zoom steps with the same anchor and factor.
pub open spec fn iter_zoom(c: Crop, anchor: (int, int), num: int, den: int, n: nat) -> Crop
    decreases n,
{
    if n == 0 {
        c
    } else {
        iter_zoom(spec_zoom(c, anchor, num, den), anchor, num, den, (n - 1) as nat)
    }
}

/// Repeated zooming out — scaling by the reciprocal of a factor below one —
/// eventually yields exactly the full crop, not an overshot rectangle.
///
/// The crop must be wide enough that a truncated step still grows it:
/// `c.w * (num - den) >= den`.
pub proof fn lemma_repeated_zoom_out_reaches_full(c: Crop, anchor: (int, int), num: int, den: int)
    requires
        c.valid(),
        den >= 1,
        num > den,
        c.w * (num - den) >= den,
    ensures
        exists|n: nat| iter_zoom(c, anchor, num, den, n) == spec_full_crop(),
    decreases WIDTH - c.w,
{
    let nw = c.w * num / den;
    let nh = c.h * num / den;
    if nw >= WIDTH || nh >= HEIGHT {
        let c1 = spec_zoom(c, anchor, num, den);
        assert(iter_zoom(c1, anchor, num, den, 0) == c1);
        assert(iter_zoom(c, anchor, num, den, 1) == iter_zoom(c1, anchor, num, den, 0));
    } else {
        let c2 = spec_zoom(c, anchor, num, den);
        assert(c.w * num >= (c.w + 1) * den) by (nonlinear_arith)
            requires
                c.w * (num - den) >= den,
        ;
        assert(nw >= c.w + 1) by {
            vstd::arithmetic::div_mod::lemma_div_is_ordered((c.w + 1) * den, c.w * num, den);
            vstd::arithmetic::div_mod::lemma_div_by_multiple(c.w + 1, den);
        }
        assert(c2.w == nw && c2.valid());
        assert(c2.w * (num - den) >= c.w * (num - den)) by (nonlinear_arith)
            requires
                c2.w >= c.w,
                num - den >= 1,
                c.w >= 0,
        ;
        lemma_repeated_zoom_out_reaches_full(c2, anchor, num, den);
        let n2 = choose|n: nat| iter_zoom(c2, anchor, num, den, n) == spec_full_crop();
        assert(iter_zoom(c, anchor, num, den, n2 + 1) == iter_zoom(c2, anchor, num, den, n2));
    }
}

/// Ceiling division for non-negative operands.
pub open spec fn ceil_div(a: int, b: int) -> int
    recommends
        a >= 0,
        b >= 1,
{
    (a + b - 1) / b
}

/// The crop derived from a rubber-band drag.
///
/// Both the drag rectangle's origin and its extent are mapped from the pane's
/// display space into the reference window's frame space; the candidate crop
/// is centered at the mapped origin plus the mapped extent, its linear extent
/// is double the smallest exact-aspect rectangle at least as large as the
/// mapped extent in both axes, and the result is clamped to bounds.
pub open spec fn spec_rubber_band(rw: Crop, preview: DispRect, pane: DispRect) -> Crop
    recommends
        rw.valid(),
        spec_contains_rect(pane, preview),
        pane.w == WIN_WIDTH,
        pane.h == WIN_HEIGHT,
{
    let fx = tdiv((preview.x - pane.x) * rw.w, WIN_WIDTH as int) + rw.x;
    let fy = tdiv((preview.y - pane.y) * rw.h, WIN_HEIGHT as int) + rw.y;
    let sw = preview.w * rw.w / (WIDTH as int);
    let sh = preview.h * rw.h / (HEIGHT as int);
    let t_w = ceil_div(sw, ASPECT_W as int);
    let t_h = ceil_div(sh, ASPECT_H as int);
    let t = if t_w >= t_h { t_w } else { t_h };
    let cw = if t == 0 { 1 } else { 2 * ASPECT_W * t };
    let ch = if t == 0 { 1 } else { 2 * ASPECT_H * t };
    Crop {
        x: clamp_i(fx + sw - cw / 2, 0, WIDTH - cw) as u16,
        y: clamp_i(fy + sh - ch / 2, 0, HEIGHT - ch) as u16,
        w: cw as u16,
        h: ch as u16,
    }
}

/// Derives a candidate crop from a rubber-band drag over one pane.
///
/// `rw` is the pane's reference window: the full crop for the full pane, the
/// channel's current crop for the zoom pane.  The result's aspect ratio is
/// exactly `ASPECT_W : ASPECT_H` whenever the mapped drag has any extent.
pub fn rubber_band(rw: Crop, preview: DispRect, pane: DispRect) -> (r: Crop)
    requires
        rw.valid(),
        spec_contains_rect(pane, preview),
        pane.w == WIN_WIDTH,
        pane.h == WIN_HEIGHT,
        0 <= pane.x <= 1000000,
        0 <= pane.y <= 1000000,
    ensures
        r == spec_rubber_band(rw, preview, pane),
        r.valid(),
        ({
            let sw = preview.w * rw.w / (WIDTH as int);
            let sh = preview.h * rw.h / (HEIGHT as int);
            (sw > 0 || sh > 0) ==> r.w * ASPECT_H == r.h * ASPECT_W && r.w >= 2 * sw && r.h >= 2
                * sh
        }),
{
    let (fx, fy) = scale_point_from_window(
        (pane.x, pane.y),
        (preview.x, preview.y),
        rw.w as i32,
        rw.h as i32,
        rw.x as i32,
        rw.y as i32,
    );
    proof {
        assert(preview.w <= WIN_WIDTH && preview.h <= WIN_HEIGHT);
        assert(preview.w * rw.w <= WIN_WIDTH * WIDTH) by (nonlinear_arith)
            requires
                0 <= preview.w <= WIN_WIDTH,
                0 <= rw.w <= WIDTH,
        ;
        assert(preview.h * rw.h <= WIN_HEIGHT * HEIGHT) by (nonlinear_arith)
            requires
                0 <= preview.h <= WIN_HEIGHT,
                0 <= rw.h <= HEIGHT,
        ;
        vstd::arithmetic::div_mod::lemma_div_is_ordered(
            preview.w * rw.w,
            WIN_WIDTH * WIDTH,
            WIDTH as int,
        );
        vstd::arithmetic::div_mod::lemma_div_is_ordered(
            preview.h * rw.h,
            WIN_HEIGHT * HEIGHT,
            HEIGHT as int,
        );
        vstd::arithmetic::div_mod::lemma_div_pos_is_pos(preview.w * rw.w, WIDTH as int);
        vstd::arithmetic::div_mod::lemma_div_pos_is_pos(preview.h * rw.h, HEIGHT as int);
    }
    let sw: u32 = ((preview.w as u64 * rw.w as u64) / WIDTH as u64) as u32;
    let sh: u32 = ((preview.h as u64 * rw.h as u64) / HEIGHT as u64) as u32;
    let t_w: u32 = (sw + ASPECT_W as u32 - 1) / ASPECT_W as u32;
    let t_h: u32 = (sh + ASPECT_H as u32 - 1) / ASPECT_H as u32;
    let t: u32 = if t_w >= t_h { t_w } else { t_h };
    proof {
        vstd::arithmetic::div_mod::lemma_div_is_ordered(sw + ASPECT_W - 1, 655, ASPECT_W as int);
        vstd::arithmetic::div_mod::lemma_div_is_ordered(sh + ASPECT_H - 1, 368, ASPECT_H as int);
        assert(t <= 40);
        assert(2 * (ASPECT_W as u32) * t <= 1280 && 2 * (ASPECT_H as u32) * t <= 720) by (nonlinear_arith)
            requires
                t <= 40,
                ASPECT_W == 16,
                ASPECT_H == 9,
        ;
    }
    let cw32: u32 = 2 * ASPECT_W as u32 * t;
    let ch32: u32 = 2 * ASPECT_H as u32 * t;
    let cw: u16 = if t == 0 { 1 } else { cw32 as u16 };
    let ch: u16 = if t == 0 { 1 } else { ch32 as u16 };
    proof {
        if t > 0 {
            lemma_aspect_cover(sw as int, sh as int, t as int, t_w as int, t_h as int);
        }
    }
    let hi_x: i64 = (WIDTH - cw) as i64;
    let hi_y: i64 = (HEIGHT - ch) as i64;
    let nx: i64 = fx as i64 + sw as i64 - (cw / 2) as i64;
    let ny: i64 = fy as i64 + sh as i64 - (ch / 2) as i64;
    let x: u16 = if nx < 0 {
        0
    } else if nx > hi_x {
        hi_x as u16
    } else {
        nx as u16
    };
    let y: u16 = if ny < 0 {
        0
    } else if ny > hi_y {
        hi_y as u16
    } else {
        ny as u16
    };
    Crop { x, y, w: cw, h: ch }
}

/// The smallest exact-aspect rectangle index `t` covers the drag extent in
/// both axes.
proof fn lemma_aspect_cover(sw: int, sh: int, t: int, t_w: int, t_h: int)
    requires
        sw >= 0,
        sh >= 0,
        t_w == ceil_div(sw, ASPECT_W as int),
        t_h == ceil_div(sh, ASPECT_H as int),
        t == if t_w >= t_h { t_w } else { t_h },
        t >= 1,
    ensures
        ASPECT_W * t >= sw,
        ASPECT_H * t >= sh,
{
    vstd::arithmetic::div_mod::lemma_fundamental_div_mod(sw + ASPECT_W - 1, ASPECT_W as int);
    vstd::arithmetic::div_mod::lemma_mod_bound(sw + ASPECT_W - 1, ASPECT_W as int);
    vstd::arithmetic::div_mod::lemma_fundamental_div_mod(sh + ASPECT_H - 1, ASPECT_H as int);
    vstd::arithmetic::div_mod::lemma_mod_bound(sh + ASPECT_H - 1, ASPECT_H as int);
    assert(ASPECT_W * t_w >= sw);
    assert(ASPECT_H * t_h >= sh);
    assert(ASPECT_W * t >= ASPECT_W * t_w) by (nonlinear_arith)
        requires
            t >= t_w,
    ;
    assert(ASPECT_H * t >= ASPECT_H * t_h) by (nonlinear_arith)
        requires
            t >= t_h,
    ;
}

} // verus!

