use vstd::prelude::*;
use crate::rng::{rng_u64, xorshift};

verus! {

/// Width of the band in which a target's position may be drawn along one
/// axis of length `extent`, keeping `margin` free on both sides (at least 1).
pub open spec fn spawn_span(extent: int, margin: int) -> int {
    if extent - 2 * margin >= 1 {
        extent - 2 * margin
    } else {
        1
    }
}

/// Whether the spawn arithmetic stays within `i32` for this area and radius.
pub open spec fn spawn_fits(aim_w: i32, aim_h: i32, r: i32) -> bool {
    let m = r + 4;
    &&& i32::MIN <= 2 * m <= i32::MAX
    &&& i32::MIN <= aim_w - 2 * m <= i32::MAX
    &&& i32::MIN <= aim_h - 2 * m <= i32::MAX
    &&& m + spawn_span(aim_w as int, m) - 1 <= i32::MAX
    &&& m + spawn_span(aim_h as int, m) - 1 <= i32::MAX
}

/// Draws the centre of a new click target of radius `r` in an area of
/// `aim_w` by `aim_h` pixels on an integer pixel grid: each coordinate is the
/// margin `r + 4` plus the next generator output reduced modulo the span
/// (x first, then y). The program in `app/` places its click targets with
/// floating-point draws instead (see `frame::click_frame`) and does not call
/// this placement.
pub fn spawn_point(rng: &mut u64, aim_w: i32, aim_h: i32, r: i32) -> (p: (i32, i32))
    requires
        spawn_fits(aim_w, aim_h, r),
    ensures
        *final(rng) == xorshift(xorshift(*old(rng))),
        p.0 == (r + 4) + xorshift(*old(rng)) as int % spawn_span(aim_w as int, r + 4),
        p.1 == (r + 4) + xorshift(xorshift(*old(rng))) as int % spawn_span(aim_h as int, r + 4),
{
    let margin = r + 4;
    let dw = aim_w - 2 * margin;
    let dh = aim_h - 2 * margin;
    let span_w: u64 = if dw >= 1 { dw as u64 } else { 1 };
    let span_h: u64 = if dh >= 1 { dh as u64 } else { 1 };
    let a = rng_u64(rng);
    let ox = (a % span_w) as i32;
    let rx = margin + ox;
    let b = rng_u64(rng);
    let oy = (b % span_h) as i32;
    let ry = margin + oy;
    (rx, ry)
}

/// Law: a drawn point lies within the margin band on both axes, and, when the
/// area is wider and taller than twice the margin, the whole target lies
/// inside the area.
pub proof fn lemma_spawn_point_in_area(seed: u64, aim_w: i32, aim_h: i32, r: i32)
    requires
        spawn_fits(aim_w, aim_h, r),
        r >= 0,
    ensures
        ({
            let m = r + 4;
            let x = m + xorshift(seed) as int % spawn_span(aim_w as int, m);
            let y = m + xorshift(xorshift(seed)) as int % spawn_span(aim_h as int, m);
            &&& m <= x < m + spawn_span(aim_w as int, m)
            &&& m <= y < m + spawn_span(aim_h as int, m)
            &&& aim_w - 2 * m >= 1 ==> 0 <= x - r && x + r < aim_w
            &&& aim_h - 2 * m >= 1 ==> 0 <= y - r && y + r < aim_h
        }),
{
}

} // verus!
