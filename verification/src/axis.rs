//! The arithmetic of one scroll axis.
//!
//! Everything here speaks of a single axis: a window of length `viewport`
//! over content of length `content`, with the window's near edge at `origin`.
//! A window may have a negative length: that of a box whose padding exceeds
//! it. The spec functions are over `int`; the executable functions compute
//! them in 128-bit arithmetic on the ranges the controller can reach.
use vstd::prelude::*;
use crate::rounding::div_ceil;
use crate::rounding::div_floor;
use crate::rounding::ceil_div;
use crate::rounding::floor_div;
use crate::rounding::lemma_div_ceil_magnitude;
use crate::rounding::lemma_div_floor_magnitude;
use crate::rounding::lemma_div_ceil_ordered;
use crate::rounding::lemma_div_ceil_monotone;
use crate::rounding::lemma_div_ceil_multiple;

verus! {

/// Minimum length of the horizontal thumb, in pixels.
pub const SCROLLBAR_MIN_SIZE: i32 = 10;

/// Largest magnitude of a box extent once padding is taken off: a 32-bit box
/// extent less two 16-bit paddings.
pub const EXTENT_LIMIT: i64 = 0x8001_0000;

/// The square of `EXTENT_LIMIT`, which bounds the length of a thumb.
pub const SQUARE_LIMIT: i64 = 0x4001_0001_0000_0000;

/// The valid origin nearest to `candidate`: `0` when the window is at least as
/// long as the content, else `candidate` held within `[0, content - viewport]`.
pub open spec fn clamp_origin(candidate: int, content: int, viewport: int) -> int {
    if viewport >= content {
        0
    } else if candidate > content - viewport {
        content - viewport
    } else if candidate < 0 {
        0
    } else {
        candidate
    }
}

/// Whether the axis shows a scrollbar: only when the content is longer than
/// the window.
pub open spec fn has_bar(content: int, viewport: int) -> bool {
    viewport < content
}

/// Length of the thumb: the visible share of the content applied to the
/// window, rounded up, and never below `minimum`. Content of no length has no
/// share to show: the thumb then has its minimum length.
pub open spec fn thumb_length(content: int, viewport: int, minimum: int) -> int {
    let natural = if content != 0 {
        div_ceil(viewport * viewport, content)
    } else {
        minimum
    };
    if natural >= minimum {
        natural
    } else {
        minimum
    }
}

/// Distance of the thumb from the start of its track: the scrolled share of
/// the scrollable range applied to the thumb's room to move, rounded up.
pub open spec fn thumb_offset(room: int, origin: int, content: int, viewport: int) -> int {
    div_ceil(room * origin, content - viewport)
}

/// How far `val` lies outside `[lo, hi]`, signed; `0` when it is inside.
pub open spec fn edge_delta(val: int, lo: int, hi: int) -> int {
    if lo < val < hi {
        0
    } else if val <= lo {
        val - lo
    } else {
        val - hi
    }
}

/// Absolute value.
pub open spec fn magnitude(d: int) -> int {
    if d < 0 {
        -d
    } else {
        d
    }
}

/// The length of the target span from `start` to `end` that a window of
/// signed length `window` shows: the span's own signed length, or the
/// window's if that is smaller.
pub open spec fn shown_length(start: int, end: int, window: int) -> int {
    if end - start <= window {
        end - start
    } else {
        window
    }
}

/// The shift of a window that brings the target span into it. The window
/// covers `[lo, hi]` and has the signed length `window`, which is `hi - lo`
/// unless the window is inverted. The span starts at `start` and is cut to
/// `shown_length`; of the shifts that its two edges ask for, the one of larger
/// magnitude is taken.
pub open spec fn pan_delta(start: int, end: int, lo: int, hi: int, window: int) -> int {
    let stop = start + shown_length(start, end, window);
    let near = if start <= stop { start } else { stop };
    let far = if start <= stop { stop } else { start };
    let by_near = edge_delta(near, lo, hi);
    let by_far = edge_delta(far, lo, hi);
    if magnitude(by_near) > magnitude(by_far) {
        by_near
    } else {
        by_far
    }
}

/// Candidate origin while the thumb is dragged: pointer travel along the track
/// is scaled by `content / viewport`, rounded down, and added to the origin at
/// which the drag began. This holds for a window of negative length too. A
/// window of no length maps no travel.
pub open spec fn drag_target(start: int, travel: int, content: int, viewport: int) -> int {
    if viewport != 0 {
        start + div_floor(travel * content, viewport)
    } else {
        start
    }
}

/// Candidate origin for a click on the track at `pos`: the content coordinate
/// that `pos` maps to, less half the window, each rounded down, so that the
/// thumb centers on the click. This holds for a window of negative length
/// too. A window of no length leaves the origin at `current`.
pub open spec fn jump_target(pos: int, current: int, content: int, viewport: int) -> int {
    if viewport != 0 {
        div_floor(pos * content, viewport) - div_floor(viewport, 2)
    } else {
        current
    }
}

/// When the content is at least as long as a window of positive length, the
/// clamped origin lies in `[0, content - viewport]`.
pub proof fn lemma_clamp_in_range(candidate: int, content: int, viewport: int)
    requires
        content >= viewport > 0,
    ensures
        0 <= clamp_origin(candidate, content, viewport) <= content - viewport,
{
}

/// Clamping is idempotent.
pub proof fn lemma_clamp_idempotent(candidate: int, content: int, viewport: int)
    ensures
        clamp_origin(clamp_origin(candidate, content, viewport), content, viewport)
            == clamp_origin(candidate, content, viewport),
{
}

/// When the window is at least as long as the content, every candidate clamps
/// to origin `0`.
pub proof fn lemma_clamp_pinned(candidate: int, content: int, viewport: int)
    requires
        viewport >= content,
    ensures
        clamp_origin(candidate, content, viewport) == 0,
{
}

/// A candidate that is already a valid origin is left where it is.
pub proof fn lemma_clamp_fixes_valid(candidate: int, content: int, viewport: int)
    requires
        viewport < content,
        0 <= candidate <= content - viewport,
    ensures
        clamp_origin(candidate, content, viewport) == candidate,
{
}

/// The clamped origin is the valid origin nearest to the candidate.
pub proof fn lemma_clamp_nearest(candidate: int, content: int, viewport: int, other: int)
    requires
        viewport < content,
        0 <= other <= content - viewport,
    ensures
        magnitude(clamp_origin(candidate, content, viewport) - candidate) <= magnitude(
            other - candidate,
        ),
{
}

/// The thumb is never shorter than the configured minimum.
pub proof fn lemma_thumb_length_at_least_minimum(content: int, viewport: int, minimum: int)
    ensures
        thumb_length(content, viewport, minimum) >= minimum,
{
}

/// For one minimum, the thumb length does not decrease as the visible share
/// `viewport / content` grows, so long as the window does not shrink. The two
/// shares are compared cross-multiplied.
pub proof fn lemma_thumb_length_monotone(
    content_a: int,
    viewport_a: int,
    content_b: int,
    viewport_b: int,
    minimum: int,
)
    requires
        0 <= viewport_a <= viewport_b,
        has_bar(content_a, viewport_a),
        has_bar(content_b, viewport_b),
        viewport_a * content_b <= viewport_b * content_a,
    ensures
        thumb_length(content_a, viewport_a, minimum) <= thumb_length(
            content_b,
            viewport_b,
            minimum,
        ),
{
    assert((viewport_a * viewport_a) * content_b <= (viewport_a * viewport_b) * content_a)
        by (nonlinear_arith)
        requires
            0 <= viewport_a,
            viewport_a * content_b <= viewport_b * content_a,
    ;
    assert((viewport_a * viewport_b) * content_a <= (viewport_b * viewport_b) * content_a)
        by (nonlinear_arith)
        requires
            0 <= viewport_a <= viewport_b,
            0 < content_a,
    ;
    lemma_div_ceil_ordered(viewport_a * viewport_a, content_a, viewport_b * viewport_b, content_b);
}

/// Where a bar shows, the thumb's natural length lies in `[0, viewport]`.
pub proof fn lemma_natural_length_range(content: int, viewport: int)
    requires
        0 <= viewport < content,
    ensures
        0 <= div_ceil(viewport * viewport, content) <= viewport,
{
    assert(0 <= viewport * viewport <= viewport * content) by (nonlinear_arith)
        requires
            0 <= viewport < content,
    ;
    lemma_div_ceil_multiple(0, content);
    lemma_div_ceil_monotone(0, viewport * viewport, content);
    lemma_div_ceil_monotone(viewport * viewport, viewport * content, content);
    lemma_div_ceil_multiple(viewport, content);
}

/// The thumb moves within its room: at origin `0` it sits at the start of the
/// track, and for a valid origin its offset lies between `0` and `room`.
pub proof fn lemma_thumb_offset_range(room: int, origin: int, content: int, viewport: int)
    requires
        viewport < content,
        0 <= origin <= content - viewport,
    ensures
        thumb_offset(room, 0, content, viewport) == 0,
        thumb_offset(room, content - viewport, content, viewport) == room,
        room >= 0 ==> 0 <= thumb_offset(room, origin, content, viewport) <= room,
        room <= 0 ==> room <= thumb_offset(room, origin, content, viewport) <= 0,
{
    let range = content - viewport;
    assert(room * 0 == 0) by (nonlinear_arith);
    lemma_div_ceil_multiple(0, range);
    lemma_div_ceil_multiple(room, range);
    if room >= 0 {
        assert(0 <= room * origin <= room * range) by (nonlinear_arith)
            requires
                room >= 0,
                0 <= origin <= range,
        ;
        lemma_div_ceil_monotone(0, room * origin, range);
        lemma_div_ceil_monotone(room * origin, room * range, range);
    } else {
        assert(room * range <= room * origin <= 0) by (nonlinear_arith)
            requires
                room < 0,
                0 <= origin <= range,
        ;
        lemma_div_ceil_monotone(room * origin, 0, range);
        lemma_div_ceil_monotone(room * range, room * origin, range);
    }
}

/// A target span that already lies within a window that is not inverted asks
/// for no shift.
pub proof fn lemma_pan_delta_zero_inside(start: int, end: int, lo: int, hi: int)
    requires
        lo <= hi,
        lo <= start <= hi,
        lo <= end <= hi,
    ensures
        pan_delta(start, end, lo, hi, hi - lo) == 0,
{
}

/// Whatever the window's signed length, a target span asks for no shift where
/// both it and its shown part lie within the window.
pub proof fn lemma_pan_delta_zero_shown_inside(
    start: int,
    end: int,
    lo: int,
    hi: int,
    window: int,
)
    requires
        lo <= hi,
        lo <= start <= hi,
        lo <= start + shown_length(start, end, window) <= hi,
    ensures
        pan_delta(start, end, lo, hi, window) == 0,
{
}

/// For a span that runs forward, the shift is `0` where the shown part lies
/// within the window, `start - lo` where it begins before the window, and
/// what is left beyond `hi` where it ends after it.
pub proof fn lemma_pan_delta_cases(start: int, end: int, lo: int, hi: int)
    requires
        lo <= hi,
        start <= end,
    ensures
        ({
            let d = pan_delta(start, end, lo, hi, hi - lo);
            let stop = start + shown_length(start, end, hi - lo);
            &&& lo <= start && stop <= hi ==> d == 0
            &&& start < lo ==> d == start - lo
            &&& hi < stop ==> d == stop - hi
        }),
{
}

/// For a span that runs forward and a window `[lo, hi]`, the shift brings the
/// shown part of the span into the shifted window, and no shift of smaller
/// magnitude does.
pub proof fn lemma_pan_delta_minimal(start: int, end: int, lo: int, hi: int, other: int)
    requires
        lo <= hi,
        start <= end,
    ensures
        ({
            let d = pan_delta(start, end, lo, hi, hi - lo);
            let stop = start + shown_length(start, end, hi - lo);
            &&& lo + d <= start
            &&& stop <= hi + d
            &&& (lo + other <= start && stop <= hi + other) ==> magnitude(d) <= magnitude(other)
        }),
{
}

/// The thumb's length is at least the minimum and, unless it is the minimum,
/// no larger in magnitude than the square of the window's length.
pub proof fn lemma_thumb_length_range(content: int, viewport: int, minimum: int)
    requires
        -EXTENT_LIMIT <= viewport <= EXTENT_LIMIT,
    ensures
        minimum <= thumb_length(content, viewport, minimum),
        -SQUARE_LIMIT <= thumb_length(content, viewport, minimum) || thumb_length(
            content,
            viewport,
            minimum,
        ) == minimum,
        thumb_length(content, viewport, minimum) <= SQUARE_LIMIT || thumb_length(
            content,
            viewport,
            minimum,
        ) == minimum,
{
    assert(0 <= viewport * viewport <= 0x4001_0001_0000_0000) by (nonlinear_arith)
        requires
            -0x8001_0000 <= viewport <= 0x8001_0000,
    ;
    if content != 0 {
        lemma_div_ceil_magnitude(viewport * viewport, content);
    }
}

/// The clamped origin, computed.
pub(crate) fn clamp_axis(candidate: i128, content: i32, viewport: i64) -> (origin: i64)
    requires
        -EXTENT_LIMIT <= viewport <= EXTENT_LIMIT,
    ensures
        origin == clamp_origin(candidate as int, content as int, viewport as int),
        0 <= origin <= 0x1_8001_0000,
        has_bar(content as int, viewport as int) ==> origin <= content - viewport,
        !has_bar(content as int, viewport as int) ==> origin == 0,
{
    if viewport >= content as i64 {
        0
    } else {
        let limit: i64 = content as i64 - viewport;
        if candidate > limit as i128 {
            limit
        } else if candidate < 0 {
            0
        } else {
            candidate as i64
        }
    }
}

/// The thumb length, computed.
pub(crate) fn thumb_length_of(content: i32, viewport: i64, minimum: i32) -> (length: i64)
    requires
        -EXTENT_LIMIT <= viewport <= EXTENT_LIMIT,
    ensures
        length == thumb_length(content as int, viewport as int, minimum as int),
        -SQUARE_LIMIT <= length <= SQUARE_LIMIT,
{
    proof {
        lemma_thumb_length_range(content as int, viewport as int, minimum as int);
        assert(0 <= viewport * viewport <= 0x4001_0001_0000_0000) by (nonlinear_arith)
            requires
                -0x8001_0000 <= viewport <= 0x8001_0000,
        ;
        if content != 0 {
            lemma_div_ceil_magnitude(viewport * viewport, content as int);
        }
    }
    if content == 0 {
        minimum as i64
    } else {
        let square: i128 = (viewport as i128) * (viewport as i128);
        let natural: i128 = ceil_div(square, content as i128);
        if natural >= minimum as i128 {
            natural as i64
        } else {
            minimum as i64
        }
    }
}

/// The thumb offset, computed.
pub(crate) fn thumb_offset_of(room: i64, origin: i64, content: i32, viewport: i64) -> (offset: i64)
    requires
        has_bar(content as int, viewport as int),
        -EXTENT_LIMIT <= viewport <= EXTENT_LIMIT,
        0 <= origin <= content - viewport,
        -0x4002_0000_0000_0000 <= room <= 0x4002_0000_0000_0000,
    ensures
        offset == thumb_offset(room as int, origin as int, content as int, viewport as int),
        room >= 0 ==> 0 <= offset <= room,
        room <= 0 ==> room <= offset <= 0,
{
    proof {
        lemma_thumb_offset_range(room as int, origin as int, content as int, viewport as int);
        assert(-0x4002_0000_0000_0000 * 0x2_0000_0000 <= room * origin <= 0x4002_0000_0000_0000
            * 0x2_0000_0000) by (nonlinear_arith)
            requires
                -0x4002_0000_0000_0000 <= room <= 0x4002_0000_0000_0000,
                0 <= origin <= 0x2_0000_0000,
        ;
    }
    let scaled: i128 = (room as i128) * (origin as i128);
    let offset: i128 = ceil_div(scaled, content as i128 - viewport as i128);
    offset as i64
}

/// The shift that brings a target span into the window, computed.
pub(crate) fn pan_axis(start: i64, end: i64, edge0: i64, edge1: i64) -> (delta: i128)
    ensures
        delta == pan_delta(
            start as int,
            end as int,
            (if edge0 <= edge1 { edge0 } else { edge1 }) as int,
            (if edge0 <= edge1 { edge1 } else { edge0 }) as int,
            edge1 - edge0,
        ),
{
    let lo: i64 = if edge0 <= edge1 { edge0 } else { edge1 };
    let hi: i64 = if edge0 <= edge1 { edge1 } else { edge0 };
    let span: i128 = end as i128 - start as i128;
    let window: i128 = edge1 as i128 - edge0 as i128;
    let shown: i128 = if span <= window { span } else { window };
    let stop: i128 = start as i128 + shown;
    let near: i128 = if start as i128 <= stop { start as i128 } else { stop };
    let far: i128 = if start as i128 <= stop { stop } else { start as i128 };
    let by_near: i128 = edge_delta_of(near, lo, hi);
    let by_far: i128 = edge_delta_of(far, lo, hi);
    let size_near: i128 = if by_near < 0 { -by_near } else { by_near };
    let size_far: i128 = if by_far < 0 { -by_far } else { by_far };
    if size_near > size_far {
        by_near
    } else {
        by_far
    }
}

/// The signed distance of `val` from the window, computed.
fn edge_delta_of(val: i128, lo: i64, hi: i64) -> (delta: i128)
    requires
        lo <= hi,
        -0x4_0000_0000_0000_0000 <= val <= 0x4_0000_0000_0000_0000,
    ensures
        delta == edge_delta(val as int, lo as int, hi as int),
        -0x8_0000_0000_0000_0000 <= delta <= 0x8_0000_0000_0000_0000,
{
    if val > lo as i128 && val < hi as i128 {
        0
    } else if val <= lo as i128 {
        val - lo as i128
    } else {
        val - hi as i128
    }
}

/// The drag candidate, computed.
pub(crate) fn drag_axis(start: i64, anchor: i64, pos: i64, content: i32, viewport: i64) -> (target:
    i128)
    requires
        -EXTENT_LIMIT <= viewport <= EXTENT_LIMIT,
    ensures
        target == drag_target(start as int, pos - anchor, content as int, viewport as int),
{
    if viewport != 0 {
        let travel: i128 = pos as i128 - anchor as i128;
        proof {
            assert(-0x2_0000_0000_0000_0000 * 0x1_0000_0000 <= travel * content
                <= 0x2_0000_0000_0000_0000 * 0x1_0000_0000) by (nonlinear_arith)
                requires
                    -0x2_0000_0000_0000_0000 <= travel <= 0x2_0000_0000_0000_0000,
                    -0x1_0000_0000 <= content <= 0x1_0000_0000,
            ;
            lemma_div_floor_magnitude(
                travel * content,
                viewport as int,
                0x2_0000_0000_0000_0000int * 0x1_0000_0000int,
            );
        }
        let scaled: i128 = floor_div(travel * (content as i128), viewport as i128);
        start as i128 + scaled
    } else {
        start as i128
    }
}

/// The track-click candidate, computed.
pub(crate) fn jump_axis(pos: i64, current: i64, content: i32, viewport: i64) -> (target: i128)
    requires
        -EXTENT_LIMIT <= viewport <= EXTENT_LIMIT,
    ensures
        target == jump_target(pos as int, current as int, content as int, viewport as int),
{
    if viewport != 0 {
        proof {
            assert(-0x1_0000_0000_0000_0000 * 0x1_0000_0000 <= pos * content
                <= 0x1_0000_0000_0000_0000 * 0x1_0000_0000) by (nonlinear_arith)
                requires
                    -0x1_0000_0000_0000_0000 <= pos <= 0x1_0000_0000_0000_0000,
                    -0x1_0000_0000 <= content <= 0x1_0000_0000,
            ;
            lemma_div_floor_magnitude(
                pos * content,
                viewport as int,
                0x1_0000_0000_0000_0000int * 0x1_0000_0000int,
            );
        }
        let mapped: i128 = floor_div((pos as i128) * (content as i128), viewport as i128);
        let half: i128 = floor_div(viewport as i128, 2);
        mapped - half
    } else {
        current as i128
    }
}

} // verus!
