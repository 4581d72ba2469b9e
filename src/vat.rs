//! Vertex-animation-texture playback state and texture sizing.

use vstd::prelude::*;
use crate::strategies::{FRAME_UNITS, cursor_advance, NANOS_PER_FRAME_UNIT, SPEED_SCALE, BASE_FRAME_RATE};

verus! {

/// Playback of a vertex-animation texture: the cursor in millionths of a
/// frame, the speed in thousandths, and whether it loops and is playing.
#[derive(Clone, Copy, Debug, PartialEq, Eq, Structural)]
pub struct VATAnimationState {
    pub current_frame: u64,
    pub playback_speed: u32,
    pub loop_animation: bool,
    pub is_playing: bool,
}

impl Default for VATAnimationState {
    fn default() -> (r: VATAnimationState)
        ensures
            r == (VATAnimationState { current_frame: 0, playback_speed: 1000, loop_animation: true, is_playing: true }),
    {
        VATAnimationState { current_frame: 0, playback_speed: 1000, loop_animation: true, is_playing: true }
    }
}

/// The state after a frame of `delta` nanoseconds over `total_frames`
/// frames: a looping cursor wraps, another one stops at the last frame; a
/// paused state, or one with no frames, stays.
pub open spec fn animation_advanced(s: VATAnimationState, delta: u64, total_frames: u32) -> VATAnimationState {
    if !s.is_playing || total_frames == 0 {
        s
    } else {
        let c = s.current_frame as int + cursor_advance(delta, s.playback_speed);
        let span = total_frames as int * FRAME_UNITS as int;
        VATAnimationState {
            current_frame: if s.loop_animation {
                (c % span) as u64
            } else if c < span - FRAME_UNITS as int {
                c as u64
            } else {
                (span - FRAME_UNITS as int) as u64
            },
            ..s
        }
    }
}

impl VATAnimationState {
    /// Moves the cursor on by a frame of `delta` nanoseconds.
    pub fn advance(&mut self, delta: u64, total_frames: u32)
        ensures
            *final(self) == animation_advanced(*old(self), delta, total_frames),
    {
        if !self.is_playing || total_frames == 0 {
            return;
        }
        proof {
            assert((delta as int) * (self.playback_speed as int) <= 0xffff_ffff_ffff_ffff * 0xffff_ffff)
                by (nonlinear_arith)
                requires
                    delta as int <= 0xffff_ffff_ffff_ffff,
                    self.playback_speed as int <= 0xffff_ffff,
                    delta >= 0,
                    self.playback_speed >= 0,
            ;
            assert((total_frames as int) * (FRAME_UNITS as int) <= 0xffff_ffff * 1_000_000) by (nonlinear_arith)
                requires
                    total_frames as int <= 0xffff_ffff,
            ;
        }
        let scaled: u128 = (delta as u128) * (self.playback_speed as u128);
        proof {
            let m: int = 0xffff_ffff_ffff_ffff as int * 0xffff_ffff as int;
            assert(m * 30 < 0x1_0000_0000_0000_0000_0000_0000_0000 - 0x1_0000_0000_0000_0000);
            assert(scaled as int * 30 <= m * 30) by (nonlinear_arith)
                requires
                    scaled as int <= m,
            ;
        }
        let advance: u128 = scaled * (BASE_FRAME_RATE as u128) / ((NANOS_PER_FRAME_UNIT * SPEED_SCALE) as u128);
        let span: u128 = (total_frames as u128) * (FRAME_UNITS as u128);
        let c: u128 = (self.current_frame as u128) + advance;
        if self.loop_animation {
            self.current_frame = (c % span) as u64;
        } else if c < span - (FRAME_UNITS as u128) {
            self.current_frame = c as u64;
        } else {
            self.current_frame = (span - (FRAME_UNITS as u128)) as u64;
        }
    }
}

/// `2` to the power `k`.
pub open spec fn pow2(k: nat) -> nat
    decreases k,
{
    if k == 0 {
        1
    } else {
        2 * pow2((k - 1) as nat)
    }
}

proof fn lemma_pow2_monotonic(a: nat, b: nat)
    requires
        a <= b,
    ensures
        pow2(a) <= pow2(b),
    decreases b,
{
    if a < b {
        lemma_pow2_monotonic(a, (b - 1) as nat);
    }
}

proof fn lemma_pow2_31()
    ensures
        pow2(31) == 0x8000_0000,
{
    reveal_with_fuel(pow2, 32);
}

/// `p` is the least power of two that is at least `x`.
pub open spec fn is_next_power_of_two(p: int, x: int) -> bool {
    exists|k: nat| #[trigger] pow2(k) == p && p >= x && (k == 0 || pow2((k - 1) as nat) < x)
}

/// `w` is the least integer whose square is at least `x`.
pub open spec fn is_ceil_sqrt(w: int, x: int) -> bool {
    w >= 0 && w * w >= x && (w == 0 || (w - 1) * (w - 1) < x)
}

/// The least integer whose square is at least `x`.
fn ceil_sqrt(x: u64) -> (r: u64)
    requires
        x <= 0x4000_0000_0000_0000,
    ensures
        is_ceil_sqrt(r as int, x as int),
        r <= 0x8000_0000,
{
    let mut lo: u64 = 0;
    let mut hi: u64 = 0x8000_0000;
    assert(0x8000_0000 * 0x8000_0000 == 0x4000_0000_0000_0000);
    while lo < hi
        invariant
            lo <= hi <= 0x8000_0000,
            hi * hi >= x,
            lo == 0 || (lo - 1) * (lo - 1) < x,
        decreases hi - lo,
    {
        let mid = lo + (hi - lo) / 2;
        proof {
            assert(mid * mid <= 0x8000_0000 * 0x8000_0000) by (nonlinear_arith)
                requires
                    mid <= 0x8000_0000,
            ;
        }
        if mid * mid >= x {
            hi = mid;
        } else {
            lo = mid + 1;
        }
    }
    lo
}

/// The least power of two that is at least `x`; one for zero.
fn next_power_of_two(x: u64) -> (r: u64)
    requires
        x <= 0x8000_0000,
    ensures
        is_next_power_of_two(r as int, x as int),
        r <= 0x8000_0000,
{
    let mut p: u64 = 1;
    let ghost mut k: nat = 0;
    while p < x
        invariant
            p == pow2(k),
            1 <= p <= 0x8000_0000,
            k <= 31,
            x <= 0x8000_0000,
            k == 0 || pow2((k - 1) as nat) < x,
        decreases 31 - k,
    {
        proof {
            lemma_pow2_31();
            if k >= 31 {
                lemma_pow2_monotonic(31, k);
            }
            assert(pow2(k + 1) == 2 * pow2(k));
            lemma_pow2_monotonic(k + 1, 31);
        }
        p = p * 2;
        proof {
            k = k + 1;
        }
    }
    proof {
        assert(pow2(k) == p && p >= x && (k == 0 || pow2((k - 1) as nat) < x));
    }
    p
}

/// Texture dimensions for `vertex_count` vertices over `frame_count` frames:
/// as square as the pixel count allows, each side then rounded up to a power
/// of two.
pub fn calculate_vat_texture_dimensions(vertex_count: usize, frame_count: usize) -> (r: (u32, u32))
    requires
        vertex_count as int * frame_count as int <= 0x4000_0000_0000_0000,
    ensures
        ({
            let total = vertex_count as int * frame_count as int;
            exists|w: int|
                is_ceil_sqrt(w, total) && is_next_power_of_two(r.0 as int, w) && is_next_power_of_two(
                    r.1 as int,
                    if w == 0 {
                        0
                    } else {
                        (total + w - 1) / w
                    },
                )
        }),
{
    let total: u64 = (vertex_count as u64) * (frame_count as u64);
    let w = ceil_sqrt(total);
    let h: u64 = if w == 0 {
        0
    } else {
        proof {
            assert((total as int + w - 1) / (w as int) <= w) by (nonlinear_arith)
                requires
                    w > 0,
                    total <= w * w,
            ;
        }
        (total + w - 1) / w
    };
    let width = next_power_of_two(w);
    let height = next_power_of_two(h);
    (width as u32, height as u32)
}

} // verus!
