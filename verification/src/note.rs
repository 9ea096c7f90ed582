//! A single MIDI note's lifecycle: created at its on-time, ramping to full
//! power across the fade-in window, released (clamped so release cannot
//! begin before the fade-in has elapsed), fading out at a tenfold clock,
//! and finally dead.
//!
//! A live note paints an additive, distance-attenuated halo of its color
//! onto the pixels around twice its note number; channels saturate at the
//! brightest value instead of wrapping.

use vstd::prelude::*;
use vstd::math::abs;
use vstd::arithmetic::power2::{pow2, lemma2_to64, lemma_pow2_strictly_increases};
use vstd::arithmetic::div_mod::{lemma_div_is_ordered, lemma_div_multiples_vanish};
use vstd::bits::lemma_u64_shl_is_mul;
use crate::color::Pixel;
use crate::config::LedConfig;

verus! {

/// Driver timestamps are microseconds; keeping them under this bound is a
/// machine limit that keeps the tenfold release clock inside a word.
pub const TIME_BOUND: u64 = 0x1000_0000_0000_0000;

/// One tracked note.
#[derive(Debug, PartialEq, Eq, Structural, Clone, Copy)]
pub struct Note {
    /// Still held: no release has been recorded.
    pub on: bool,
    /// The MIDI note number.
    pub note: u8,
    /// The strike velocity, 0 to 127.
    pub vel: u8,
    /// Driver time of the note-on event.
    pub on_time: u64,
    /// Driver time release starts; meaningful only once `on` is false.
    pub off_time: u64,
    /// The color this note paints with.
    pub color: Pixel,
}

impl Note {
    /// Velocity is a MIDI data byte, and release never precedes the strike.
    pub open spec fn wf(self) -> bool {
        self.vel < 128 && (!self.on ==> self.on_time <= self.off_time)
    }

    /// Where the release point lands: never before the fade-in completes.
    pub open spec fn clamped_off(self, off_time: u64, fade_in: u32) -> u64 {
        if off_time > self.on_time + fade_in {
            off_time
        } else {
            (self.on_time + fade_in) as u64
        }
    }

    /// The note's own elapsed clock at driver time `now` (meaningful once
    /// `now` has reached the on-time): while held it runs with `now` but
    /// never past the fade-in; after the release point it runs tenfold.
    pub open spec fn elapsed(self, fade_in: u64, now: u64) -> int {
        if self.on {
            if now - self.on_time > fade_in {
                fade_in as int
            } else {
                now - self.on_time
            }
        } else if now >= self.off_time {
            (self.off_time - self.on_time) + (now - self.off_time) * 10
        } else {
            now - self.on_time
        }
    }

    /// A note stays in the queue until its elapsed clock passes the whole
    /// envelope; a note that is early contributes nothing but stays.
    pub open spec fn live_at(self, fade_in: u64, fade_out: u64, now: u64) -> bool {
        now < self.on_time || self.elapsed(fade_in, now) <= fade_in + fade_out
    }

    /// The numerator of the envelope fraction: zero before the on-time,
    /// the elapsed clock across the fade-in, and the remaining envelope
    /// during the fade-out.
    pub open spec fn power_at(self, fade_in: u64, fade_out: u64, now: u64) -> int {
        if now < self.on_time {
            0
        } else {
            let e = self.elapsed(fade_in, now);
            if e > fade_in + fade_out {
                0
            } else if e > fade_in {
                fade_in + fade_out - e
            } else {
                e
            }
        }
    }

    /// The divisor of the envelope fraction, scaled by the velocity range
    /// and the halo spread.
    pub open spec fn divisor_at(self, fade_in: u64, fade_out: u64, now: u64) -> int {
        if now >= self.on_time && self.elapsed(fade_in, now) > fade_in {
            fade_out * 32768
        } else {
            fade_in * 32768
        }
    }

    /// What this note adds to color channel byte `c` of pixel `k`: nothing
    /// when early, dead, or more than seven pixels from the note's center;
    /// otherwise the envelope fraction of the channel, halved per pixel of
    /// distance.
    pub open spec fn addend(self, fade_in: u64, fade_out: u64, now: u64, c: u8, k: int) -> int {
        let dist = abs(k - 2 * self.note);
        if now < self.on_time || !self.live_at(fade_in, fade_out, now) || dist >= 8 {
            0
        } else {
            c * self.power_at(fade_in, fade_out, now) * self.vel * pow2((8 - dist) as nat)
                / self.divisor_at(fade_in, fade_out, now)
        }
    }

    /// Pixel `k` after this note has painted over `px`: each color channel
    /// grows by the note's contribution, saturating at the brightest value;
    /// the unused fourth channel is untouched.
    pub open spec fn painted_pixel(
        self,
        fade_in: u64,
        fade_out: u64,
        now: u64,
        px: Pixel,
        k: int,
    ) -> Pixel {
        Pixel {
            r: px.r.saturating_add(self.addend(fade_in, fade_out, now, self.color.r, k) as u8),
            g: px.g.saturating_add(self.addend(fade_in, fade_out, now, self.color.g, k) as u8),
            b: px.b.saturating_add(self.addend(fade_in, fade_out, now, self.color.b, k) as u8),
            pad: px.pad,
        }
    }

    /// Records the release of a held note, clamping the release point so
    /// fade-out cannot begin before the fade-in window has elapsed. On a
    /// note already released, does nothing and says so.
    pub fn set_off_time<T: LedConfig>(&mut self, off_time: u64, config: &T) -> (was_on: bool)
        requires
            old(self).on_time + config.spec_fade_in() <= u64::MAX,
        ensures
            was_on == old(self).on,
            !old(self).on ==> *final(self) == *old(self),
            old(self).on ==> *final(self) == (Note {
                on: false,
                off_time: old(self).clamped_off(off_time, config.spec_fade_in()),
                ..*old(self)
            }),
    {
        if !self.on {
            return false;
        }
        let min = self.on_time + config.get_fade_in() as u64;
        self.off_time = if off_time > min {
            off_time
        } else {
            min
        };
        self.on = false;
        true
    }

    /// Paints this note's halo onto the frame and reports whether the note
    /// is still live; a dead note leaves the frame unchanged and asks to be
    /// evicted. The frame keeps its length, and every pixel ends exactly as
    /// `painted_pixel` says.
    #[verifier::loop_isolation(false)]
    pub fn calc_leds<M: LedConfig>(&self, config: &M, cur_time: u64, leds: &mut Vec<Pixel>) -> (live: bool)
        requires
            self.wf(),
            cur_time < TIME_BOUND,
            2 * (self.note as int) < old(leds)@.len(),
            config.spec_fade_in() >= 1,
            config.spec_fade_out() >= 1,
        ensures
            final(leds)@.len() == old(leds)@.len(),
            live == self.live_at(
                config.spec_fade_in() as u64,
                config.spec_fade_out() as u64,
                cur_time,
            ),
            forall|k: int| 0 <= k < old(leds)@.len() ==> final(leds)@[k] == self.painted_pixel(
                config.spec_fade_in() as u64,
                config.spec_fade_out() as u64,
                cur_time,
                old(leds)@[k],
                k,
            ),
    {
        let ghost fi = config.spec_fade_in() as u64;
        let ghost fo = config.spec_fade_out() as u64;
        if cur_time < self.on_time {
            // too early: nothing is painted yet, but the note stays
            proof {
                assert forall|k: int| 0 <= k < leds@.len() implies leds@[k]
                    == self.painted_pixel(fi, fo, cur_time, leds@[k], k) by {
                    assert(self.addend(fi, fo, cur_time, self.color.r, k) == 0);
                }
            }
            return true;
        }
        let fade_out = config.get_fade_out() as u64;
        let fade_in = config.get_fade_in() as u64;
        let time_past: u64 = if self.on {
            let e = cur_time - self.on_time;
            if e > fade_in {
                fade_in
            } else {
                e
            }
        } else {
            match cur_time.checked_sub(self.off_time) {
                Some(v) => (self.off_time - self.on_time) + v * 10,
                None => cur_time - self.on_time,
            }
        };
        assert(time_past == self.elapsed(fi, cur_time));
        let total = fade_out + fade_in;
        if time_past > total {
            // fully decayed: the frame is untouched and the note may go
            proof {
                assert forall|k: int| 0 <= k < leds@.len() implies leds@[k]
                    == self.painted_pixel(fi, fo, cur_time, leds@[k], k) by {
                    assert(!self.live_at(fi, fo, cur_time));
                }
            }
            return false;
        }
        let (power, div) = if time_past > fade_in {
            (total - time_past, fade_out * 128 * 256)
        } else {
            (time_past, fade_in * 128 * 256)
        };
        let ghost fcur: u64 = if time_past > fade_in { fo } else { fi };
        assert(power == self.power_at(fi, fo, cur_time));
        assert(div == self.divisor_at(fi, fo, cur_time));
        assert(power <= fcur);
        proof {
            lemma_channel_mul_bound(self.color.r as u64, power, self.vel as u64);
            lemma_channel_mul_bound(self.color.g as u64, power, self.vel as u64);
            lemma_channel_mul_bound(self.color.b as u64, power, self.vel as u64);
        }
        let base_r = self.color.r as u64 * power * self.vel as u64;
        let base_g = self.color.g as u64 * power * self.vel as u64;
        let base_b = self.color.b as u64 * power * self.vel as u64;
        let center = self.note as usize * 2;
        let mut i: usize = 0;
        while i < 8
            invariant
                i <= 8,
                leds@.len() == old(leds)@.len(),
                forall|k: int| 0 <= k < leds@.len() ==> #[trigger] leds@[k] == if abs(k - center)
                    < i {
                    self.painted_pixel(fi, fo, cur_time, old(leds)@[k], k)
                } else {
                    old(leds)@[k]
                },
            decreases 8 - i,
        {
            let shift = (8 - i) as u64;
            proof {
                lemma_channel_value(self.color.r as u64, power, self.vel as u64, shift);
                lemma_channel_value(self.color.g as u64, power, self.vel as u64, shift);
                lemma_channel_value(self.color.b as u64, power, self.vel as u64, shift);
                lemma_channel_bound(self.color.r as u64, power, self.vel as u64, shift, fcur);
                lemma_channel_bound(self.color.g as u64, power, self.vel as u64, shift, fcur);
                lemma_channel_bound(self.color.b as u64, power, self.vel as u64, shift, fcur);
            }
            let vr = (base_r << shift) / div;
            let vg = (base_g << shift) / div;
            let vb = (base_b << shift) / div;
            if let Some(first) = center.checked_sub(i) {
                add_at(leds, first, vr as u8, vg as u8, vb as u8);
                proof {
                    assert(abs(first - center) == i);
                    assert(self.addend(fi, fo, cur_time, self.color.r, first as int)
                        == vr as int);
                }
            }
            if i != 0 {
                let last = center + i;
                if last < leds.len() {
                    add_at(leds, last, vr as u8, vg as u8, vb as u8);
                    proof {
                        assert(abs(last - center) == i);
                        assert(self.addend(fi, fo, cur_time, self.color.r, last as int)
                            == vr as int);
                    }
                }
            }
            i += 1;
        }
        proof {
            assert forall|k: int| 0 <= k < leds@.len() implies leds@[k]
                == self.painted_pixel(fi, fo, cur_time, old(leds)@[k], k) by {
                if abs(k - center) >= 8 {
                    assert(self.addend(fi, fo, cur_time, self.color.r, k) == 0);
                }
            }
        }
        true
    }
}

/// Adds the given channel values onto one pixel, saturating per channel.
fn add_at(leds: &mut Vec<Pixel>, idx: usize, vr: u8, vg: u8, vb: u8)
    requires
        idx < old(leds)@.len(),
    ensures
        final(leds)@ == old(leds)@.update(
            idx as int,
            (Pixel {
                r: old(leds)@[idx as int].r.saturating_add(vr),
                g: old(leds)@[idx as int].g.saturating_add(vg),
                b: old(leds)@[idx as int].b.saturating_add(vb),
                pad: old(leds)@[idx as int].pad,
            }),
        ),
{
    let px = leds[idx];
    leds.set(
        idx,
        Pixel {
            r: px.r.saturating_add(vr),
            g: px.g.saturating_add(vg),
            b: px.b.saturating_add(vb),
            pad: px.pad,
        },
    );
}

/// The channel product of a live note fits comfortably in a word.
proof fn lemma_channel_mul_bound(c: u64, p: u64, v: u64)
    requires
        c <= 255,
        p <= 0x2_0000_0000,
        v <= 127,
    ensures
        c * p * v <= 0x2_0000_0000_0000,
        c * p <= 255 * 0x2_0000_0000,
{
    assert(c * p <= 255 * 0x2_0000_0000 && c * p * v <= 0x2_0000_0000_0000) by (nonlinear_arith)
        requires
            c <= 255,
            p <= 0x2_0000_0000,
            v <= 127,
    ;
}

/// Shifting the channel product left equals multiplying by the matching
/// power of two.
proof fn lemma_channel_value(c: u64, p: u64, v: u64, shift: u64)
    requires
        c <= 255,
        p <= 0x2_0000_0000,
        v <= 127,
        1 <= shift <= 8,
    ensures
        (((c * p * v) as u64) << shift) == c * p * v * pow2(shift as nat),
{
    lemma_channel_mul_bound(c, p, v);
    lemma2_to64();
    assert(pow2(shift as nat) <= 256) by {
        if shift < 8 {
            lemma_pow2_strictly_increases(shift as nat, 8);
        }
    }
    assert(c * p * v * pow2(shift as nat) <= 0x2_0000_0000_0000 * 256) by (nonlinear_arith)
        requires
            c * p * v <= 0x2_0000_0000_0000,
            pow2(shift as nat) <= 256,
    ;
    lemma_u64_shl_is_mul((c * p * v) as u64, shift);
}

/// A live note's channel contribution never exceeds the brightest channel
/// value, so the final cast to a byte is exact.
proof fn lemma_channel_bound(c: u64, p: u64, v: u64, shift: u64, f: u64)
    requires
        c <= 255,
        v <= 127,
        p <= f,
        1 <= f,
        shift <= 8,
    ensures
        c * p * v * pow2(shift as nat) / (f * 32768) <= 255,
        f * 32768 >= 1,
{
    lemma2_to64();
    assert(pow2(shift as nat) <= 256) by {
        if shift < 8 {
            lemma_pow2_strictly_increases(shift as nat, 8);
        }
    }
    let x = c * p * v * pow2(shift as nat);
    let d: int = f * 32768;
    assert(x <= 255 * d) by (nonlinear_arith)
        requires
            c <= 255,
            v <= 127,
            p <= f,
            pow2(shift as nat) <= 256,
            d == f * 32768,
            x == c * p * v * pow2(shift as nat),
    ;
    lemma_div_is_ordered(x as int, 255 * d, d);
    lemma_div_multiples_vanish(255, d);
    assert((d * 255) / d == 255);
}

/// The attack law: a held note contributes nothing before its on-time, its
/// envelope numerator rises strictly through the fade-in window (while the
/// divisor stays fixed), and from the end of the fade-in on it holds its
/// peak for as long as the note stays on — it never decays and is never
/// evicted while held.
pub proof fn lemma_note_attack_envelope(
    n: Note,
    fade_in: u64,
    fade_out: u64,
    t1: u64,
    t2: u64,
    now: u64,
)
    requires
        n.on,
        n.wf(),
        1 <= fade_in,
        1 <= fade_out,
    ensures
        now < n.on_time ==> n.power_at(fade_in, fade_out, now) == 0 && forall|c: u8, k: int|
            n.addend(fade_in, fade_out, now, c, k) == 0,
        n.on_time <= t1 < t2 < n.on_time + fade_in ==> n.power_at(fade_in, fade_out, t1)
            < n.power_at(fade_in, fade_out, t2),
        now >= n.on_time + fade_in ==> n.power_at(fade_in, fade_out, now) == fade_in,
        now >= n.on_time ==> n.divisor_at(fade_in, fade_out, now) == fade_in * 32768,
        n.live_at(fade_in, fade_out, now),
{
}

} // verus!
