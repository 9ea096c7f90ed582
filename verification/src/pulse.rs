//! The silence pulse: while the analyzer keeps seeing silent windows a
//! counter climbs; every full period a fresh random color is drawn; once a
//! whole period of silence has passed the output switches from spectrum
//! bins to a breathing pulse of that color. One non-silent window resets
//! the counter at once.
//!
//! The breathing brightness follows a triangular wave: this module computes
//! its integer level (distance climbed from the period's edge toward its
//! midpoint); the perceptual exponential remap of that level is left to the
//! unverified float layer.

use vstd::prelude::*;
use vstd::math::abs;
use random_color::RandomColor;
use crate::color::{draw_rgb, new_color_gen, Pixel};
use crate::lifecycle::abs_diff_u;

verus! {

/// How many consecutive silent windows make one pulse period.
pub const PULSE_PERIOD: usize = 512;

/// What the compute thread emits for one window.
#[derive(Debug, PartialEq, Eq, Structural, Clone, Copy)]
pub enum CycleOutput {
    /// Analyze the window and show its spectrum bins.
    Spectrum,
    /// Show the breathing pulse at this point of the silence clock.
    Pulse { time: usize },
}

/// Advances the silence clock by one window. While the pulse is enabled
/// and the window is silent the counter climbs, a fresh color is due every
/// full period, and once a whole period has passed the pulse is emitted in
/// place of the spectrum; any other window resets the counter to zero at
/// once.
pub fn silence_step(count: &mut usize, pulse_enabled: bool, silent: bool) -> (r: (
    bool,
    CycleOutput,
))
    requires
        pulse_enabled && silent ==> *old(count) < usize::MAX,
    ensures
        pulse_enabled && silent ==> *final(count) == *old(count) + 1 && r.0 == ((*old(count) + 1)
            % PULSE_PERIOD as int == 0) && r.1 == if *old(count) + 1 >= PULSE_PERIOD {
            (CycleOutput::Pulse { time: (*old(count) + 1) as usize })
        } else {
            CycleOutput::Spectrum
        },
        !(pulse_enabled && silent) ==> *final(count) == 0 && !r.0 && r.1 == CycleOutput::Spectrum,
{
    if pulse_enabled && silent {
        *count += 1;
        let draw = *count % PULSE_PERIOD == 0;
        if *count >= PULSE_PERIOD {
            (draw, CycleOutput::Pulse { time: *count })
        } else {
            (draw, CycleOutput::Spectrum)
        }
    } else {
        *count = 0;
        (false, CycleOutput::Spectrum)
    }
}

/// The pulse state: the color currently breathed, and the generator the
/// next one will be drawn from.
pub struct PulseCalc {
    color: Pixel,
    rc: RandomColor,
}

impl PulseCalc {
    /// The color currently breathed.
    pub closed spec fn spec_color(&self) -> Pixel {
        self.color
    }

    /// A pulse state with a first random color already drawn.
    pub fn new() -> (p: PulseCalc)
        ensures
            p.spec_color().pad == 0,
    {
        let mut ret = PulseCalc { color: Pixel { r: 0, g: 0, b: 0, pad: 0 }, rc: new_color_gen() };
        ret.new_color();
        ret
    }

    /// Draws a fresh random color; the unused fourth channel stays dark.
    pub fn new_color(&mut self)
        ensures
            final(self).spec_color().pad == 0,
    {
        let c = draw_rgb(&mut self.rc);
        self.color = Pixel { r: c[0], g: c[1], b: c[2], pad: 0 };
    }

    /// The color currently breathed, for the layer that scales it.
    pub fn color(&self) -> (c: Pixel)
        ensures
            c == self.spec_color(),
    {
        self.color
    }
}

/// The triangular wave under the pulse brightness: how far the silence
/// clock stands from the nearer edge of its period, climbing to the
/// period's midpoint and falling back; never more than half the period.
pub fn tri_level(time: usize, period: usize) -> (level: usize)
    requires
        period >= 1,
    ensures
        level == period / 2 - abs(period / 2 - time % period),
        level <= period / 2,
{
    let half = period / 2;
    let cap = time % period;
    let a_diff = abs_diff_u(half, cap);
    half - a_diff
}

} // verus!
