//! The rules that tie the three threads together: the compute thread's
//! send-or-drop backpressure policy toward the depth-one frame queue, and
//! the render thread's fold of each fresh frame into the live pixel
//! buffer, shared by both modes.

use vstd::prelude::*;
use crate::color::Pixel;

verus! {

/// What a non-blocking send into the depth-one frame queue came back with.
#[derive(Debug, PartialEq, Eq, Structural, Clone, Copy)]
pub enum SendOutcome {
    /// The render thread had drained the previous frame; this one is in.
    Sent,
    /// The previous frame still sits in the queue; this one was dropped.
    Full,
    /// The render thread is gone; the pipeline is shutting down.
    Disconnected,
}

/// The backpressure rule: a dropped frame is only worth a warning and the
/// loop goes on without retrying or queueing it; a disconnected queue is
/// the shutdown signal and stops the loop. Waiting is never an option.
pub fn send_policy(outcome: SendOutcome) -> (r: (bool, bool))
    ensures
        r.0 == !(outcome is Disconnected),
        r.1 == (outcome is Full),
{
    match outcome {
        SendOutcome::Sent => (true, false),
        SendOutcome::Full => (true, true),
        SendOutcome::Disconnected => (false, false),
    }
}

/// One pixel after the render thread's temporal smoothing: the old value
/// keeps three quarters of the weight, the fresh value contributes the
/// rest; the unused fourth channel is untouched.
pub open spec fn blended_pixel(o: Pixel, n: Pixel) -> Pixel {
    Pixel {
        r: ((o.r * 3 + n.r) / 4) as u8,
        g: ((o.g * 3 + n.g) / 4) as u8,
        b: ((o.b * 3 + n.b) / 4) as u8,
        pad: o.pad,
    }
}

/// The render thread's one frame fold, shared by both modes: each fresh
/// frame is blended into the live buffer by the fixed weighted average,
/// pixel by pixel, over as many pixels as both sides hold; pixels beyond
/// the shorter side, and the unused fourth channel, are untouched.
pub fn blend_frame(leds: &mut Vec<Pixel>, vals: &Vec<Pixel>)
    ensures
        final(leds)@.len() == old(leds)@.len(),
        forall|i: int| 0 <= i < old(leds)@.len() ==> final(leds)@[i] == if i < vals@.len() {
            blended_pixel(old(leds)@[i], vals@[i])
        } else {
            old(leds)@[i]
        },
{
    let end = if vals.len() > leds.len() {
        leds.len()
    } else {
        vals.len()
    };
    let mut i: usize = 0;
    while i < end
        invariant
            i <= end,
            end <= leds@.len(),
            end <= vals@.len(),
            leds@.len() == old(leds)@.len(),
            forall|j: int| 0 <= j < i ==> leds@[j] == blended_pixel(old(leds)@[j], vals@[j]),
            forall|j: int| i <= j < leds@.len() ==> leds@[j] == old(leds)@[j],
        decreases end - i,
    {
        let o = leds[i];
        let n = vals[i];
        leds.set(
            i,
            Pixel {
                r: ((o.r as u16 * 3 + n.r as u16 * 1) / 4) as u8,
                g: ((o.g as u16 * 3 + n.g as u16 * 1) / 4) as u8,
                b: ((o.b as u16 * 3 + n.b as u16 * 1) / 4) as u8,
                pad: o.pad,
            },
        );
        i += 1;
    }
}

} // verus!
