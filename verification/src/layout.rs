//! Laying the four frequency bins out on the strip. One channel's bins
//! fill colored segments from the left end, the other channel's from the
//! right end; where the two meet, the right-hand pass wins. Everything
//! else stays dark.
//!
//! Segment lengths arrive as pixel counts (the unverified float layer
//! rounds each scaled bin intensity and floors it at one pixel).

use vstd::prelude::*;
use crate::color::Pixel;

verus! {

/// Which of the two intensity scaling curves maps a raw bin value to the
/// displayed range.
#[derive(Copy, Clone, Debug, PartialEq, Eq, Structural)]
pub enum Algorithm {
    Linear,
    Quadratic,
}

/// The base palette, brightest first from the low end: blue for sub-bass,
/// teal for bass, green for mids, red for treble.
pub fn base_colors() -> (c: [Pixel; 4])
    ensures
        c[0] == (Pixel { r: 0, g: 0, b: 255, pad: 0 }),
        c[1] == (Pixel { r: 0, g: 128, b: 128, pad: 0 }),
        c[2] == (Pixel { r: 0, g: 255, b: 0, pad: 0 }),
        c[3] == (Pixel { r: 255, g: 0, b: 0, pad: 0 }),
{
    [
        Pixel { r: 0, g: 0, b: 255, pad: 0 },
        Pixel { r: 0, g: 128, b: 128, pad: 0 },
        Pixel { r: 0, g: 255, b: 0, pad: 0 },
        Pixel { r: 255, g: 0, b: 0, pad: 0 },
    ]
}

/// The pixels taken by the first `i` segments.
pub open spec fn seg_sum(segs: [usize; 4], i: int) -> int {
    (if i >= 1 { segs[0] as int } else { 0 }) + (if i >= 2 { segs[1] as int } else { 0 }) + (if i
        >= 3 { segs[2] as int } else { 0 }) + (if i >= 4 { segs[3] as int } else { 0 })
}

/// Which segment an offset from the filling end falls into, or none.
pub open spec fn bin_of(segs: [usize; 4], k: int) -> int {
    if 0 <= k < seg_sum(segs, 1) {
        0
    } else if k < seg_sum(segs, 2) {
        1
    } else if k < seg_sum(segs, 3) {
        2
    } else if k < seg_sum(segs, 4) {
        3
    } else {
        -1
    }
}

/// What pixel `k` of the laid-out frame shows: its segment's palette color
/// counted from the right end first, else from the left end, else dark.
/// Inverting swaps which channel fills which end.
pub open spec fn laid_out_pixel(
    l_segs: [usize; 4],
    r_segs: [usize; 4],
    colors: [Pixel; 4],
    invert: bool,
    led_count: int,
    k: int,
) -> Pixel {
    let head = if invert { r_segs } else { l_segs };
    let tail = if invert { l_segs } else { r_segs };
    let tb = bin_of(tail, led_count - 1 - k);
    let hb = bin_of(head, k);
    if tb >= 0 {
        colors[tb]
    } else if hb >= 0 {
        colors[hb]
    } else {
        Pixel::black()
    }
}

/// Paints `len` pixels of one color starting at `start`.
#[verifier::loop_isolation(false)]
fn fill_span(frame: &mut Vec<Pixel>, start: usize, len: usize, c: Pixel)
    requires
        start + len <= old(frame)@.len(),
    ensures
        final(frame)@.len() == old(frame)@.len(),
        forall|k: int| 0 <= k < old(frame)@.len() ==> final(frame)@[k] == if start <= k < start
            + len {
            c
        } else {
            old(frame)@[k]
        },
{
    let cap = frame.len();
    let mut j: usize = 0;
    while j < len
        invariant
            j <= len,
            cap == frame@.len(),
            start + len <= frame@.len(),
            frame@.len() == old(frame)@.len(),
            forall|k: int| 0 <= k < frame@.len() ==> frame@[k] == if start <= k < start + j {
                c
            } else {
                old(frame)@[k]
            },
        decreases len - j,
    {
        frame.set(start + j, c);
        j += 1;
    }
}

/// Renders the four scaled bins of both channels into a frame of
/// `led_count` dark pixels: one channel's segments fill from the left end,
/// the other's from the right end on top of them, each segment in its
/// palette color.
#[verifier::loop_isolation(false)]
pub fn render_bins(
    led_count: usize,
    invert: bool,
    colors: &[Pixel; 4],
    l_segs: [usize; 4],
    r_segs: [usize; 4],
) -> (frame: Vec<Pixel>)
    requires
        seg_sum(l_segs, 4) <= led_count,
        seg_sum(r_segs, 4) <= led_count,
    ensures
        frame@.len() == led_count,
        forall|k: int| 0 <= k < led_count ==> frame@[k] == laid_out_pixel(
            l_segs,
            r_segs,
            *colors,
            invert,
            led_count as int,
            k,
        ),
{
    let head = if invert {
        r_segs
    } else {
        l_segs
    };
    let tail = if invert {
        l_segs
    } else {
        r_segs
    };
    let mut frame: Vec<Pixel> = Vec::new();
    let mut k: usize = 0;
    while k < led_count
        invariant
            k <= led_count,
            frame@.len() == k,
            forall|j: int| 0 <= j < k ==> frame@[j] == Pixel::black(),
        decreases led_count - k,
    {
        frame.push(Pixel { r: 0, g: 0, b: 0, pad: 0 });
        k += 1;
    }
    let mut h_sum: usize = 0;
    fill_span(&mut frame, h_sum, head[0], colors[0]);
    h_sum = h_sum + head[0];
    fill_span(&mut frame, h_sum, head[1], colors[1]);
    h_sum = h_sum + head[1];
    fill_span(&mut frame, h_sum, head[2], colors[2]);
    h_sum = h_sum + head[2];
    fill_span(&mut frame, h_sum, head[3], colors[3]);
    let mut t_sum: usize = 0;
    fill_span(&mut frame, led_count - t_sum - tail[0], tail[0], colors[0]);
    t_sum = t_sum + tail[0];
    fill_span(&mut frame, led_count - t_sum - tail[1], tail[1], colors[1]);
    t_sum = t_sum + tail[1];
    fill_span(&mut frame, led_count - t_sum - tail[2], tail[2], colors[2]);
    t_sum = t_sum + tail[2];
    fill_span(&mut frame, led_count - t_sum - tail[3], tail[3], colors[3]);
    frame
}

} // verus!
