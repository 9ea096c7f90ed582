//! The note queue that the compute thread drives each cycle: decoded MIDI
//! events create and release notes, every live note paints the frame, and
//! the longest fully-dead prefix of the queue is evicted.
//!
//! Notes are retired strictly in creation order. Eviction stops at the
//! first live note, so a dead note behind a live one is retained until the
//! live one dies too — a known approximation that bounds queue growth
//! without per-note removal.

use vstd::prelude::*;
use vstd::math::abs;
use random_color::RandomColor;
use crate::color::{draw_rgb, Pixel};
use crate::config::LedConfig;
use crate::midi::{MidiEvent, MidiMessage};
use crate::note::{Note, TIME_BOUND};

verus! {

/// Number of pixels in a rendered note frame.
pub const FRAME_PIXELS: usize = 256;

/// What the queue may hold: a well-formed note whose halo center lies on
/// the frame and whose on-time is a sane driver timestamp.
pub open spec fn note_ok(n: Note) -> bool {
    n.wf() && 2 * (n.note as int) < FRAME_PIXELS as int && n.on_time < TIME_BOUND
}

/// Every note of the queue is acceptable.
pub open spec fn notes_ok(s: Seq<Note>) -> bool {
    forall|i: int| 0 <= i < s.len() ==> #[trigger] note_ok(s[i])
}

/// A released copy of `m`, its release point clamped past the fade-in.
pub open spec fn released_note(m: Note, t: u64, fade_in: u32) -> Note {
    Note { on: false, off_time: m.clamped_off(t, fade_in), ..m }
}

/// `after` is `before` with exactly the first held note numbered `n`
/// released at time `t` — or unchanged when no held note carries `n`.
pub open spec fn released_once(
    before: Seq<Note>,
    after: Seq<Note>,
    n: u8,
    t: u64,
    fade_in: u32,
) -> bool {
    if exists|i: int| 0 <= i < before.len() && (#[trigger] before[i]).note == n && before[i].on {
        exists|i: int|
            0 <= i < before.len() && (#[trigger] before[i]).note == n && before[i].on
            && (forall|j: int| 0 <= j < i ==> !((#[trigger] before[j]).note == n && before[j].on))
            && after == before.update(i, released_note(before[i], t, fade_in))
    } else {
        after == before
    }
}

/// Feeds one decoded event to the queue. A note-on appends a fresh held
/// note with a randomly drawn color; a note-off releases the first held
/// note of that number, clamped so release cannot precede the end of the
/// fade-in; the end-of-stream sentinel asks the caller to stop; every
/// other event leaves the queue alone.
#[verifier::loop_isolation(false)]
pub fn handle_event<M: LedConfig>(
    notes: &mut Vec<Note>,
    rc: &mut RandomColor,
    mm: &MidiMessage,
    config: &M,
) -> (keep_going: bool)
    requires
        notes_ok(old(notes)@),
        mm.time < TIME_BOUND,
        mm.event matches MidiEvent::NoteOn(n, v) ==> n < 128 && v < 128,
    ensures
        notes_ok(final(notes)@),
        keep_going == !(mm.event is Unrecongized),
        mm.event matches MidiEvent::NoteOn(n, v) ==> final(notes)@.len() == old(notes)@.len() + 1
            && final(notes)@.subrange(0, old(notes)@.len() as int) == old(notes)@
            && ({
                let fresh = final(notes)@.last();
                fresh.on && fresh.note == n && fresh.vel == v && fresh.on_time == mm.time
                    && fresh.off_time == 0 && fresh.color.pad == 0
            }),
        mm.event matches MidiEvent::NoteOff(n, _) ==> released_once(
            old(notes)@,
            final(notes)@,
            n,
            mm.time,
            config.spec_fade_in(),
        ),
        !(mm.event matches MidiEvent::NoteOn(a, b)) && !(mm.event matches MidiEvent::NoteOff(
            c,
            d,
        )) ==> final(notes)@ == old(notes)@,
{
    match mm.event {
        MidiEvent::NoteOn(n, v) => {
            let color = Pixel::from_rgb(draw_rgb(rc));
            notes.push(
                Note { on: true, note: n, vel: v, on_time: mm.time, off_time: 0, color },
            );
            proof {
                assert(notes@.subrange(0, old(notes)@.len() as int) =~= old(notes)@);
            }
            true
        },
        MidiEvent::NoteOff(n, _) => {
            let mut idx: usize = 0;
            while idx < notes.len()
                invariant
                    idx <= notes@.len(),
                    notes@ == old(notes)@,
                    notes_ok(notes@),
                    forall|j: int| 0 <= j < idx ==> !((#[trigger] notes@[j]).note == n
                        && notes@[j].on),
                decreases notes@.len() - idx,
            {
                let cur = notes[idx];
                proof {
                    assert(note_ok(notes@[idx as int]));
                }
                if cur.note == n {
                    let mut m = cur;
                    if m.set_off_time(mm.time, config) {
                        notes.set(idx, m);
                        proof {
                            assert(notes@ == old(notes)@.update(
                                idx as int,
                                released_note(old(notes)@[idx as int], mm.time, config.spec_fade_in()),
                            ));
                            assert forall|i2: int| 0 <= i2 < notes@.len() implies note_ok(
                                #[trigger] notes@[i2],
                            ) by {
                                if i2 != idx {
                                    assert(note_ok(old(notes)@[i2]));
                                }
                            }
                        }
                        return true;
                    }
                }
                idx += 1;
            }
            true
        },
        MidiEvent::Unrecongized => false,
        _ => true,
    }
}

/// `frame` after `n` paints its halo over every pixel.
pub open spec fn painted_frame(
    frame: Seq<Pixel>,
    n: Note,
    fade_in: u64,
    fade_out: u64,
    now: u64,
) -> Seq<Pixel> {
    Seq::new(frame.len(), |k: int| n.painted_pixel(fade_in, fade_out, now, frame[k], k))
}

/// The frame that a queue of notes renders at time `now`: every note in
/// turn paints its halo over an initially dark frame.
pub open spec fn rendered_frame(notes: Seq<Note>, fade_in: u64, fade_out: u64, now: u64) -> Seq<
    Pixel,
>
    decreases notes.len(),
{
    if notes.len() == 0 {
        Seq::new(FRAME_PIXELS as nat, |k: int| Pixel::black())
    } else {
        painted_frame(
            rendered_frame(notes.drop_last(), fade_in, fade_out, now),
            notes.last(),
            fade_in,
            fade_out,
            now,
        )
    }
}

/// Renders the whole queue into a fresh frame and reports where the live
/// part of the queue starts: the index of the first live note, or the
/// largest index value when every note is dead — exactly what `evict_dead`
/// takes to pop the dead prefix.
#[verifier::loop_isolation(false)]
pub fn render_notes<M: LedConfig>(notes: &Vec<Note>, config: &M, cur_time: u64) -> (out: (
    Vec<Pixel>,
    usize,
))
    requires
        notes_ok(notes@),
        notes@.len() < usize::MAX,
        cur_time < TIME_BOUND,
        config.spec_fade_in() >= 1,
        config.spec_fade_out() >= 1,
    ensures
        out.0@ == rendered_frame(
            notes@,
            config.spec_fade_in() as u64,
            config.spec_fade_out() as u64,
            cur_time,
        ),
        forall|i: int| 0 <= i < notes@.len() && i < out.1 ==> !(#[trigger] notes@[i]).live_at(
            config.spec_fade_in() as u64,
            config.spec_fade_out() as u64,
            cur_time,
        ),
        out.1 < notes@.len() ==> notes@[out.1 as int].live_at(
            config.spec_fade_in() as u64,
            config.spec_fade_out() as u64,
            cur_time,
        ),
        out.1 <= notes@.len() || out.1 == usize::MAX,
        out.1 == usize::MAX ==> forall|i: int| 0 <= i < notes@.len() ==> !(
        #[trigger] notes@[i]).live_at(
            config.spec_fade_in() as u64,
            config.spec_fade_out() as u64,
            cur_time,
        ),
{
    let ghost fi = config.spec_fade_in() as u64;
    let ghost fo = config.spec_fade_out() as u64;
    let mut leds: Vec<Pixel> = Vec::new();
    let mut k: usize = 0;
    while k < FRAME_PIXELS
        invariant
            k <= FRAME_PIXELS,
            leds@.len() == k,
            forall|j: int| 0 <= j < k ==> leds@[j] == Pixel::black(),
        decreases FRAME_PIXELS - k,
    {
        leds.push(Pixel { r: 0, g: 0, b: 0, pad: 0 });
        k += 1;
    }
    proof {
        assert(leds@ =~= rendered_frame(notes@.subrange(0, 0), fi, fo, cur_time));
    }
    let mut start: usize = usize::MAX;
    let mut idx: usize = 0;
    while idx < notes.len()
        invariant
            idx <= notes@.len(),
            leds@.len() == FRAME_PIXELS,
            leds@ == rendered_frame(notes@.subrange(0, idx as int), fi, fo, cur_time),
            forall|i: int| 0 <= i < idx && i < start ==> !(#[trigger] notes@[i]).live_at(
                fi,
                fo,
                cur_time,
            ),
            start < idx ==> notes@[start as int].live_at(fi, fo, cur_time),
            start == usize::MAX || start < idx,
        decreases notes@.len() - idx,
    {
        let note = notes[idx];
        proof {
            assert(note_ok(notes@[idx as int]));
        }
        let tr = note.calc_leds(config, cur_time, &mut leds);
        proof {
            let pre = notes@.subrange(0, idx as int);
            let cur = notes@.subrange(0, idx as int + 1);
            assert(cur.drop_last() =~= pre);
            assert(leds@ =~= painted_frame(
                rendered_frame(pre, fi, fo, cur_time),
                notes@[idx as int],
                fi,
                fo,
                cur_time,
            ));
        }
        if start == usize::MAX && tr {
            start = idx;
        }
        idx += 1;
    }
    proof {
        assert(notes@.subrange(0, notes@.len() as int) =~= notes@);
    }
    (leds, start)
}

/// Pops the dead prefix that `render_notes` found: the first `start` notes
/// leave the queue, fewer when the queue runs out first.
pub fn evict_dead(notes: &mut Vec<Note>, start: usize)
    ensures
        final(notes)@ == if start <= old(notes)@.len() {
            old(notes)@.skip(start as int)
        } else {
            Seq::<Note>::empty()
        },
{
    let mut c: usize = 0;
    while c < start && notes.len() > 0
        invariant
            c <= start,
            notes@ == if c <= old(notes)@.len() {
                old(notes)@.skip(c as int)
            } else {
                Seq::<Note>::empty()
            },
            notes@.len() > 0 ==> c <= old(notes)@.len(),
        decreases start - c,
    {
        notes.remove(0);
        proof {
            assert(old(notes)@.skip(c as int).remove(0) =~= old(notes)@.skip(c + 1));
        }
        c += 1;
    }
    proof {
        if start > old(notes)@.len() {
            assert(notes@ =~= Seq::<Note>::empty());
        }
    }
}

/// The distance between two indices.
pub fn abs_diff_u(x: usize, y: usize) -> (d: usize)
    ensures
        d == abs(x - y),
{
    if x > y {
        x - y
    } else {
        y - x
    }
}

} // verus!
