use random_color::RandomColor;
use spectrum::color::Pixel;
use spectrum::config::{LedConfig, LedConfigData};
use spectrum::lifecycle::{abs_diff_u, evict_dead, handle_event, render_notes};
use spectrum::midi::{MidiEvent, MidiMessage};
use spectrum::note::Note;

fn cfg(fade_in: u32, fade_out: u32) -> LedConfigData {
    let mut c = LedConfigData::default();
    c.set_fade_in(fade_in);
    c.set_fade_out(fade_out);
    c
}

fn white_note(note: u8, on_time: u64) -> Note {
    Note {
        on: true,
        note,
        vel: 127,
        on_time,
        off_time: 0,
        color: Pixel { r: 255, g: 255, b: 255, pad: 0 },
    }
}

fn black_frame() -> Vec<Pixel> {
    vec![Pixel { r: 0, g: 0, b: 0, pad: 0 }; 256]
}

#[test]
fn off_before_fade_in_is_clamped_to_fade_in_end() {
    let c = cfg(500, 1000);
    let mut n = white_note(60, 1000);
    assert!(n.set_off_time(1100, &c));
    assert!(!n.on);
    assert_eq!(n.off_time, 1500);
}

#[test]
fn off_after_fade_in_keeps_the_event_time() {
    let c = cfg(500, 1000);
    let mut n = white_note(60, 1000);
    assert!(n.set_off_time(2000, &c));
    assert_eq!(n.off_time, 2000);
}

#[test]
fn off_on_a_released_note_changes_nothing() {
    let c = cfg(500, 1000);
    let mut n = white_note(60, 1000);
    n.set_off_time(2000, &c);
    let before = n;
    assert!(!n.set_off_time(9000, &c));
    assert_eq!(n, before);
}

#[test]
fn halo_at_full_power_attenuates_per_pixel() {
    let c = cfg(100, 100);
    let n = white_note(10, 0);
    let mut frame = black_frame();
    assert!(n.calc_leds(&c, 100, &mut frame));
    let expected = [1u8, 3, 7, 15, 31, 63, 126, 253, 126, 63, 31, 15, 7, 3, 1];
    for (off, want) in expected.iter().enumerate() {
        let k = 13 + off;
        assert_eq!(frame[k].r, *want, "pixel {}", k);
        assert_eq!(frame[k].g, *want);
        assert_eq!(frame[k].b, *want);
        assert_eq!(frame[k].pad, 0);
    }
    assert_eq!(frame[12], Pixel { r: 0, g: 0, b: 0, pad: 0 });
    assert_eq!(frame[28], Pixel { r: 0, g: 0, b: 0, pad: 0 });
}

#[test]
fn held_note_stays_at_peak_and_is_never_evicted() {
    let c = cfg(100, 100);
    let n = white_note(10, 0);

    let mut early = black_frame();
    assert!(n.calc_leds(&c, 0, &mut early));
    assert_eq!(early[20].r, 0);

    let mut mid = black_frame();
    assert!(n.calc_leds(&c, 50, &mut mid));

    let mut peak = black_frame();
    assert!(n.calc_leds(&c, 100, &mut peak));
    assert!(mid[20].r < peak[20].r);

    // far past fade-in + fade-out, with no release: still live, still peak
    let mut held = black_frame();
    assert!(n.calc_leds(&c, 1_000_000, &mut held));
    assert_eq!(held[20].r, peak[20].r);
    assert_eq!(held[20].r, 253);
}

#[test]
fn attack_ramps_strictly_while_held() {
    let c = cfg(1000, 1000);
    let n = white_note(10, 0);
    let mut last = 0u8;
    for t in [100u64, 300, 500, 700, 900] {
        let mut frame = black_frame();
        assert!(n.calc_leds(&c, t, &mut frame));
        assert!(frame[20].r > last, "at {}", t);
        last = frame[20].r;
    }
}

#[test]
fn immediate_off_still_fades_in_before_fading_out() {
    // a release before the fade-in completes is clamped, so the note keeps
    // ramping up until the fade-in window has elapsed and only then decays
    let c = cfg(1000, 1000);
    let mut n = white_note(10, 0);
    assert!(n.set_off_time(10, &c));
    assert_eq!(n.off_time, 1000);

    let mut ramping = black_frame();
    assert!(n.calc_leds(&c, 500, &mut ramping));
    assert_eq!(ramping[20].r, 126);

    let mut peak = black_frame();
    assert!(n.calc_leds(&c, 1000, &mut peak));
    assert_eq!(peak[20].r, 253);

    let mut decaying = black_frame();
    assert!(n.calc_leds(&c, 1050, &mut decaying));
    assert_eq!(decaying[20].r, 126);

    // the tenfold release clock runs the envelope out quickly
    let mut gone = black_frame();
    assert!(!n.calc_leds(&c, 1101, &mut gone));
    assert_eq!(gone[20].r, 0);
}

#[test]
fn note_on_appends_and_note_off_releases_first_match() {
    let c = cfg(10, 1000);
    let mut rc = RandomColor::new();
    let mut notes: Vec<Note> = Vec::new();

    let on = |n: u8, v: u8, t: u64| MidiMessage { time: t, event: MidiEvent::NoteOn(n, v) };
    assert!(handle_event(&mut notes, &mut rc, &on(60, 100, 5), &c));
    assert!(handle_event(&mut notes, &mut rc, &on(60, 90, 6), &c));
    assert!(handle_event(&mut notes, &mut rc, &on(61, 80, 7), &c));
    assert_eq!(notes.len(), 3);
    assert!(notes[0].on && notes[1].on && notes[2].on);
    assert_eq!((notes[0].note, notes[0].vel, notes[0].on_time), (60, 100, 5));
    assert_eq!((notes[1].note, notes[1].vel, notes[1].on_time), (60, 90, 6));

    let off = MidiMessage { time: 7, event: MidiEvent::NoteOff(60, 0) };
    assert!(handle_event(&mut notes, &mut rc, &off, &c));
    assert!(!notes[0].on, "the first matching held note is released");
    assert_eq!(notes[0].off_time, 15, "clamped to on-time + fade-in");
    assert!(notes[1].on, "the later note with the same number is untouched");

    // a second off for the same number finds the next held one
    let off2 = MidiMessage { time: 40, event: MidiEvent::NoteOff(60, 0) };
    assert!(handle_event(&mut notes, &mut rc, &off2, &c));
    assert!(!notes[1].on);
    assert_eq!(notes[1].off_time, 40);

    let other = MidiMessage { time: 41, event: MidiEvent::CtrlChg(1, 2) };
    assert!(handle_event(&mut notes, &mut rc, &other, &c));
    assert_eq!(notes.len(), 3);

    let end = MidiMessage { time: 42, event: MidiEvent::Unrecongized };
    assert!(!handle_event(&mut notes, &mut rc, &end, &c), "sentinel stops the loop");
}

#[test]
fn render_reports_first_live_note_and_eviction_pops_the_dead_prefix() {
    let c = cfg(10, 10);
    let mut dead = white_note(10, 0);
    dead.set_off_time(10, &c);
    let live = white_note(20, 0);
    let notes = vec![dead, dead, live, dead];

    // past the dead notes' envelopes (tenfold clock), the live one at peak
    let (frame, start) = render_notes(&notes, &c, 100);
    assert_eq!(frame.len(), 256);
    assert_eq!(start, 2);
    assert_eq!(frame[40].r, 253);
    assert_eq!(frame[20].r, 0);

    let mut q = notes.clone();
    evict_dead(&mut q, start);
    assert_eq!(q.len(), 2);
    assert_eq!(q[0].note, 20);

    let empty: Vec<Note> = Vec::new();
    let (dark, none) = render_notes(&empty, &c, 50);
    assert_eq!(none, usize::MAX);
    assert!(dark.iter().all(|p| *p == Pixel { r: 0, g: 0, b: 0, pad: 0 }));

    let mut all = vec![dead, dead];
    let (_, s) = render_notes(&all, &c, 100);
    assert_eq!(s, usize::MAX);
    evict_dead(&mut all, s);
    assert!(all.is_empty());
}

#[test]
fn config_setters_and_getters_round_trip() {
    let mut c = LedConfigData::default();
    assert_eq!(c.get_brightness(), 255);
    assert_eq!(c.get_fade_out(), 3000000);
    assert_eq!(c.get_fade_in(), 200000);
    assert!(!c.get_invert());

    c.set_fade_in(7);
    c.set_fade_out(9);
    c.set_brightness(11);
    c.set_invert(true);
    assert_eq!(
        (c.get_fade_in(), c.get_fade_out(), c.get_brightness(), c.get_invert()),
        (7, 9, 11, true),
    );

    let mut d = LedConfigData::default();
    d.set_config(&c.get_config());
    assert_eq!(
        (d.get_fade_in(), d.get_fade_out(), d.get_brightness(), d.get_invert()),
        (7, 9, 11, true),
    );
}

#[test]
fn abs_diff_is_symmetric() {
    assert_eq!(abs_diff_u(3, 10), 7);
    assert_eq!(abs_diff_u(10, 3), 7);
    assert_eq!(abs_diff_u(4, 4), 0);
}
