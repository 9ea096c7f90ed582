use spectrum::color::Pixel;
use spectrum::layout::{base_colors, render_bins};
use spectrum::pipeline::{blend_frame, send_policy, SendOutcome};
use spectrum::pulse::{silence_step, tri_level, CycleOutput, PulseCalc};

#[test]
fn silence_counter_climbs_and_switches_to_pulse() {
    let mut count: usize = 0;
    for i in 1..512usize {
        let (draw, out) = silence_step(&mut count, true, true);
        assert_eq!(count, i);
        assert!(!draw);
        assert_eq!(out, CycleOutput::Spectrum);
    }
    let (draw, out) = silence_step(&mut count, true, true);
    assert_eq!(count, 512);
    assert!(draw, "a fresh color is due every full period");
    assert_eq!(out, CycleOutput::Pulse { time: 512 });
    let (draw, out) = silence_step(&mut count, true, true);
    assert!(!draw);
    assert_eq!(out, CycleOutput::Pulse { time: 513 });
}

#[test]
fn any_loud_window_resets_the_counter_at_once() {
    let mut count: usize = 700;
    let (draw, out) = silence_step(&mut count, true, false);
    assert_eq!(count, 0);
    assert!(!draw);
    assert_eq!(out, CycleOutput::Spectrum);
}

#[test]
fn pulse_disabled_keeps_the_counter_at_zero() {
    let mut count: usize = 9;
    let (_, out) = silence_step(&mut count, false, true);
    assert_eq!(count, 0);
    assert_eq!(out, CycleOutput::Spectrum);
}

#[test]
fn triangular_wave_climbs_to_the_midpoint_and_back() {
    assert_eq!(tri_level(0, 512), 0);
    assert_eq!(tri_level(128, 512), 128);
    assert_eq!(tri_level(256, 512), 256);
    assert_eq!(tri_level(384, 512), 128);
    assert_eq!(tri_level(512, 512), 0);
    assert_eq!(tri_level(600, 512), 88);
    // odd and degenerate periods
    assert_eq!(tri_level(3, 5), 1);
    assert_eq!(tri_level(0, 1), 0);
}

#[test]
fn drawn_pulse_color_keeps_the_pad_channel_dark() {
    let mut p = PulseCalc::new();
    assert_eq!(p.color().pad, 0);
    p.new_color();
    assert_eq!(p.color().pad, 0);
}

#[test]
fn dropped_frame_is_a_warning_not_a_wait() {
    assert_eq!(send_policy(SendOutcome::Sent), (true, false));
    assert_eq!(send_policy(SendOutcome::Full), (true, true));
    assert_eq!(send_policy(SendOutcome::Disconnected), (false, false));
}

#[test]
fn second_frame_into_a_full_depth_one_queue_is_dropped_not_queued() {
    // the compute-to-render handoff: capacity one, non-blocking send
    let (sender, recv) = std::sync::mpsc::sync_channel::<Vec<Pixel>>(1);
    let first = vec![Pixel { r: 1, g: 0, b: 0, pad: 0 }];
    let second = vec![Pixel { r: 2, g: 0, b: 0, pad: 0 }];
    assert!(sender.try_send(first.clone()).is_ok());
    let outcome = match sender.try_send(second) {
        Ok(()) => SendOutcome::Sent,
        Err(std::sync::mpsc::TrySendError::Full(_)) => SendOutcome::Full,
        Err(std::sync::mpsc::TrySendError::Disconnected(_)) => SendOutcome::Disconnected,
    };
    assert_eq!(outcome, SendOutcome::Full);
    let (keep_going, warn) = send_policy(outcome);
    assert!(keep_going && warn, "a drop is only worth a warning");
    assert_eq!(recv.recv().unwrap(), first, "the queued frame is the first one");
    drop(recv);
    let third = vec![Pixel { r: 3, g: 0, b: 0, pad: 0 }];
    let gone = match sender.try_send(third) {
        Ok(()) => SendOutcome::Sent,
        Err(std::sync::mpsc::TrySendError::Full(_)) => SendOutcome::Full,
        Err(std::sync::mpsc::TrySendError::Disconnected(_)) => SendOutcome::Disconnected,
    };
    let (still_going, _) = send_policy(gone);
    assert!(!still_going, "a disconnected queue stops the compute loop");
}

#[test]
fn blending_keeps_three_quarters_of_the_old_value() {
    let mut live = vec![
        Pixel { r: 200, g: 0, b: 100, pad: 7 },
        Pixel { r: 40, g: 40, b: 40, pad: 0 },
    ];
    let fresh = vec![
        Pixel { r: 0, g: 200, b: 100, pad: 9 },
        Pixel { r: 255, g: 0, b: 40, pad: 0 },
    ];
    blend_frame(&mut live, &fresh);
    assert_eq!(live[0], Pixel { r: 150, g: 50, b: 100, pad: 7 });
    assert_eq!(live[1], Pixel { r: 93, g: 30, b: 40, pad: 0 });
}

#[test]
fn blending_takes_only_what_both_sides_hold() {
    let mut live = vec![Pixel { r: 100, g: 1, b: 1, pad: 5 }; 3];
    let fresh = vec![Pixel { r: 0, g: 9, b: 255, pad: 6 }; 2];
    blend_frame(&mut live, &fresh);
    assert_eq!(live[0], Pixel { r: 75, g: 3, b: 64, pad: 5 });
    assert_eq!(live[1], Pixel { r: 75, g: 3, b: 64, pad: 5 });
    assert_eq!(live[2], Pixel { r: 100, g: 1, b: 1, pad: 5 });
}

#[test]
fn bins_fill_both_ends_and_the_right_pass_wins() {
    let colors = base_colors();
    let frame = render_bins(16, false, &colors, [1, 1, 1, 1], [1, 1, 1, 1]);
    assert_eq!(frame.len(), 16);
    assert_eq!(frame[0], colors[0]);
    assert_eq!(frame[1], colors[1]);
    assert_eq!(frame[2], colors[2]);
    assert_eq!(frame[3], colors[3]);
    for k in 4..12 {
        assert_eq!(frame[k], Pixel { r: 0, g: 0, b: 0, pad: 0 });
    }
    assert_eq!(frame[12], colors[3]);
    assert_eq!(frame[13], colors[2]);
    assert_eq!(frame[14], colors[1]);
    assert_eq!(frame[15], colors[0]);

    // overlapping segments: the pass from the right end overwrites
    let over = render_bins(8, false, &colors, [2, 2, 2, 2], [1, 1, 1, 1]);
    assert_eq!(over[0], colors[0]);
    assert_eq!(over[3], colors[1]);
    assert_eq!(over[4], colors[3]);
    assert_eq!(over[7], colors[0]);

    // inverting swaps which channel fills which end
    let inv = render_bins(16, true, &colors, [2, 1, 1, 1], [1, 1, 1, 1]);
    assert_eq!(inv[0], colors[0]);
    assert_eq!(inv[4], Pixel { r: 0, g: 0, b: 0, pad: 0 });
    assert_eq!(inv[15], colors[0]);
    assert_eq!(inv[14], colors[0]);
    assert_eq!(inv[13], colors[1]);
}
