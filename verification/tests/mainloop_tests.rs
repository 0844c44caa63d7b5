use roar_display::counter::CounterState;
use roar_display::debounce::ButtonState;
use roar_display::frame::FrameRenderer;
use roar_display::mainloop::{MAIN_TEXT_X, MAIN_TEXT_Y, render_count_frame, tick};

#[test]
fn loop_entry_shows_the_starting_value() {
    // the initial "Roar 1" frame is composed once at loop entry, outside the
    // tick, and is exactly the rendering of the label at the fixed position
    let mut r = FrameRenderer::new();
    let frame = render_count_frame(&mut r, 1);
    assert!(frame.iter().any(|&b| b != 0));

    let mut direct = FrameRenderer::new();
    direct.draw_text("Roar 1", MAIN_TEXT_X, MAIN_TEXT_Y);
    assert_eq!(frame, direct.snapshot());
}

#[test]
fn idle_ticks_never_redraw() {
    let mut c = CounterState::new();
    let mut b = ButtonState::new();
    let mut r = FrameRenderer::new();
    let _entry = render_count_frame(&mut r, c.count);
    // a redraw happens in an iteration iff that iteration accepted a press:
    // consecutive non-press ticks never trigger a flush, from the very first
    for t in 0..500u64 {
        assert!(tick(&mut c, &mut b, &mut r, false, t).is_none());
        assert_eq!(c.count, 1);
    }
}

#[test]
fn accepted_press_redraws_incremented_count() {
    let mut c = CounterState::new();
    let mut b = ButtonState::new();
    let mut r = FrameRenderer::new();
    let _entry = render_count_frame(&mut r, c.count);

    // first press: accepted, counter 2, one redraw
    let frame = tick(&mut c, &mut b, &mut r, true, 1000).expect("press redraws");
    assert_eq!(c.count, 2);
    let mut direct = FrameRenderer::new();
    direct.draw_text("Roar 2", MAIN_TEXT_X, MAIN_TEXT_Y);
    assert_eq!(frame, direct.snapshot());

    // a bouncing press 50 ms later is rejected: no redraw, no increment
    assert!(tick(&mut c, &mut b, &mut r, true, 1050).is_none());
    assert_eq!(c.count, 2);

    // held low but within the window on later ticks: still nothing
    assert!(tick(&mut c, &mut b, &mut r, true, 1200).is_none());
    assert_eq!(c.count, 2);

    // strictly more than 200 ms after the accepted press: accepted again
    let frame = tick(&mut c, &mut b, &mut r, true, 1201).expect("debounced press redraws");
    assert_eq!(c.count, 3);
    assert!(frame.iter().any(|&b| b != 0));
}

#[test]
fn label_rendering_matches_for_each_count() {
    // the tick's frame must match a direct rendering of the formatted label,
    // so the label really is "Roar " followed by the decimal count
    let mut c = CounterState::new();
    let mut b = ButtonState::new();
    let mut r = FrameRenderer::new();
    let _entry = render_count_frame(&mut r, c.count);
    let mut now = 1000u64;
    for expect in [2u64, 3, 4, 5, 6, 7, 8, 9, 10, 11] {
        let frame = tick(&mut c, &mut b, &mut r, true, now).expect("press redraws");
        assert_eq!(c.count, expect);
        let mut direct = FrameRenderer::new();
        let label = format!("Roar {expect}");
        direct.draw_text(&label, MAIN_TEXT_X, MAIN_TEXT_Y);
        assert_eq!(frame, direct.snapshot(), "frame for count {expect}");
        now += 1000;
    }
}
