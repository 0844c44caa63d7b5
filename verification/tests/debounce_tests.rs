use roar_display::counter::CounterState;
use roar_display::debounce::ButtonState;

#[test]
fn first_press_always_accepted() {
    let mut b = ButtonState::new();
    assert!(b.accept_press(0));
}

#[test]
fn press_within_window_rejected() {
    let mut b = ButtonState::new();
    assert!(b.accept_press(1000));
    assert!(!b.accept_press(1100));
    assert!(!b.accept_press(1200));
    // exactly the window is still too soon: strictly more must elapse
    assert!(!b.accept_press(1200));
    assert!(!b.accept_press(1000 + 200));
    assert!(b.accept_press(1201));
}

#[test]
fn debounce_scenario_200ms() {
    // presses at t = 0, 50, 250, 460 ms: accepted at 0, 250 and 460,
    // the one at 50 rejected
    let mut b = ButtonState::new();
    let mut c = CounterState::new();
    assert_eq!(c.count, 1);

    let presses = [0u64, 50, 250, 460];
    let expected = [true, false, true, true];
    let mut counts = Vec::new();
    for (t, want) in presses.iter().zip(expected.iter()) {
        let got = b.accept_press(*t);
        assert_eq!(got, *want, "press at t={t}");
        if got {
            c.record_press();
            counts.push(c.count);
        }
    }
    // one increment per accepted press, starting from the implicit 1
    assert_eq!(counts, vec![2, 3, 4]);
}

#[test]
fn counter_starts_at_one_clean_and_steps_by_one() {
    let mut c = CounterState::new();
    assert_eq!(c.count, 1);
    assert!(!c.dirty);
    c.record_press();
    assert_eq!(c.count, 2);
    assert!(c.dirty);
    c.mark_clean();
    assert!(!c.dirty);
    assert_eq!(c.count, 2);
    c.record_press();
    assert_eq!(c.count, 3);
}

#[test]
fn backwards_clock_reading_is_rejected_not_fatal() {
    // the debounce computation is defined for every timestamp ordering:
    // a reading at or before the last accepted press is simply rejected
    let mut b = ButtonState::new();
    assert!(b.accept_press(1000));
    assert!(!b.accept_press(500));
    assert!(!b.accept_press(0));
    assert!(!b.accept_press(1000));
    assert!(b.accept_press(1201));
}
