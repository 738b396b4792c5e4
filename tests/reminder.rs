use remind::{
    choices, parse_minutes, Choice, Countdown, InputError, Phase, Reminder, MAX_MINUTES,
    TICKS_PER_MINUTE,
};

#[test]
fn parse_plain_number() {
    assert_eq!(parse_minutes("5"), Ok(5));
    assert_eq!(parse_minutes("30"), Ok(30));
    assert_eq!(parse_minutes("0"), Ok(0));
    assert_eq!(parse_minutes("007"), Ok(7));
}

#[test]
fn parse_signed_number() {
    assert_eq!(parse_minutes("+7"), Ok(7));
    assert_eq!(parse_minutes("-0"), Ok(0));
}

#[test]
fn parse_not_a_number() {
    assert_eq!(parse_minutes(""), Err(InputError::NotANumber));
    assert_eq!(parse_minutes("abc"), Err(InputError::NotANumber));
    assert_eq!(parse_minutes("-"), Err(InputError::NotANumber));
    assert_eq!(parse_minutes("+"), Err(InputError::NotANumber));
    assert_eq!(parse_minutes("1.5"), Err(InputError::NotANumber));
    assert_eq!(parse_minutes(" 5"), Err(InputError::NotANumber));
    assert_eq!(parse_minutes("5 "), Err(InputError::NotANumber));
    assert_eq!(parse_minutes("--5"), Err(InputError::NotANumber));
    assert_eq!(parse_minutes("五"), Err(InputError::NotANumber));
}

#[test]
fn parse_negative() {
    assert_eq!(parse_minutes("-3"), Err(InputError::Negative));
    assert_eq!(parse_minutes("-99999999999999999999"), Err(InputError::Negative));
}

#[test]
fn parse_limits() {
    assert_eq!(parse_minutes("2147483647"), Ok(MAX_MINUTES));
    assert_eq!(parse_minutes("2147483648"), Err(InputError::TooLarge));
    assert_eq!(parse_minutes("99999999999999999999999"), Err(InputError::TooLarge));
}

#[test]
fn countdown_expires_after_exact_duration() {
    let mut c = Countdown::new();
    assert_eq!(c.phase(), Phase::Idle);
    c.arm(3);
    assert_eq!(c.phase(), Phase::Running { remaining: 3 });
    let mut signals = 0;
    for _ in 0..2 {
        if c.tick() {
            signals += 1;
        }
    }
    assert_eq!(signals, 0);
    assert_eq!(c.phase(), Phase::Running { remaining: 1 });
    assert!(c.tick());
    assert_eq!(c.phase(), Phase::Expired);
}

#[test]
fn countdown_zero_fires_on_first_tick() {
    let mut c = Countdown::new();
    c.arm(0);
    assert!(c.tick());
    assert_eq!(c.phase(), Phase::Expired);
}

#[test]
fn countdown_signals_only_once() {
    let mut c = Countdown::new();
    c.arm(2);
    let mut signals = 0;
    for _ in 0..50 {
        if c.tick() {
            signals += 1;
        }
    }
    assert_eq!(signals, 1);
    assert_eq!(c.phase(), Phase::Expired);
}

#[test]
fn countdown_idle_ticks_do_nothing() {
    let mut c = Countdown::new();
    assert!(!c.tick());
    assert_eq!(c.phase(), Phase::Idle);
    c.arm(5);
    c.cancel();
    for _ in 0..10 {
        assert!(!c.tick());
    }
    assert_eq!(c.phase(), Phase::Idle);
}

#[test]
fn reminder_starts_idle_with_initial_text() {
    let r = Reminder::new();
    assert_eq!(r.phase(), Phase::Idle);
    assert_eq!(r.field(), "30");
}

#[test]
fn five_minutes_then_dialog_then_quit() {
    let mut r = Reminder::new();
    assert_eq!(r.start("5"), Ok(5 * TICKS_PER_MINUTE));
    assert_eq!(TICKS_PER_MINUTE, 60);
    assert_eq!(r.field(), "5");
    for _ in 0..299 {
        assert!(!r.tick());
    }
    assert!(r.tick());
    assert_eq!(r.phase(), Phase::Expired);
    let labels: Vec<&str> = choices().iter().map(|c| c.label()).collect();
    assert_eq!(labels, vec!["Quit", "Reset", "Continue"]);
    assert!(!r.tick());
    assert!(r.resolve(Choice::Quit));
}

#[test]
fn five_minutes_then_dialog_then_reset() {
    let mut r = Reminder::new();
    assert_eq!(r.start("5"), Ok(300));
    let mut signals = 0;
    for _ in 0..300 {
        if r.tick() {
            signals += 1;
        }
    }
    assert_eq!(signals, 1);
    assert!(!r.resolve(Choice::Reset));
    assert_eq!(r.phase(), Phase::Idle);
    assert_eq!(r.field(), "0");
}

#[test]
fn continue_keeps_duration() {
    let mut r = Reminder::new();
    assert_eq!(r.start("1"), Ok(60));
    for _ in 0..60 {
        r.tick();
    }
    assert!(!r.resolve(Choice::Continue));
    assert_eq!(r.phase(), Phase::Idle);
    assert_eq!(r.field(), "1");
}

#[test]
fn negative_input_is_refused_and_stays_idle() {
    let mut r = Reminder::new();
    assert_eq!(r.start("-3"), Err(InputError::Negative));
    assert_eq!(r.phase(), Phase::Idle);
    assert_eq!(r.field(), "30");
    assert!(!r.tick());
    assert_eq!(r.phase(), Phase::Idle);
}

#[test]
fn non_numeric_input_is_refused_and_stays_idle() {
    let mut r = Reminder::new();
    assert_eq!(r.start("ten"), Err(InputError::NotANumber));
    assert_eq!(r.phase(), Phase::Idle);
    assert_eq!(r.start("99999999999"), Err(InputError::TooLarge));
    assert_eq!(r.phase(), Phase::Idle);
}

#[test]
fn bad_input_keeps_a_running_countdown() {
    let mut r = Reminder::new();
    assert_eq!(r.start("2"), Ok(120));
    r.tick();
    assert_eq!(r.start("x"), Err(InputError::NotANumber));
    assert_eq!(r.phase(), Phase::Running { remaining: 119 });
    assert_eq!(r.field(), "2");
}

#[test]
fn start_zero_fires_on_first_tick() {
    let mut r = Reminder::new();
    assert_eq!(r.start("0"), Ok(0));
    assert!(r.tick());
    assert!(!r.tick());
}

#[test]
fn start_again_restarts_the_run() {
    let mut r = Reminder::new();
    assert_eq!(r.start("1"), Ok(60));
    for _ in 0..30 {
        r.tick();
    }
    assert_eq!(r.start("2"), Ok(120));
    assert_eq!(r.phase(), Phase::Running { remaining: 120 });
    for _ in 0..119 {
        assert!(!r.tick());
    }
    assert!(r.tick());
}

#[test]
fn reset_from_every_phase() {
    let mut r = Reminder::new();
    r.reset();
    assert_eq!(r.phase(), Phase::Idle);
    assert_eq!(r.field(), "0");

    let mut r = Reminder::new();
    r.start("3").unwrap();
    r.tick();
    r.reset();
    assert_eq!(r.phase(), Phase::Idle);
    assert_eq!(r.field(), "0");
    for _ in 0..500 {
        assert!(!r.tick());
    }

    let mut r = Reminder::new();
    r.start("0").unwrap();
    assert!(r.tick());
    r.reset();
    assert_eq!(r.phase(), Phase::Idle);
    assert_eq!(r.field(), "0");
}

#[test]
fn dialog_index_maps_to_choice() {
    assert_eq!(Choice::from_index(Some(0)), Choice::Quit);
    assert_eq!(Choice::from_index(Some(1)), Choice::Reset);
    assert_eq!(Choice::from_index(Some(2)), Choice::Continue);
    assert_eq!(Choice::from_index(Some(3)), Choice::Continue);
    assert_eq!(Choice::from_index(Some(-1)), Choice::Continue);
    assert_eq!(Choice::from_index(None), Choice::Continue);
    let all = choices();
    for (i, c) in all.iter().enumerate() {
        assert_eq!(Choice::from_index(Some(i as i32)), *c);
    }
}

#[test]
fn choice_labels() {
    assert_eq!(Choice::Quit.label(), "Quit");
    assert_eq!(Choice::Reset.label(), "Reset");
    assert_eq!(Choice::Continue.label(), "Continue");
}
