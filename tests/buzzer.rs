use quiz_buzzer::game::Rule;
use quiz_buzzer::{
    ButtonLevels, Command, Contestant, LcdError, Message, PollLoop, Status, REFRESH_INTERVAL,
};

fn none() -> ButtonLevels {
    ButtonLevels { red: false, blue: false, reset: false, correct: false, incorrect: false }
}

fn red() -> ButtonLevels {
    ButtonLevels { red: true, ..none() }
}

fn blue() -> ButtonLevels {
    ButtonLevels { blue: true, ..none() }
}

fn reset() -> ButtonLevels {
    ButtonLevels { reset: true, ..none() }
}

fn correct() -> ButtonLevels {
    ButtonLevels { correct: true, ..none() }
}

fn incorrect() -> ButtonLevels {
    ButtonLevels { incorrect: true, ..none() }
}

/// A loop whose first redraw has already happened, so that no tick is due.
fn settled(interval: u32) -> PollLoop {
    let mut p = PollLoop::new(interval);
    let cmds = p.poll(none());
    assert_eq!(cmds, vec![Command::Render(Message::Counter(0))]);
    p
}

#[test]
fn red_lock_then_reset_scenario() {
    let mut p = settled(REFRESH_INTERVAL);
    p.status.display_value = 0;
    let cmds = p.poll(red());
    assert!(p.status.lock);
    assert_eq!(p.status.contestant, Some(Contestant::A));
    assert_eq!(cmds, vec![Command::SetRed, Command::Render(Message::Red)]);
    assert_eq!(Message::Red.text(), b"Red!!".to_vec());

    let cmds = p.poll(reset());
    assert!(!p.status.lock);
    assert_eq!(p.status.contestant, None);
    assert_eq!(p.status.display_value, 0);
    assert_eq!(cmds, vec![Command::ClearIndicators]);
}

#[test]
fn tick_at_refresh_boundary_scenario() {
    let mut p = PollLoop::new(REFRESH_INTERVAL);
    p.status.display_value = 5;
    let cmds = p.poll(none());
    assert_eq!(cmds, vec![Command::Render(Message::Counter(5))]);
    assert_eq!(Message::Counter(5).text(), b"5".to_vec());
    assert_eq!(p.status.display_value, 6);
    assert_eq!(p.since_refresh, 1);
}

#[test]
fn counter_advances_once_per_interval() {
    let mut p = PollLoop::new(3);
    let mut shown = Vec::new();
    for _ in 0..10 {
        for c in p.poll(none()) {
            shown.push(c);
        }
    }
    // Iterations 0, 3, 6 and 9 redraw.
    assert_eq!(
        shown,
        vec![
            Command::Render(Message::Counter(0)),
            Command::Render(Message::Counter(1)),
            Command::Render(Message::Counter(2)),
            Command::Render(Message::Counter(3)),
        ]
    );
    assert_eq!(p.status.display_value, 4);
}

#[test]
fn counter_frozen_while_locked() {
    let mut p = PollLoop::new(2);
    p.poll(none());
    p.poll(blue());
    assert_eq!(p.status.contestant, Some(Contestant::B));
    let value = p.status.display_value;
    for _ in 0..10 {
        assert!(p.poll(none()).is_empty());
    }
    assert_eq!(p.status.display_value, value);
    assert!(p.status.lock);
}

#[test]
fn lock_held_without_reset() {
    let mut p = settled(REFRESH_INTERVAL);
    p.poll(blue());
    for s in [red(), blue(), correct(), incorrect(), none(), red()] {
        p.poll(s);
        assert!(p.status.lock);
        assert_eq!(p.status.contestant, Some(Contestant::B));
    }
}

#[test]
fn reset_from_any_state() {
    let mut p = settled(REFRESH_INTERVAL);
    p.status.display_value = 42;
    assert_eq!(p.poll(reset()), vec![Command::ClearIndicators]);
    assert_eq!(p.status, Status { lock: false, contestant: None, display_value: 0 });

    let mut q = settled(REFRESH_INTERVAL);
    q.poll(blue());
    q.status.display_value = 7;
    assert_eq!(q.poll(reset()), vec![Command::ClearIndicators]);
    assert_eq!(q.status, Status { lock: false, contestant: None, display_value: 0 });
}

#[test]
fn red_wins_simultaneous_press() {
    let mut p = settled(REFRESH_INTERVAL);
    let cmds = p.poll(ButtonLevels { red: true, blue: true, ..none() });
    assert_eq!(p.status.contestant, Some(Contestant::A));
    assert_eq!(cmds, vec![Command::SetRed, Command::Render(Message::Red)]);
}

#[test]
fn verdict_buttons_inert_while_open() {
    let mut p = settled(REFRESH_INTERVAL);
    let before = p.status;
    assert!(p.poll(correct()).is_empty());
    assert!(p.poll(incorrect()).is_empty());
    assert!(p.poll(ButtonLevels { correct: true, incorrect: true, ..none() }).is_empty());
    assert_eq!(p.status, before);
}

#[test]
fn verdict_buttons_while_locked() {
    let mut p = settled(REFRESH_INTERVAL);
    p.poll(red());
    assert_eq!(p.poll(correct()), vec![Command::Render(Message::Correct)]);
    assert_eq!(p.poll(incorrect()), vec![Command::Render(Message::Incorrect)]);
    let both = ButtonLevels { correct: true, incorrect: true, ..none() };
    assert_eq!(p.poll(both), vec![Command::Render(Message::Correct)]);
    assert_eq!(Message::Correct.text(), b"Correct!".to_vec());
    assert_eq!(Message::Incorrect.text(), b"Incorrect!".to_vec());
    assert_eq!(Message::Blue.text(), b"Blue!!".to_vec());
}

#[test]
fn red_beats_reset_while_open() {
    let mut p = settled(REFRESH_INTERVAL);
    let cmds = p.poll(ButtonLevels { red: true, reset: true, ..none() });
    assert!(p.status.lock);
    assert_eq!(cmds, vec![Command::SetRed, Command::Render(Message::Red)]);
}

#[test]
fn tick_delayed_by_button_then_taken() {
    let mut p = PollLoop::new(4);
    // The due redraw gives way to the reset, then follows in the next iteration.
    assert_eq!(p.poll(reset()), vec![Command::ClearIndicators]);
    assert_eq!(p.poll(none()), vec![Command::Render(Message::Counter(0))]);
    assert_eq!(p.status.display_value, 1);
}

#[test]
fn counter_stops_at_maximum() {
    let mut p = PollLoop::new(1);
    p.status.display_value = u32::MAX;
    assert!(p.poll(none()).is_empty());
    assert_eq!(p.status.display_value, u32::MAX);
}

#[test]
fn decimal_text() {
    assert_eq!(Message::Counter(0).text(), b"0".to_vec());
    assert_eq!(Message::Counter(10).text(), b"10".to_vec());
    assert_eq!(Message::Counter(907).text(), b"907".to_vec());
    assert_eq!(Message::Counter(u32::MAX).text(), b"4294967295".to_vec());
}

#[test]
fn status_methods() {
    let mut s = Status::new();
    assert_eq!(s, Status { lock: false, contestant: None, display_value: 0 });
    s.inc_value();
    s.inc_value();
    assert_eq!(s.display_value, 2);
    s.set_lock(Contestant::B);
    assert!(s.lock);
    assert_eq!(s.contestant, Some(Contestant::B));
    s.unset_lock();
    s.reset_value();
    assert_eq!(s, Status::new());
}

#[test]
fn rule_order() {
    let open = Status::new();
    let all = ButtonLevels { red: true, blue: true, reset: true, correct: true, incorrect: true };
    assert_eq!(open.rule_for(all, true), Rule::LockRed);
    assert_eq!(open.rule_for(ButtonLevels { red: false, ..all }, true), Rule::LockBlue);
    assert_eq!(open.rule_for(none(), true), Rule::Tick);
    assert_eq!(open.rule_for(none(), false), Rule::Idle);
    let locked = Status { lock: true, contestant: Some(Contestant::A), display_value: 3 };
    assert_eq!(locked.rule_for(all, true), Rule::Reset);
    assert_eq!(locked.rule_for(ButtonLevels { reset: false, ..all }, true), Rule::Correct);
    assert_eq!(locked.rule_for(incorrect(), true), Rule::Incorrect);
    assert_eq!(locked.rule_for(none(), true), Rule::Idle);
}

#[test]
fn lcd_errors_distinct() {
    assert_ne!(LcdError::InitError, LcdError::ClearError);
    assert_ne!(LcdError::ClearError, LcdError::WriteStrError);
}
