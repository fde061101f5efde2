use echokit::button::{race_input, ButtonEvent, ButtonInput, Classifier, ClassifierState, LONG_PRESS_MS};

fn press(c: &mut Classifier, held_ms: u64) -> Vec<ButtonEvent> {
    let mut out = Vec::new();
    for i in [ButtonInput::Pressed, race_input(held_ms)] {
        if let Some(e) = c.feed(i) {
            out.push(e);
        }
    }
    out
}

#[test]
fn quick_release_is_one_short_press() {
    let mut c = Classifier::new();
    assert_eq!(press(&mut c, 200), vec![ButtonEvent::ButtonShort]);
    assert_eq!(press(&mut c, 999), vec![ButtonEvent::ButtonShort]);
    assert_eq!(c.state, ClassifierState::Idle);
}

#[test]
fn hold_past_timeout_is_one_long_press() {
    let mut c = Classifier::new();
    assert_eq!(press(&mut c, LONG_PRESS_MS), vec![ButtonEvent::ButtonLong]);
    assert_eq!(press(&mut c, 5000), vec![ButtonEvent::ButtonLong]);
    assert_eq!(c.state, ClassifierState::Idle);
}

#[test]
fn race_boundary() {
    assert_eq!(race_input(0), ButtonInput::Released);
    assert_eq!(race_input(999), ButtonInput::Released);
    assert_eq!(race_input(1000), ButtonInput::TimedOut);
}

#[test]
fn press_alone_yields_nothing_yet() {
    let mut c = Classifier::new();
    assert_eq!(c.feed(ButtonInput::Pressed), None);
    assert_eq!(c.state, ClassifierState::Pressed);
    assert_eq!(c.feed(ButtonInput::Pressed), None);
    assert_eq!(c.feed(ButtonInput::Released), Some(ButtonEvent::ButtonShort));
}

#[test]
fn stray_edges_while_idle_are_ignored() {
    let mut c = Classifier::new();
    assert_eq!(c.feed(ButtonInput::Released), None);
    assert_eq!(c.feed(ButtonInput::TimedOut), None);
    assert_eq!(c.state, ClassifierState::Idle);
}

#[test]
fn send_failure_stops_the_classifier() {
    let mut c = Classifier::new();
    assert!(c.is_running());
    assert_eq!(c.feed(ButtonInput::SendFailed), None);
    assert!(!c.is_running());
    assert_eq!(press(&mut c, 100), Vec::<ButtonEvent>::new());
    assert_eq!(c.state, ClassifierState::Stopped);
}
