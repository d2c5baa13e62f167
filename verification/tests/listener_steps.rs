use irclog::listener::{Listener, Step};
use irclog::record::DateMessage;
use irclog::session::{SessionError, SessionEvent};
use std::time::{SystemTime, UNIX_EPOCH};

fn received(text: &str) -> SessionEvent {
    SessionEvent::Received(String::from(text))
}

fn failed(description: &str, code: Option<i32>) -> SessionEvent {
    SessionEvent::Failed(SessionError { description: String::from(description), code })
}

fn forward(time: i64, text: &str, identify: bool, echo: bool) -> Step {
    Step::Forward { record: DateMessage { time, message: String::from(text) }, identify, echo }
}

#[test]
fn a_new_listener_has_done_nothing() {
    let listener = Listener::new(false);
    assert!(!listener.is_identified());
    assert!(!listener.is_stopped());
}

#[test]
fn each_event_is_forwarded_with_its_time_and_text() {
    let mut listener = Listener::new(false);
    assert_eq!(listener.on_event(received("A"), 100), forward(100, "A", true, false));
    listener.identify_done(true);
    assert_eq!(listener.on_event(received("B"), 101), forward(101, "B", false, false));
    assert_eq!(listener.on_event(received("C"), 103), forward(103, "C", false, false));
    assert_eq!(listener.on_event(received(""), -5), forward(-5, "", false, false));
}

#[test]
fn identification_is_asked_for_once_when_it_succeeds() {
    let mut listener = Listener::new(false);
    let mut attempts = 0;
    for (at, text) in [(1, "a"), (2, "b"), (3, "c"), (4, "d")] {
        match listener.on_event(received(text), at) {
            Step::Forward { identify, .. } => {
                if identify {
                    attempts += 1;
                    listener.identify_done(true);
                }
            }
            other => panic!("{:?}", other),
        }
    }
    assert_eq!(attempts, 1);
    assert!(listener.is_identified());
}

#[test]
fn identification_is_asked_for_again_until_it_succeeds() {
    let mut listener = Listener::new(false);
    let answers = [false, false, true, false, false];
    let mut attempts = 0;
    for (i, ok) in answers.iter().enumerate() {
        match listener.on_event(received("x"), i as i64) {
            Step::Forward { identify, .. } => {
                assert_eq!(identify, i <= 2);
                if identify {
                    attempts += 1;
                    listener.identify_done(*ok);
                }
            }
            other => panic!("{:?}", other),
        }
    }
    assert_eq!(attempts, 3);
    assert!(listener.is_identified());
}

#[test]
fn a_success_is_not_taken_back() {
    let mut listener = Listener::new(false);
    listener.identify_done(true);
    listener.identify_done(false);
    assert!(listener.is_identified());
}

#[test]
fn a_failure_is_reported_and_stops_the_listener() {
    let mut listener = Listener::new(false);
    assert_eq!(listener.on_event(received("A"), 1), forward(1, "A", true, false));
    let step = listener.on_event(failed("connection reset", Some(104)), 2);
    assert_eq!(
        step,
        Step::Report {
            error: SessionError { description: String::from("connection reset"), code: Some(104) }
        }
    );
    assert!(listener.is_stopped());
    assert_eq!(listener.on_event(received("B"), 3), Step::Nothing);
    assert_eq!(listener.on_event(failed("again", None), 4), Step::Nothing);
    assert_eq!(listener.receive(received("C")), Step::Nothing);
    assert!(listener.is_stopped());
}

#[test]
fn a_failure_before_any_event_asks_for_no_identification() {
    let mut listener = Listener::new(true);
    let step = listener.on_event(failed("refused", None), 9);
    assert_eq!(
        step,
        Step::Report { error: SessionError { description: String::from("refused"), code: None } }
    );
    assert!(!listener.is_identified());
}

#[test]
fn events_are_echoed_only_with_the_debug_flag() {
    let mut quiet = Listener::new(false);
    let mut loud = Listener::new(true);
    assert_eq!(quiet.on_event(received("A"), 1), forward(1, "A", true, false));
    assert_eq!(loud.on_event(received("A"), 1), forward(1, "A", true, true));
}

#[test]
fn receive_stamps_the_time_of_the_call() {
    let before = SystemTime::now().duration_since(UNIX_EPOCH).unwrap().as_secs() as i64;
    let mut listener = Listener::new(false);
    let step = listener.receive(received("PING :irc.example.org"));
    let after = SystemTime::now().duration_since(UNIX_EPOCH).unwrap().as_secs() as i64;
    match step {
        Step::Forward { record, identify, echo } => {
            assert!(before <= record.time && record.time <= after, "{}", record.time);
            assert_eq!(record.message, "PING :irc.example.org");
            assert!(identify);
            assert!(!echo);
        }
        other => panic!("{:?}", other),
    }
}
