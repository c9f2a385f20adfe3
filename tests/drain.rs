use zamm::errors::ZammError;
use zamm::events::{drain_events, CommandEvent, DrainStep, EventDrain};

fn out(s: &str) -> CommandEvent {
    CommandEvent::Stdout(s.to_string())
}

#[test]
fn error_signal_takes_precedence() {
    let events = vec![out("a"), CommandEvent::Error("boom".to_string()), CommandEvent::Terminated];
    match drain_events(&events) {
        Err(ZammError::SidecarCommandErr { line }) => assert_eq!(line, "boom"),
        other => panic!("expected a command error, got ok={}", other.is_ok()),
    }
}

#[test]
fn normal_termination_accumulates_lines() {
    let events = vec![out("a"), out("b"), CommandEvent::Terminated];
    assert_eq!(drain_events(&events).ok(), Some("a\nb\n".to_string()));
}

#[test]
fn error_lines_fold_into_output() {
    let events = vec![
        out("x"),
        CommandEvent::Stderr("warning".to_string()),
        out("{}"),
        CommandEvent::Terminated,
    ];
    assert_eq!(drain_events(&events).ok(), Some("x\nwarning\n{}\n".to_string()));
}

#[test]
fn unrecognized_event_fails() {
    let events = vec![CommandEvent::Unrecognized];
    assert!(matches!(drain_events(&events), Err(ZammError::SidecarUnexpectedCommandEvent)));
}

#[test]
fn unrecognized_after_lines_fails() {
    let events = vec![out("a"), CommandEvent::Unrecognized, CommandEvent::Terminated];
    assert!(matches!(drain_events(&events), Err(ZammError::SidecarUnexpectedCommandEvent)));
}

#[test]
fn events_after_termination_are_ignored() {
    let events = vec![
        out("a"),
        CommandEvent::Terminated,
        CommandEvent::Error("late".to_string()),
    ];
    assert_eq!(drain_events(&events).ok(), Some("a\n".to_string()));
}

#[test]
fn empty_terminated_stream_gives_empty_text() {
    let events = vec![CommandEvent::Terminated];
    assert_eq!(drain_events(&events).ok(), Some(String::new()));
}

#[test]
fn closed_stream_gives_accumulated_text() {
    let events = vec![out("a")];
    assert_eq!(drain_events(&events).ok(), Some("a\n".to_string()));
    assert_eq!(drain_events(&Vec::new()).ok(), Some(String::new()));
}

#[test]
fn drain_steps_one_event_at_a_time() {
    let drain = EventDrain::new();
    let drain = match drain.handle(out("first")) {
        DrainStep::Continue(d) => d,
        DrainStep::Done(_) => panic!("a line must not end the drain"),
    };
    let drain = match drain.handle(CommandEvent::Stderr("second".to_string())) {
        DrainStep::Continue(d) => d,
        DrainStep::Done(_) => panic!("a line must not end the drain"),
    };
    match drain.handle(CommandEvent::Terminated) {
        DrainStep::Done(Ok(text)) => assert_eq!(text, "first\nsecond\n"),
        _ => panic!("termination must hand the text over"),
    }
}

#[test]
fn drain_finish_hands_over_text() {
    let drain = match EventDrain::new().handle(out("partial")) {
        DrainStep::Continue(d) => d,
        DrainStep::Done(_) => panic!("a line must not end the drain"),
    };
    assert_eq!(drain.finish().ok(), Some("partial\n".to_string()));
}
