use x11uri::protocol::{Event, Notification, PropertyState, NONE};
use x11uri::sender::{SendAction, SendError, SendInput, SendSession, SendStage, SenderIds};

fn ids() -> SenderIds {
    SenderIds { window: 10, selection_atom: 302, prop_atom: 300, encoding_atom: 301 }
}

fn ack() -> Event {
    Event::PropertyNotify(Notification { window: 10, atom: 300, state: PropertyState::Delete, synthetic: false })
}

#[test]
fn session_runs_write_inject_wait() {
    let mut s = SendSession::new(ids(), "https://example.org");
    assert_eq!(s.current_stage(), SendStage::LookingUp);
    match s.step(SendInput::Owner(20)) {
        SendAction::Write(w) => {
            assert_eq!((w.window, w.property, w.type_, w.format), (10, 300, 301, 8));
            assert_eq!(w.data, b"https://example.org".to_vec());
        }
        other => panic!("unexpected {:?}", other),
    }
    match s.step(SendInput::Accepted) {
        SendAction::Inject(j) => {
            assert_eq!(j.destination, 20);
            assert_eq!(
                j.notification,
                Notification { window: 10, atom: 300, state: PropertyState::NewValue, synthetic: true }
            );
        }
        other => panic!("unexpected {:?}", other),
    }
    assert!(matches!(s.step(SendInput::Accepted), SendAction::AwaitEvent));
    assert_eq!(s.current_stage(), SendStage::Waiting);
    assert!(matches!(s.step(SendInput::Display(Event::Other)), SendAction::AwaitEvent));
    let forged = Event::PropertyNotify(Notification { window: 10, atom: 300, state: PropertyState::Delete, synthetic: true });
    assert!(matches!(s.step(SendInput::Display(forged)), SendAction::AwaitEvent));
    assert!(matches!(s.step(SendInput::Display(ack())), SendAction::Finish(Ok(()))));
    assert_eq!(s.current_stage(), SendStage::Finished);
}

#[test]
fn session_without_receiver_falls_back() {
    let mut s = SendSession::new(ids(), "x");
    assert!(matches!(s.step(SendInput::Owner(NONE)), SendAction::Finish(Err(SendError::NoReceiver))));
    assert_eq!(s.current_stage(), SendStage::Finished);
}

#[test]
fn session_failures_name_their_step() {
    let mut s = SendSession::new(ids(), "x");
    assert!(matches!(s.step(SendInput::Failed), SendAction::Finish(Err(SendError::Protocol))));

    let mut s = SendSession::new(ids(), "x");
    s.step(SendInput::Owner(20));
    assert!(matches!(s.step(SendInput::Failed), SendAction::Finish(Err(SendError::Property))));

    let mut s = SendSession::new(ids(), "x");
    s.step(SendInput::Owner(20));
    s.step(SendInput::Accepted);
    assert!(matches!(s.step(SendInput::Failed), SendAction::Finish(Err(SendError::Delivery))));

    let mut s = SendSession::new(ids(), "x");
    s.step(SendInput::Owner(20));
    s.step(SendInput::Accepted);
    s.step(SendInput::Accepted);
    assert!(matches!(s.step(SendInput::Failed), SendAction::Finish(Err(SendError::Connection))));

    let mut s = SendSession::new(ids(), "x");
    s.step(SendInput::Owner(20));
    s.step(SendInput::Accepted);
    s.step(SendInput::Accepted);
    assert!(matches!(s.step(SendInput::TimedOut), SendAction::Finish(Err(SendError::Timeout))));
}

#[test]
fn session_ignores_inputs_of_other_steps() {
    let mut s = SendSession::new(ids(), "x");
    assert!(matches!(s.step(SendInput::Accepted), SendAction::Nothing));
    assert!(matches!(s.step(SendInput::Display(ack())), SendAction::Nothing));
    assert!(matches!(s.step(SendInput::TimedOut), SendAction::Nothing));
    assert_eq!(s.current_stage(), SendStage::LookingUp);
    s.step(SendInput::Owner(20));
    assert!(matches!(s.step(SendInput::Owner(21)), SendAction::Nothing));
    assert_eq!(s.current_stage(), SendStage::Writing);
}
