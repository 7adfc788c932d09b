use itaos::{
    create_task, Directive, DirectiveThread, DirectiveThreadMessage, Error, Event, Host, Key,
    RelayAction, RelayInput, RelayState, ServerTask, Submission,
};

struct Plain;

impl Host for Plain {
    type Coord = i32;
    type Graphics = ();
    type KeyboardKey = u32;
    type Handler = u8;
    type Output = u64;
    type Work = Box<dyn FnOnce() -> u64 + Send>;
}

fn task(manager_id: usize) -> ServerTask<Plain> {
    create_task::<Plain>(Submission { manager_id, data: Directive::Hide(Key::from_raw(0x10)) }).1
}

fn control(message: DirectiveThreadMessage<Plain>) -> RelayInput<Plain> {
    RelayInput::Control(message)
}

fn held_id(task: &mut ServerTask<Plain>) -> usize {
    task.input().expect("the task still holds its directive").manager_id
}

#[test]
fn relay_starts_out_forwarding() {
    let mut relay = DirectiveThread::new();
    assert_eq!(relay.current(), RelayState::Started);
    assert!(relay.reads_queue());
    match relay.step(RelayInput::Queued(Some(task(4)))) {
        Ok(RelayAction::Forward(mut forwarded)) => assert_eq!(held_id(&mut forwarded), 4),
        _ => panic!("a started relay forwards"),
    }
    assert_eq!(relay.current(), RelayState::Started);
}

#[test]
fn empty_marker_is_not_forwarded() {
    let mut relay = DirectiveThread::new();
    assert!(matches!(relay.step(RelayInput::<Plain>::Queued(None)), Ok(RelayAction::Idle)));
    assert_eq!(relay.current(), RelayState::Started);
}

#[test]
fn stopped_relay_hands_tasks_back() {
    let mut relay = DirectiveThread::new();
    assert!(matches!(relay.step(control(DirectiveThreadMessage::Stop)), Ok(RelayAction::Idle)));
    assert_eq!(relay.current(), RelayState::Stopped);
    assert!(!relay.reads_queue());
    match relay.step(RelayInput::Queued(Some(task(9)))) {
        Ok(RelayAction::Deferred(mut deferred)) => assert_eq!(held_id(&mut deferred), 9),
        _ => panic!("a stopped relay forwards nothing"),
    }
    assert_eq!(relay.current(), RelayState::Stopped);
    // once it is started again, it forwards
    assert!(matches!(relay.step(control(DirectiveThreadMessage::Start)), Ok(RelayAction::Idle)));
    assert!(matches!(relay.step(RelayInput::Queued(Some(task(9)))), Ok(RelayAction::Forward(_))));
}

#[test]
fn stopped_relay_runs_the_handler() {
    let mut relay = DirectiveThread::new();
    relay.step(control(DirectiveThreadMessage::Stop)).ok().unwrap();
    let window = Key::from_raw(0x77);
    let run = relay.step(control(DirectiveThreadMessage::RunEvent(2, Event::Close(window), Some(5))));
    assert!(matches!(
        run,
        Ok(RelayAction::Run { session: 2, event: Event::Close(w), handler: Some(5) }) if w == window
    ));
    assert_eq!(relay.current(), RelayState::Stopped);
    // a second stop changes nothing
    assert!(matches!(relay.step(control(DirectiveThreadMessage::Stop)), Ok(RelayAction::Idle)));
    assert_eq!(relay.current(), RelayState::Stopped);
}

#[test]
fn handler_sent_to_a_started_relay_is_a_fault() {
    let mut relay = DirectiveThread::new();
    let fault = relay.step(control(DirectiveThreadMessage::RunEvent(0, Event::Quit, None)));
    assert!(matches!(fault, Err(Error::RunEventWhileStarted)));
    assert!(Error::RunEventWhileStarted.is_fatal());
    assert_eq!(relay.current(), RelayState::Exited);
}

#[test]
fn relay_ends_when_a_channel_closes() {
    let mut relay = DirectiveThread::new();
    assert!(matches!(relay.step(RelayInput::<Plain>::QueueClosed), Ok(RelayAction::Exit)));
    assert_eq!(relay.current(), RelayState::Exited);

    let mut relay = DirectiveThread::new();
    assert!(matches!(relay.step(RelayInput::<Plain>::ControlClosed), Ok(RelayAction::Exit)));
    assert_eq!(relay.current(), RelayState::Exited);

    let mut relay = DirectiveThread::new();
    relay.step(control(DirectiveThreadMessage::Stop)).ok().unwrap();
    assert!(matches!(relay.step(RelayInput::<Plain>::ControlClosed), Ok(RelayAction::Exit)));
    assert_eq!(relay.current(), RelayState::Exited);
}

#[test]
fn ended_relay_does_nothing_more() {
    let mut relay = DirectiveThread::new();
    relay.step(RelayInput::<Plain>::ControlClosed).ok().unwrap();
    assert!(matches!(relay.step(control(DirectiveThreadMessage::Start)), Ok(RelayAction::Exit)));
    assert!(matches!(relay.step(RelayInput::Queued(Some(task(1)))), Ok(RelayAction::Exit)));
    assert!(matches!(
        relay.step(control(DirectiveThreadMessage::RunEvent(0, Event::Quit, None))),
        Ok(RelayAction::Exit)
    ));
    assert_eq!(relay.current(), RelayState::Exited);
    assert!(!relay.reads_queue());
}

#[test]
fn start_on_a_started_relay_changes_nothing() {
    let mut relay = DirectiveThread::new();
    assert!(matches!(relay.step(control(DirectiveThreadMessage::Start)), Ok(RelayAction::Idle)));
    assert_eq!(relay.current(), RelayState::Started);
}
