use itaos::{
    BackingStore, Directive, DirectiveThreadMessage, Error, Event, Host, ItaosController,
    ItaosThread, Key, LoopCycle, OneAndDone, Processed, Reply, Request, Submission,
};

struct Plain;

impl Host for Plain {
    type Coord = f64;
    type Graphics = ();
    type KeyboardKey = u32;
    type Handler = &'static str;
    type Output = u64;
    type Work = Box<dyn FnOnce() -> u64 + Send>;
}

type Message = DirectiveThreadMessage<Plain>;

fn to(manager_id: usize, data: Directive<Plain>) -> Submission<Plain> {
    Submission { manager_id, data }
}

fn create() -> Directive<Plain> {
    Directive::CreateWindow {
        x: 10.0,
        y: 20.0,
        width: 640.0,
        height: 480.0,
        style: 0b1111,
        backing: BackingStore::Buffered,
        defer: false,
        screen: None,
    }
}

fn pending(controller: &mut ItaosController<Plain>, manager_id: usize, data: Directive<Plain>) -> Request<Plain> {
    match controller.process_directive(to(manager_id, data)) {
        Ok(Processed::Pending(request)) => request,
        _ => panic!("the directive should become a request to the backend"),
    }
}

fn is_run(message: &Message, session: usize, handler: Option<&'static str>) -> bool {
    matches!(message, DirectiveThreadMessage::RunEvent(id, _, h) if *id == session && *h == handler)
}

fn count(controller: &ItaosController<Plain>, manager_id: usize) -> usize {
    controller.session(manager_id).ok().expect("the session exists").window_count
}

#[test]
fn sessions_are_numbered_from_zero() {
    let mut controller = ItaosController::<Plain>::new();
    assert_eq!(controller.len(), 0);
    assert_eq!(controller.register(), 0);
    assert_eq!(controller.register(), 1);
    assert_eq!(controller.register(), 2);
    assert_eq!(controller.len(), 3);
}

#[test]
fn register_directive_answers_with_the_number() {
    let mut controller = ItaosController::<Plain>::new();
    let first = controller.process_directive(to(0, Directive::RegisterManager));
    assert!(matches!(first, Ok(Processed::Answered(Reply::Registered(0)))));
    let second = controller.process_directive(to(0, Directive::RegisterManager));
    assert!(matches!(second, Ok(Processed::Answered(Reply::Registered(1)))));
}

#[test]
fn numbers_are_not_reused_after_the_last_window_closed() {
    let mut controller = ItaosController::<Plain>::new();
    assert_eq!(controller.register(), 0);
    let request = pending(&mut controller, 0, create());
    controller.settle(0, request, Ok(0x1000)).ok().expect("session 0 exists");
    let request = pending(&mut controller, 0, Directive::Close(Key::from_raw(0x1000)));
    controller.settle(0, request, Ok(0)).ok().expect("session 0 exists");
    controller.handler_done();
    controller.handler_done();
    assert_eq!(count(&controller, 0), 0);
    assert_eq!(controller.register(), 1);
    assert_eq!(controller.session(0).ok().unwrap().runtime_id, 0);
    assert_eq!(controller.session(1).ok().unwrap().runtime_id, 1);
}

#[test]
fn new_session_starts_without_windows() {
    let mut controller = ItaosController::<Plain>::new();
    controller.register();
    let session = controller.session(0).ok().unwrap();
    assert_eq!(session.window_count, 0);
    assert!(!session.waiting);
    assert!(session.event_handler.is_none());
    assert!(session.queued.is_empty());
}

#[test]
fn unknown_session_is_refused_when_there_is_none() {
    let mut controller = ItaosController::<Plain>::new();
    let refused = controller.process_directive(to(0, Directive::Show(Key::from_raw(8))));
    assert!(matches!(refused, Err(Error::UnknownSession(0))));
    assert!(matches!(controller.lookup(3), Err(Error::UnknownSession(3))));
    assert!(matches!(
        controller.dispatch_event(3, Event::Quit),
        Err(Error::UnknownSession(3))
    ));
    assert!(matches!(controller.replace_handler(3, "h"), Err(Error::UnknownSession(3))));
    assert!(matches!(
        controller.settle(3, Request::Show(Key::from_raw(8)), Ok(0)),
        Err(Error::UnknownSession(3))
    ));
}

#[test]
fn unknown_session_is_refused_among_several() {
    let mut controller = ItaosController::<Plain>::new();
    controller.register();
    controller.register();
    let refused = controller.process_directive(to(2, Directive::Hide(Key::from_raw(8))));
    assert!(matches!(refused, Err(Error::UnknownSession(2))));
    assert!(Error::UnknownSession(2).is_fatal());
    assert_eq!(controller.lookup(1).ok(), Some(1));
    assert_eq!(controller.lookup(0).ok(), Some(0));
}

#[test]
fn lone_session_gets_every_directive() {
    let mut controller = ItaosController::<Plain>::new();
    controller.register();
    assert_eq!(controller.lookup(0).ok(), Some(0));
    assert_eq!(controller.lookup(41).ok(), Some(0));
    let request = pending(&mut controller, 41, Directive::Show(Key::from_raw(8)));
    assert!(matches!(request, Request::Show(w) if w.as_ptr() == 8));
}

#[test]
fn directives_become_requests() {
    let mut controller = ItaosController::<Plain>::new();
    controller.register();
    let key = Key::from_raw(0x40);
    assert!(matches!(pending(&mut controller, 0, Directive::Show(key)), Request::Show(w) if w == key));
    assert!(matches!(pending(&mut controller, 0, Directive::Hide(key)), Request::Hide(w) if w == key));
    assert!(matches!(pending(&mut controller, 0, Directive::Close(key)), Request::Close(w) if w == key));
    assert!(matches!(
        pending(&mut controller, 0, Directive::Move { window: key }),
        Request::Move(w) if w == key
    ));
    match pending(&mut controller, 0, create()) {
        Request::CreateWindow { x, y, width, height, style, backing, defer, screen } => {
            assert_eq!((x, y, width, height), (10.0, 20.0, 640.0, 480.0));
            assert_eq!(style, 0b1111);
            assert_eq!(backing, BackingStore::Buffered);
            assert!(!defer);
            assert_eq!(screen, None);
        }
        _ => panic!("a window was to be created"),
    }
}

#[test]
fn offloaded_work_runs_and_answers_with_its_result() {
    let mut controller = ItaosController::<Plain>::new();
    let work: Box<dyn FnOnce() -> u64 + Send> = Box::new(|| 6 * 7);
    let answered = controller.process_directive(to(0, Directive::Offload(work)));
    assert!(matches!(answered, Ok(Processed::Answered(Reply::Offloaded(42)))));
    assert_eq!(controller.len(), 0);
}

#[test]
fn directive_alone_says_what_is_to_be_done() {
    assert!(matches!(Directive::<Plain>::Quit.process(), Processed::Finished));
    let work: Box<dyn FnOnce() -> u64 + Send> = Box::new(|| 99);
    assert!(matches!(
        Directive::<Plain>::Offload(work).process(),
        Processed::Answered(Reply::Offloaded(99))
    ));
    let key = Key::from_raw(0x40);
    assert!(matches!(
        Directive::<Plain>::Close(key).process(),
        Processed::Pending(Request::Close(w)) if w == key
    ));
}

#[test]
fn backend_answer_becomes_the_reply() {
    let key = Key::from_raw(0x40);
    let shown = Request::<Plain>::Show(key);
    assert!(matches!(shown.reply(Ok(0)), Reply::Done(Ok(()))));
    assert!(matches!(shown.reply(Ok(123)), Reply::Done(Ok(()))));
    let failure = Error::ObjcException("NSInternalInconsistencyException".to_string());
    assert!(matches!(shown.reply(Err(failure.clone())), Reply::Done(Err(e)) if e == failure));
    let created = match create().process() {
        Processed::Pending(request) => request,
        _ => panic!("a window was to be created"),
    };
    assert!(matches!(created.reply(Ok(0x77)), Reply::Created(Ok(w)) if w.as_ptr() == 0x77));
    assert!(matches!(created.reply(Err(failure.clone())), Reply::Created(Err(e)) if e == failure));
}

#[test]
fn quit_stops_the_loop() {
    let mut controller = ItaosController::<Plain>::new();
    assert!(!controller.is_stopped());
    assert_eq!(controller.loop_cycle(Some((1, 0))), LoopCycle::Event);
    let done = controller.process_directive(to(0, Directive::Quit));
    assert!(matches!(done, Ok(Processed::Finished)));
    assert!(controller.is_stopped());
    assert_eq!(controller.loop_cycle(Some((1, 0))), LoopCycle::Break);
    assert_eq!(controller.loop_cycle(Some((15, 0x1337))), LoopCycle::Break);
}

#[test]
fn loop_cycle_tells_directives_from_events() {
    let controller = ItaosController::<Plain>::new();
    assert_eq!(controller.loop_cycle(None), LoopCycle::Break);
    assert_eq!(controller.loop_cycle(Some((15, 0x1337))), LoopCycle::Directive);
    assert_eq!(controller.loop_cycle(Some((15, 0x1336))), LoopCycle::Event);
    assert_eq!(controller.loop_cycle(Some((14, 0x1337))), LoopCycle::Event);
    assert_eq!(controller.loop_cycle(Some((5, 0))), LoopCycle::Event);
}

#[test]
fn created_windows_are_counted() {
    let mut controller = ItaosController::<Plain>::new();
    controller.register();
    for n in 1..=3usize {
        let request = pending(&mut controller, 0, create());
        let settled = controller.settle(0, request, Ok(0x1000 * n)).ok().unwrap();
        assert!(matches!(settled.reply, Reply::Created(Ok(w)) if w.as_ptr() == 0x1000 * n));
        assert!(settled.messages.is_empty());
        assert_eq!(count(&controller, 0), n);
    }
}

#[test]
fn failed_creation_answers_with_the_error_and_counts_nothing() {
    let mut controller = ItaosController::<Plain>::new();
    controller.register();
    let request = pending(&mut controller, 0, create());
    let failure = Error::ObjcException("NSInvalidArgumentException".to_string());
    let settled = controller.settle(0, request, Err(failure.clone())).ok().unwrap();
    assert!(matches!(settled.reply, Reply::Created(Err(e)) if e == failure));
    assert_eq!(count(&controller, 0), 0);
}

#[test]
fn show_and_hide_leave_the_count_alone() {
    let mut controller = ItaosController::<Plain>::new();
    controller.register();
    let request = pending(&mut controller, 0, create());
    controller.settle(0, request, Ok(0x1000)).ok().unwrap();
    let window = Key::from_raw(0x1000);
    for data in [Directive::Show(window), Directive::Hide(window), Directive::Move { window }] {
        let request = pending(&mut controller, 0, data);
        let settled = controller.settle(0, request, Ok(0)).ok().unwrap();
        assert!(matches!(settled.reply, Reply::Done(Ok(()))));
        assert!(settled.messages.is_empty());
        assert_eq!(count(&controller, 0), 1);
    }
    let request = pending(&mut controller, 0, Directive::Show(window));
    let failure = Error::ObjcException("gone".to_string());
    let settled = controller.settle(0, request, Err(failure.clone())).ok().unwrap();
    assert!(matches!(settled.reply, Reply::Done(Err(e)) if e == failure));
}

#[test]
fn register_create_close_scenario() {
    let mut controller = ItaosController::<Plain>::new();
    let registered = controller.process_directive(to(0, Directive::RegisterManager));
    assert!(matches!(registered, Ok(Processed::Answered(Reply::Registered(0)))));
    assert!(matches!(controller.replace_handler(0, "on_event"), Ok(None)));

    let request = pending(&mut controller, 0, create());
    let settled = controller.settle(0, request, Ok(0xbeef0)).ok().unwrap();
    let handle = match settled.reply {
        Reply::Created(Ok(handle)) => handle,
        _ => panic!("the window should have been created"),
    };
    assert_eq!(handle.as_ptr(), 0xbeef0);
    assert_eq!(count(&controller, 0), 1);

    let request = pending(&mut controller, 0, Directive::Close(handle));
    let settled = controller.settle(0, request, Ok(0)).ok().unwrap();
    assert!(matches!(settled.reply, Reply::Done(Ok(()))));
    assert_eq!(settled.messages.len(), 2);
    assert!(matches!(settled.messages[0], DirectiveThreadMessage::Stop));
    assert!(matches!(
        &settled.messages[1],
        DirectiveThreadMessage::RunEvent(0, Event::Close(w), Some("on_event")) if *w == handle
    ));
    // the handler for the closing window runs: the window still counts
    assert_eq!(count(&controller, 0), 1);
    assert!(controller.session(0).ok().unwrap().waiting);

    let after_close = controller.handler_done();
    // the relay stays stopped between the two handlers: no other event comes between
    assert_eq!(after_close.len(), 2);
    assert!(matches!(after_close[0], DirectiveThreadMessage::Stop));
    assert!(matches!(
        &after_close[1],
        DirectiveThreadMessage::RunEvent(0, Event::Quit, Some("on_event"))
    ));
    assert_eq!(count(&controller, 0), 0);

    let after_quit = controller.handler_done();
    assert_eq!(after_quit.len(), 2);
    assert!(matches!(after_quit[0], DirectiveThreadMessage::Stop));
    assert!(matches!(after_quit[1], DirectiveThreadMessage::Start));
    assert_eq!(count(&controller, 0), 0);
    assert!(!controller.session(0).ok().unwrap().waiting);
    assert!(!controller.is_draining());
    // nothing is left to finish
    assert!(controller.handler_done().is_empty());
}

#[test]
fn closing_one_of_two_windows_does_not_quit() {
    let mut controller = ItaosController::<Plain>::new();
    controller.register();
    for addr in [0x100usize, 0x200] {
        let request = pending(&mut controller, 0, create());
        controller.settle(0, request, Ok(addr)).ok().unwrap();
    }
    let request = pending(&mut controller, 0, Directive::Close(Key::from_raw(0x100)));
    let settled = controller.settle(0, request, Ok(0)).ok().unwrap();
    assert_eq!(settled.messages.len(), 2);
    let resumed = controller.handler_done();
    assert_eq!(resumed.len(), 2);
    assert_eq!(count(&controller, 0), 1);
    assert!(!controller.session(0).ok().unwrap().waiting);
}

#[test]
fn failed_close_tells_nobody() {
    let mut controller = ItaosController::<Plain>::new();
    controller.register();
    let request = pending(&mut controller, 0, create());
    controller.settle(0, request, Ok(0x100)).ok().unwrap();
    let request = pending(&mut controller, 0, Directive::Close(Key::from_raw(0x100)));
    let failure = Error::ObjcException("no such window".to_string());
    let settled = controller.settle(0, request, Err(failure)).ok().unwrap();
    assert!(settled.messages.is_empty());
    assert!(!controller.session(0).ok().unwrap().waiting);
    assert_eq!(count(&controller, 0), 1);
}

#[test]
fn close_without_windows_keeps_the_count_at_zero_and_does_not_quit() {
    let mut controller = ItaosController::<Plain>::new();
    controller.register();
    let started = controller.dispatch_event(0, Event::Close(Key::from_raw(0x100))).ok().unwrap();
    assert_eq!(started.len(), 2);
    assert!(matches!(&started[1], DirectiveThreadMessage::RunEvent(0, Event::Close(_), None)));
    let next = controller.handler_done();
    assert_eq!(next.len(), 2);
    assert!(matches!(next[0], DirectiveThreadMessage::Stop));
    assert!(matches!(next[1], DirectiveThreadMessage::Start));
    assert_eq!(count(&controller, 0), 0);
    assert!(!controller.is_draining());
}

#[test]
fn closing_the_same_window_twice_quits_once() {
    let mut controller = ItaosController::<Plain>::new();
    controller.register();
    let request = pending(&mut controller, 0, create());
    controller.settle(0, request, Ok(0x100)).ok().unwrap();
    let window = Key::from_raw(0x100);

    // the handler is told of the closing window, and answers by closing it again
    controller.dispatch_event(0, Event::Close(window)).ok().unwrap();
    let request = pending(&mut controller, 0, Directive::Close(window));
    let settled = controller.settle(0, request, Ok(0)).ok().unwrap();
    assert!(settled.messages.is_empty());

    // the last window is gone: quit, ahead of the second close
    let next = controller.handler_done();
    assert!(matches!(&next[1], DirectiveThreadMessage::RunEvent(0, Event::Quit, None)));
    assert_eq!(count(&controller, 0), 0);
    let next = controller.handler_done();
    assert!(matches!(&next[1], DirectiveThreadMessage::RunEvent(0, Event::Close(w), None) if *w == window));
    // no window was left to close: no second quit
    let next = controller.handler_done();
    assert_eq!(next.len(), 2);
    assert!(matches!(next[1], DirectiveThreadMessage::Start));
    assert_eq!(count(&controller, 0), 0);
    assert!(!controller.is_draining());
}

#[test]
fn events_wait_while_the_handler_runs() {
    let mut controller = ItaosController::<Plain>::new();
    controller.register();
    controller.replace_handler(0, "first").ok().unwrap();
    let window = Key::from_raw(0x30);
    let started = controller
        .dispatch_event(0, Event::MouseMove { window, x: 1.0, y: 2.0 })
        .ok()
        .unwrap();
    assert_eq!(started.len(), 2);
    assert!(is_run(&started[1], 0, Some("first")));

    // two more events come up while the handler runs, and the handler is replaced
    let waiting = controller
        .dispatch_event(0, Event::MouseEntered { window, x: 3.0, y: 4.0 })
        .ok()
        .unwrap();
    assert!(waiting.is_empty());
    let waiting = controller
        .dispatch_event(0, Event::MouseExited { window, x: 5.0, y: 6.0 })
        .ok()
        .unwrap();
    assert!(waiting.is_empty());
    assert!(matches!(controller.replace_handler(0, "second"), Ok(Some("first"))));
    assert_eq!(controller.session(0).ok().unwrap().queued.len(), 2);

    let next = controller.handler_done();
    assert_eq!(next.len(), 2);
    assert!(matches!(
        &next[1],
        DirectiveThreadMessage::RunEvent(0, Event::MouseEntered { x, y, .. }, Some("second"))
            if *x == 3.0 && *y == 4.0
    ));
    let next = controller.handler_done();
    assert_eq!(next.len(), 2);
    assert!(matches!(
        &next[1],
        DirectiveThreadMessage::RunEvent(0, Event::MouseExited { x, y, .. }, Some("second"))
            if *x == 5.0 && *y == 6.0
    ));
    let last = controller.handler_done();
    assert_eq!(last.len(), 2);
    assert!(!controller.session(0).ok().unwrap().waiting);
}

#[test]
fn directives_are_served_while_a_handler_runs() {
    let mut controller = ItaosController::<Plain>::new();
    controller.register();
    controller.dispatch_event(0, Event::Quit).ok().unwrap();
    assert!(controller.session(0).ok().unwrap().waiting);
    // the handler asks for a window and waits for it
    let request = pending(&mut controller, 0, create());
    let settled = controller.settle(0, request, Ok(0x500)).ok().unwrap();
    assert!(matches!(settled.reply, Reply::Created(Ok(w)) if w.as_ptr() == 0x500));
    assert_eq!(count(&controller, 0), 1);
    // and closes it again: the handler is told once it is done with what it is doing
    let request = pending(&mut controller, 0, Directive::Close(Key::from_raw(0x500)));
    let settled = controller.settle(0, request, Ok(0)).ok().unwrap();
    assert!(matches!(settled.reply, Reply::Done(Ok(()))));
    assert!(settled.messages.is_empty());
    assert_eq!(controller.session(0).ok().unwrap().queued.len(), 1);
    let next = controller.handler_done();
    assert!(matches!(&next[1], DirectiveThreadMessage::RunEvent(0, Event::Close(_), None)));
    assert_eq!(count(&controller, 0), 1);
    let next = controller.handler_done();
    assert!(matches!(&next[1], DirectiveThreadMessage::RunEvent(0, Event::Quit, None)));
    assert_eq!(count(&controller, 0), 0);
}

#[test]
fn sessions_do_not_share_counts() {
    let mut controller = ItaosController::<Plain>::new();
    controller.register();
    controller.register();
    let request = pending(&mut controller, 1, create());
    controller.settle(1, request, Ok(0x100)).ok().unwrap();
    assert_eq!(count(&controller, 0), 0);
    assert_eq!(count(&controller, 1), 1);
    let started = controller.dispatch_event(1, Event::Quit).ok().unwrap();
    assert!(is_run(&started[1], 1, None));
    assert!(!controller.session(0).ok().unwrap().waiting);
    assert!(controller.session(1).ok().unwrap().waiting);
}

#[test]
fn handlers_are_done_in_the_order_they_were_started() {
    let mut controller = ItaosController::<Plain>::new();
    controller.register();
    controller.register();
    let request = pending(&mut controller, 1, create());
    controller.settle(1, request, Ok(0x100)).ok().unwrap();
    assert!(!controller.is_draining());

    let first = controller.dispatch_event(1, Event::Close(Key::from_raw(0x100))).ok().unwrap();
    assert!(is_run(&first[1], 1, None));
    let second = controller.dispatch_event(0, Event::Quit).ok().unwrap();
    assert!(is_run(&second[1], 0, None));
    assert!(controller.is_draining());

    // the first marker is for session 1, whose last window is gone: it is told to quit
    let next = controller.handler_done();
    assert_eq!(next.len(), 2);
    assert!(matches!(&next[1], DirectiveThreadMessage::RunEvent(1, Event::Quit, None)));
    assert_eq!(count(&controller, 1), 0);
    assert!(controller.session(0).ok().unwrap().waiting);
    assert!(controller.session(1).ok().unwrap().waiting);

    // the second is for session 0; the relay is told nothing while session 1 is in flight
    let next = controller.handler_done();
    assert!(next.is_empty());
    assert!(!controller.session(0).ok().unwrap().waiting);
    assert!(controller.session(1).ok().unwrap().waiting);
    assert!(controller.is_draining());

    // the third is for the quit of session 1: only now does the relay start again
    let next = controller.handler_done();
    assert_eq!(next.len(), 2);
    assert!(matches!(next[0], DirectiveThreadMessage::Stop));
    assert!(matches!(next[1], DirectiveThreadMessage::Start));
    assert!(!controller.session(1).ok().unwrap().waiting);
    assert!(!controller.is_draining());
}

#[test]
fn marker_without_a_running_handler_changes_nothing() {
    let mut controller = ItaosController::<Plain>::new();
    controller.register();
    assert!(controller.handler_done().is_empty());
    assert!(!controller.is_draining());
    assert!(!controller.session(0).ok().unwrap().waiting);
}

#[test]
fn only_one_runtime_thread_per_program() {
    let mut mark = OneAndDone::new();
    assert!(!mark.is_claimed());
    let first = ItaosThread::<Plain>::new(&mut mark);
    assert!(first.is_ok());
    assert!(mark.is_claimed());
    let second = ItaosThread::<Plain>::new(&mut mark);
    assert!(matches!(second, Err(Error::Exclusive)));
    assert!(mark.is_claimed());
    mark.release();
    let third = ItaosThread::<Plain>::new(&mut mark);
    let controller = third.ok().expect("the mark was released").into_inner();
    assert_eq!(controller.len(), 0);
    assert!(!controller.is_stopped());
}
