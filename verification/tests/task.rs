use itaos::{create_task, Directive, Error, Host, Key, Reply, Submission};

struct Plain;

impl Host for Plain {
    type Coord = f64;
    type Graphics = ();
    type KeyboardKey = u32;
    type Handler = u8;
    type Output = u64;
    type Work = Box<dyn FnOnce() -> u64 + Send>;
}

fn show(manager_id: usize, window: usize) -> Submission<Plain> {
    Submission { manager_id, data: Directive::Show(Key::from_raw(window)) }
}

#[test]
fn dropped_sender_closes_the_channel() {
    let (task, server) = create_task::<Plain>(show(0, 0x10));
    drop(server);
    assert!(matches!(task.wait(), Err(Error::ChannelClosed)));
}

#[test]
fn completed_task_resolves_with_the_reply() {
    let (task, server) = create_task::<Plain>(show(0, 0x10));
    server.complete(Reply::Registered(7));
    assert!(matches!(task.wait(), Ok(Reply::Registered(7))));
}

#[test]
fn task_gives_its_directive_once() {
    let (_task, mut server) = create_task::<Plain>(show(3, 0x20));
    let first = server.input().expect("the directive is there at first");
    assert_eq!(first.manager_id, 3);
    assert!(matches!(first.data, Directive::Show(w) if w.as_ptr() == 0x20));
    assert!(server.input().is_none());
}

#[test]
fn completing_after_the_caller_left_is_harmless() {
    let (task, server) = create_task::<Plain>(show(0, 0x10));
    drop(task);
    server.complete(Reply::Done(Ok(())));
}

#[test]
fn reply_carries_the_backend_error() {
    let (task, server) = create_task::<Plain>(show(0, 0x10));
    server.complete(Reply::Created(Err(Error::ObjcException("no screen".to_string()))));
    match task.wait() {
        Ok(Reply::Created(Err(e))) => assert_eq!(e.message(), "no screen"),
        _ => panic!("the reply should carry the error"),
    }
}

#[test]
fn task_taken_apart_still_works() {
    let (task, server) = create_task::<Plain>(show(0, 0x10));
    let (result, finished) = task.into_parts();
    assert!(finished.try_recv().is_err());
    server.complete(Reply::Registered(3));
    assert_eq!(finished.recv(), Ok(()));
    #[allow(deprecated)]
    let reply = result.recv();
    assert!(matches!(reply, Reply::Registered(3)));

    let (task, server) = create_task::<Plain>(show(0, 0x10));
    let (_result, finished) = task.into_parts();
    drop(server);
    assert_eq!(finished.recv(), Err(flume::RecvError::Disconnected));
}
