use runtime::command::{decode_command, Command, SpawnRequest};
use runtime::frame::frame;
use runtime::message::{encode_message, DeathReason, Message, Notification, Response};
use runtime::session::{ClientError, Session};

fn spawn(binary: &str, argv: &[&str]) -> SpawnRequest {
    SpawnRequest {
        binary: binary.as_bytes().to_vec(),
        argv: argv.iter().map(|a| a.as_bytes().to_vec()).collect(),
        env: None,
        uid: 0,
        gid: 0,
        stdin: None,
        stdout: None,
        stderr: None,
        cwd: None,
    }
}

fn wire(m: Message) -> Vec<u8> {
    frame(&encode_message(&m))
}

fn reply(r: Response) -> Vec<u8> {
    wire(Message::Reply(r))
}

fn note(n: Notification) -> Vec<u8> {
    wire(Message::Notification(n))
}

/// The command carried by a frame the session produced.
fn sent(f: &[u8]) -> Command {
    decode_command(&f[8..].to_vec()).unwrap()
}

fn started(s: &mut Session, binary: &str, argv: &[&str], id: u64) -> u64 {
    s.begin_run_process(spawn(binary, argv)).unwrap();
    s.receive(&reply(Response::Spawned(id)));
    s.finish_run_process().unwrap().unwrap()
}

#[test]
fn echo_output_is_read_twice_alike() {
    let mut s = Session::new();
    let mut req = spawn("/bin/echo", &["echo", "TEST"]);
    req.stdout = Some(b"/a".to_vec());
    let f = s.begin_run_process(req.clone()).unwrap();
    assert_eq!(sent(&f), Command::RunProcess { req, entrypoint: false });
    s.receive(&reply(Response::Spawned(1)));
    assert!(s.reply_ready());
    assert_eq!(s.finish_run_process(), Ok(Some(1)));
    s.receive(&note(Notification::OutputAvailable { id: 1, fd: 1 }));
    assert_eq!(
        s.pop_notification(),
        Ok(Some(Notification::OutputAvailable { id: 1, fd: 1 }))
    );
    for _ in 0..2 {
        let f = s.begin_query_output(1, 0, u64::MAX).unwrap().unwrap();
        assert_eq!(sent(&f), Command::QueryOutput { id: 1, offset: 0, max_len: u64::MAX });
        s.receive(&reply(Response::Output { offset: 0, data: b"TEST\n".to_vec() }));
        assert_eq!(s.finish_query_output(), Ok(Some(b"TEST\n".to_vec())));
    }
}

#[test]
fn kill_then_died_with_kill_reason() {
    let mut s = Session::new();
    let id = started(&mut s, "/bin/sleep", &["sleep", "10"], 2);
    let f = s.begin_kill(id).unwrap().unwrap();
    assert_eq!(sent(&f), Command::Kill { id: 2 });
    s.receive(&reply(Response::Done));
    assert_eq!(s.finish_kill(), Ok(Some(())));
    s.receive(&note(Notification::ProcessDied { id: 2, reason: DeathReason::Killed }));
    match s.pop_notification() {
        Ok(Some(Notification::ProcessDied { id, reason })) => {
            assert_eq!(id, 2);
            assert_ne!(reason, DeathReason::Exited(0));
        }
        other => panic!("unexpected {:?}", other),
    }
}

#[test]
fn entrypoint_death_then_peer_closes() {
    let mut s = Session::new();
    let f = s.begin_run_entrypoint(spawn("/bin/sleep", &["sleep", "2"])).unwrap().unwrap();
    assert_eq!(sent(&f), Command::RunProcess { req: spawn("/bin/sleep", &["sleep", "2"]), entrypoint: true });
    s.receive(&reply(Response::Spawned(9)));
    assert_eq!(s.finish_run_process(), Ok(Some(9)));
    assert_eq!(s.entrypoint(), Some(9));
    s.receive(&note(Notification::ProcessDied { id: 9, reason: DeathReason::Exited(0) }));
    s.fail(ClientError::EndOfStream);
    assert_eq!(
        s.pop_notification(),
        Ok(Some(Notification::ProcessDied { id: 9, reason: DeathReason::Exited(0) }))
    );
    assert_eq!(s.pop_notification(), Err(ClientError::EndOfStream));
    assert_eq!(s.begin_quit(), Err(ClientError::EndOfStream));
}

#[test]
fn second_entrypoint_is_rejected() {
    let mut s = Session::new();
    s.begin_run_entrypoint(spawn("/bin/sleep", &["sleep", "2"])).unwrap().unwrap();
    s.receive(&reply(Response::Spawned(1)));
    assert_eq!(s.finish_run_process(), Ok(Some(1)));
    assert_eq!(s.begin_run_entrypoint(spawn("/bin/true", &["true"])), Ok(None));
    assert_eq!(s.entrypoint(), Some(1));
    // An ordinary process can still be started.
    assert_eq!(started(&mut s, "/bin/true", &["true"], 2), 2);
    assert_eq!(s.begin_run_entrypoint(spawn("/bin/true", &["true"])), Ok(None));
}

#[test]
fn entrypoint_refused_by_agent_can_be_retried() {
    let mut s = Session::new();
    s.begin_run_entrypoint(spawn("/nope", &["nope"])).unwrap().unwrap();
    s.receive(&reply(Response::Failure));
    assert_eq!(s.finish_run_process(), Ok(None));
    assert_eq!(s.entrypoint(), None);
    assert!(s.begin_run_entrypoint(spawn("/bin/sleep", &["sleep", "2"])).unwrap().is_some());
}

#[test]
fn dead_process_is_not_found() {
    let mut s = Session::new();
    let id = started(&mut s, "/bin/true", &["true"], 4);
    s.receive(&note(Notification::ProcessDied { id, reason: DeathReason::Exited(0) }));
    assert!(!s.is_dead(4));
    assert_eq!(
        s.pop_notification(),
        Ok(Some(Notification::ProcessDied { id: 4, reason: DeathReason::Exited(0) }))
    );
    assert!(s.is_dead(4));
    assert!(!s.is_dead(5));
    assert_eq!(s.begin_query_output(4, 0, 10), Ok(None));
    assert_eq!(s.begin_kill(4), Ok(None));
    // Even once the connection is gone.
    s.fail(ClientError::Transport);
    assert_eq!(s.begin_query_output(4, 0, 10), Ok(None));
    assert_eq!(s.begin_kill(4), Ok(None));
    assert_eq!(s.begin_kill(5), Err(ClientError::Transport));
}

#[test]
fn unknown_process_query_is_none() {
    let mut s = Session::new();
    s.begin_query_output(77, 0, 10).unwrap().unwrap();
    s.receive(&reply(Response::Failure));
    assert_eq!(s.finish_query_output(), Ok(None));
    s.begin_kill(77).unwrap().unwrap();
    s.receive(&reply(Response::Failure));
    assert_eq!(s.finish_kill(), Ok(None));
}

#[test]
fn query_output_bounded_by_max_len() {
    let mut s = Session::new();
    s.begin_query_output(1, 2, 3).unwrap().unwrap();
    s.receive(&reply(Response::Output { offset: 2, data: b"abc".to_vec() }));
    assert_eq!(s.finish_query_output(), Ok(Some(b"abc".to_vec())));
    s.begin_query_output(1, 5, 0).unwrap().unwrap();
    s.receive(&reply(Response::Output { offset: 5, data: vec![] }));
    assert_eq!(s.finish_query_output(), Ok(Some(vec![])));
    s.begin_query_output(1, 2, 3).unwrap().unwrap();
    s.receive(&reply(Response::Output { offset: 2, data: b"abcd".to_vec() }));
    assert_eq!(s.finish_query_output(), Err(ClientError::Protocol));
    assert_eq!(s.fault(), Some(ClientError::Protocol));
}

#[test]
fn query_output_from_wrong_offset_is_refused() {
    let mut s = Session::new();
    s.begin_query_output(1, 4, 10).unwrap().unwrap();
    s.receive(&reply(Response::Output { offset: 0, data: b"ab".to_vec() }));
    assert_eq!(s.finish_query_output(), Err(ClientError::Protocol));
}

#[test]
fn notifications_keep_order_around_replies() {
    let mut s = Session::new();
    s.begin_run_process(spawn("/bin/ls", &["ls"])).unwrap();
    let mut bytes = note(Notification::OutputAvailable { id: 1, fd: 1 });
    bytes.extend(note(Notification::ProcessDied { id: 1, reason: DeathReason::Exited(0) }));
    bytes.extend(reply(Response::Spawned(3)));
    bytes.extend(note(Notification::OutputAvailable { id: 3, fd: 2 }));
    // Delivered in pieces of three bytes.
    for chunk in bytes.chunks(3) {
        s.receive(chunk);
    }
    assert_eq!(s.finish_run_process(), Ok(Some(3)));
    s.begin_kill(3).unwrap().unwrap();
    s.receive(&note(Notification::ProcessDied { id: 3, reason: DeathReason::Killed }));
    s.receive(&reply(Response::Done));
    assert_eq!(s.finish_kill(), Ok(Some(())));
    let mut got = vec![];
    while let Ok(Some(n)) = s.pop_notification() {
        got.push(n);
    }
    assert_eq!(
        got,
        vec![
            Notification::OutputAvailable { id: 1, fd: 1 },
            Notification::ProcessDied { id: 1, reason: DeathReason::Exited(0) },
            Notification::OutputAvailable { id: 3, fd: 2 },
            Notification::ProcessDied { id: 3, reason: DeathReason::Killed },
        ]
    );
    assert_eq!(s.pop_notification(), Ok(None));
}

#[test]
fn one_command_at_a_time() {
    let mut s = Session::new();
    s.begin_quit().unwrap();
    assert_eq!(s.begin_run_process(spawn("/bin/ls", &["ls"])), Err(ClientError::Busy));
    assert_eq!(s.begin_kill(1), Err(ClientError::Busy));
    assert_eq!(s.finish_run_process(), Err(ClientError::NotPending));
    assert_eq!(s.finish_quit(), Err(ClientError::NotReady));
    assert!(!s.reply_ready());
    s.receive(&reply(Response::Done));
    assert_eq!(s.finish_quit(), Ok(Some(())));
    assert_eq!(s.finish_quit(), Err(ClientError::NotPending));
}

#[test]
fn unsolicited_reply_ends_connection() {
    let mut s = Session::new();
    s.receive(&reply(Response::Done));
    assert_eq!(s.fault(), Some(ClientError::Protocol));
    assert_eq!(s.pop_notification(), Err(ClientError::Protocol));
}

#[test]
fn malformed_frame_ends_connection_and_nothing_after_is_read() {
    let mut s = Session::new();
    let mut bytes = frame(&vec![99]);
    bytes.extend(note(Notification::OutputAvailable { id: 1, fd: 1 }));
    s.receive(&bytes);
    assert_eq!(s.fault(), Some(ClientError::Protocol));
    assert_eq!(s.pop_notification(), Err(ClientError::Protocol));
}

#[test]
fn wrong_reply_shape_is_protocol_error() {
    let mut s = Session::new();
    s.begin_run_process(spawn("/bin/ls", &["ls"])).unwrap();
    s.receive(&reply(Response::Done));
    assert_eq!(s.finish_run_process(), Err(ClientError::Protocol));
    assert_eq!(s.begin_quit(), Err(ClientError::Protocol));
}

#[test]
fn transport_failure_wakes_waiting_caller() {
    let mut s = Session::new();
    s.begin_kill(1).unwrap().unwrap();
    s.fail(ClientError::Transport);
    assert!(s.reply_ready());
    assert_eq!(s.finish_kill(), Err(ClientError::Transport));
    s.fail(ClientError::EndOfStream);
    assert_eq!(s.fault(), Some(ClientError::Transport));
}

#[test]
fn echo_output_read_after_its_death_arrived() {
    let mut s = Session::new();
    let mut req = spawn("/bin/echo", &["echo", "TEST"]);
    req.stdout = Some(b"/a".to_vec());
    s.begin_run_process(req).unwrap();
    s.receive(&reply(Response::Spawned(1)));
    assert_eq!(s.finish_run_process(), Ok(Some(1)));
    // Echo exits at once: both frames come in one read.
    let mut bytes = note(Notification::OutputAvailable { id: 1, fd: 1 });
    bytes.extend(note(Notification::ProcessDied { id: 1, reason: DeathReason::Exited(0) }));
    s.receive(&bytes);
    assert_eq!(
        s.pop_notification(),
        Ok(Some(Notification::OutputAvailable { id: 1, fd: 1 }))
    );
    assert!(!s.is_dead(1));
    for _ in 0..2 {
        let f = s.begin_query_output(1, 0, u64::MAX).unwrap().unwrap();
        assert_eq!(sent(&f), Command::QueryOutput { id: 1, offset: 0, max_len: u64::MAX });
        s.receive(&reply(Response::Output { offset: 0, data: b"TEST\n".to_vec() }));
        assert_eq!(s.finish_query_output(), Ok(Some(b"TEST\n".to_vec())));
    }
    // Once the death is taken, the id is inert.
    assert_eq!(
        s.pop_notification(),
        Ok(Some(Notification::ProcessDied { id: 1, reason: DeathReason::Exited(0) }))
    );
    assert_eq!(s.begin_query_output(1, 0, u64::MAX), Ok(None));
    assert_eq!(s.begin_kill(1), Ok(None));
}

#[test]
fn reply_goes_to_caller_and_notifications_stay_queued() {
    let mut s = Session::new();
    s.begin_run_process(spawn("/bin/echo", &["echo", "TEST"])).unwrap();
    let n1 = Notification::OutputAvailable { id: 7, fd: 2 };
    let n2 = Notification::ProcessDied { id: 7, reason: DeathReason::Signaled(9) };
    s.receive(&note(n1));
    s.receive(&reply(Response::Spawned(8)));
    s.receive(&note(n2));
    assert_eq!(s.finish_run_process(), Ok(Some(8)));
    assert_eq!(s.pop_notification(), Ok(Some(n1)));
    assert_eq!(s.notification_count(), 1);
    assert_eq!(s.pop_notification(), Ok(Some(n2)));
}

#[test]
fn plain_spawn_after_entrypoint_is_not_entrypoint() {
    let mut s = Session::new();
    s.begin_run_entrypoint(spawn("/bin/sleep", &["sleep", "2"])).unwrap().unwrap();
    s.receive(&reply(Response::Spawned(1)));
    assert_eq!(s.finish_run_process(), Ok(Some(1)));
    let f = s.begin_run_process(spawn("/bin/echo", &["echo", "TEST"])).unwrap();
    assert_eq!(
        sent(&f),
        Command::RunProcess { req: spawn("/bin/echo", &["echo", "TEST"]), entrypoint: false }
    );
    s.receive(&reply(Response::Spawned(2)));
    assert_eq!(s.finish_run_process(), Ok(Some(2)));
    assert_eq!(s.entrypoint(), Some(1));
}

#[test]
fn queued_notifications_can_be_read_without_taking() {
    let mut s = Session::new();
    let a = Notification::OutputAvailable { id: 1, fd: 1 };
    let b = Notification::ProcessDied { id: 1, reason: DeathReason::Exited(3) };
    s.receive(&note(a));
    assert_eq!(s.notification_count(), 1);
    s.receive(&note(b));
    assert_eq!(s.notifications_from(0), vec![a, b]);
    assert_eq!(s.notifications_from(1), vec![b]);
    assert_eq!(s.notifications_from(2), vec![]);
    assert_eq!(s.notifications_from(5), vec![]);
    assert_eq!(s.notification_count(), 2);
    assert!(!s.is_dead(1));
}
