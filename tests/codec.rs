use runtime::command::{decode_command, encode_command, Command, ProtocolError, SpawnRequest};
use runtime::frame::{frame, FrameReader};
use runtime::message::{
    decode_message, encode_message, DeathReason, Message, Notification, Response,
};

fn spawn(argv: &[&str]) -> SpawnRequest {
    SpawnRequest {
        binary: b"/bin/echo".to_vec(),
        argv: argv.iter().map(|a| a.as_bytes().to_vec()).collect(),
        env: None,
        uid: 0,
        gid: 0,
        stdin: None,
        stdout: None,
        stderr: None,
        cwd: None,
    }
}

fn round_trip(cmd: Command) {
    let bytes = encode_command(&cmd);
    assert_eq!(decode_command(&bytes), Ok(cmd));
}

#[test]
fn command_round_trip_every_variant() {
    round_trip(Command::RunProcess { req: spawn(&["echo", "TEST"]), entrypoint: false });
    round_trip(Command::RunProcess { req: spawn(&["sleep", "2"]), entrypoint: true });
    round_trip(Command::QueryOutput { id: 7, offset: 3, max_len: u64::MAX });
    round_trip(Command::Kill { id: u64::MAX });
    round_trip(Command::Quit);
}

#[test]
fn command_round_trip_empty_argv_and_optional_fields() {
    let mut req = spawn(&[]);
    round_trip(Command::RunProcess { req: req.clone(), entrypoint: false });
    req.argv = vec![b"ls".to_vec()];
    req.env = Some(vec![]);
    req.cwd = Some(vec![]);
    round_trip(Command::RunProcess { req: req.clone(), entrypoint: false });
    req.env = Some(vec![b"PATH=/bin".to_vec(), vec![]]);
    req.cwd = Some(b"/etc".to_vec());
    round_trip(Command::RunProcess { req, entrypoint: false });
}

#[test]
fn absent_and_empty_fields_encode_differently() {
    let mut a = spawn(&["ls"]);
    let mut b = a.clone();
    b.env = Some(vec![]);
    assert_ne!(
        encode_command(&Command::RunProcess { req: a.clone(), entrypoint: false }),
        encode_command(&Command::RunProcess { req: b, entrypoint: false })
    );
    let c = a.clone();
    a.cwd = Some(vec![]);
    assert_ne!(
        encode_command(&Command::RunProcess { req: a, entrypoint: false }),
        encode_command(&Command::RunProcess { req: c, entrypoint: false })
    );
}

#[test]
fn command_round_trip_redirect_slots() {
    for mask in 0..8u32 {
        let mut req = spawn(&["cat", "/a"]);
        if mask & 1 != 0 {
            req.stdin = Some(b"/in".to_vec());
        }
        if mask & 2 != 0 {
            req.stdout = Some(b"/a".to_vec());
        }
        if mask & 4 != 0 {
            req.stderr = Some(vec![0xff, 0x00, 0x80]);
        }
        round_trip(Command::RunProcess { req, entrypoint: mask == 5 });
    }
}

#[test]
fn command_exact_bytes() {
    assert_eq!(encode_command(&Command::Quit), vec![3]);
    assert_eq!(encode_command(&Command::Kill { id: 5 }), vec![2, 5, 0, 0, 0, 0, 0, 0, 0]);
    assert_eq!(
        encode_command(&Command::QueryOutput { id: 1, offset: 2, max_len: 256 }),
        vec![1, 1, 0, 0, 0, 0, 0, 0, 0, 2, 0, 0, 0, 0, 0, 0, 0, 0, 1, 0, 0, 0, 0, 0, 0]
    );
    let req = SpawnRequest {
        binary: b"/b".to_vec(),
        argv: vec![b"b".to_vec()],
        env: None,
        uid: 1,
        gid: 2,
        stdin: None,
        stdout: Some(b"/o".to_vec()),
        stderr: None,
        cwd: None,
    };
    let mut want = vec![0u8];
    want.extend_from_slice(&[2, 0, 0, 0, 0, 0, 0, 0, b'/', b'b']);
    want.extend_from_slice(&[1, 0, 0, 0, 0, 0, 0, 0, 1, 0, 0, 0, 0, 0, 0, 0, b'b']);
    want.push(0);
    want.extend_from_slice(&[1, 0, 0, 0, 2, 0, 0, 0]);
    want.extend_from_slice(&[0, 1, 2, 0, 0, 0, 0, 0, 0, 0, b'/', b'o', 0, 0]);
    want.push(1);
    assert_eq!(encode_command(&Command::RunProcess { req, entrypoint: true }), want);
}

#[test]
fn decode_command_rejects_malformed() {
    assert_eq!(decode_command(&vec![]), Err(ProtocolError));
    assert_eq!(decode_command(&vec![9]), Err(ProtocolError));
    assert_eq!(decode_command(&vec![3, 0]), Err(ProtocolError));
    assert_eq!(decode_command(&vec![2, 5, 0, 0]), Err(ProtocolError));
    let mut bytes = encode_command(&Command::RunProcess { req: spawn(&["x"]), entrypoint: false });
    *bytes.last_mut().unwrap() = 2;
    assert_eq!(decode_command(&bytes), Err(ProtocolError));
}

fn messages() -> Vec<Message> {
    vec![
        Message::Reply(Response::Failure),
        Message::Reply(Response::Done),
        Message::Reply(Response::Spawned(42)),
        Message::Reply(Response::Output { offset: 0, data: vec![] }),
        Message::Reply(Response::Output { offset: 9, data: b"TEST\n".to_vec() }),
        Message::Notification(Notification::OutputAvailable { id: 3, fd: 1 }),
        Message::Notification(Notification::ProcessDied { id: 3, reason: DeathReason::Exited(0) }),
        Message::Notification(Notification::ProcessDied { id: 4, reason: DeathReason::Killed }),
        Message::Notification(Notification::ProcessDied {
            id: 5,
            reason: DeathReason::Signaled(11),
        }),
    ]
}

#[test]
fn message_round_trip() {
    for m in messages() {
        assert_eq!(decode_message(&encode_message(&m)), Ok(m));
    }
}

#[test]
fn message_exact_bytes() {
    assert_eq!(encode_message(&Message::Reply(Response::Spawned(1))), vec![2, 1, 0, 0, 0, 0, 0, 0, 0]);
    assert_eq!(
        encode_message(&Message::Notification(Notification::OutputAvailable { id: 2, fd: 1 })),
        vec![4, 2, 0, 0, 0, 0, 0, 0, 0, 1, 0, 0, 0]
    );
    assert_eq!(
        encode_message(&Message::Notification(Notification::ProcessDied {
            id: 2,
            reason: DeathReason::Killed
        })),
        vec![5, 2, 0, 0, 0, 0, 0, 0, 0, 1]
    );
}

#[test]
fn decode_message_rejects_truncated_and_trailing() {
    for m in messages() {
        let bytes = encode_message(&m);
        for cut in 0..bytes.len() {
            assert_eq!(decode_message(&bytes[..cut].to_vec()), Err(ProtocolError));
        }
        let mut longer = bytes.clone();
        longer.push(0);
        assert_eq!(decode_message(&longer), Err(ProtocolError));
    }
    assert_eq!(decode_message(&vec![6]), Err(ProtocolError));
    assert_eq!(decode_message(&vec![5, 1, 0, 0, 0, 0, 0, 0, 0, 3]), Err(ProtocolError));
}

#[test]
fn frame_exact_bytes() {
    assert_eq!(frame(&vec![3]), vec![1, 0, 0, 0, 0, 0, 0, 0, 3]);
    assert_eq!(frame(&vec![]), vec![0, 0, 0, 0, 0, 0, 0, 0]);
}

#[test]
fn frames_split_across_reads() {
    let a = frame(&encode_message(&Message::Reply(Response::Spawned(1))));
    let b = frame(&encode_message(&Message::Reply(Response::Output {
        offset: 0,
        data: b"hello".to_vec(),
    })));
    let mut all = a.clone();
    all.extend_from_slice(&b);
    for split in 0..=all.len() {
        let mut r = FrameReader::new();
        r.push(&all[..split]);
        let mut got = vec![];
        while let Some(f) = r.next_frame() {
            got.push(f);
        }
        r.push(&all[split..]);
        while let Some(f) = r.next_frame() {
            got.push(f);
        }
        assert_eq!(got, vec![a[8..].to_vec(), b[8..].to_vec()]);
    }
}

#[test]
fn incomplete_frame_waits() {
    let mut r = FrameReader::new();
    r.push(&[4, 0, 0, 0, 0, 0, 0, 0, 1, 2]);
    assert_eq!(r.next_frame(), None);
    r.push(&[3, 4, 5]);
    assert_eq!(r.next_frame(), Some(vec![1, 2, 3, 4]));
    assert_eq!(r.next_frame(), None);
}
