//! Messages from the agent: replies to commands and unsolicited
//! notifications, and their encoding.
use crate::command::ProtocolError;
use crate::wire::{
    bytes_ok, enc_bytes, enc_u32, enc_u64, lemma_bytes, lemma_u32, lemma_u64, lemma_u8,
    parse_bytes, parse_u32, parse_u64, parse_u8, read_bytes, read_u32, read_u64, read_u8,
    write_bytes, write_u32, write_u64, write_u8,
};
use vstd::prelude::*;

verus! {

/// Why a process ended.
#[derive(Debug, Clone, Copy, PartialEq, Eq, Structural)]
pub enum DeathReason {
    /// It exited by itself with this status code.
    Exited(u32),
    /// It was ended by a `kill` command.
    Killed,
    /// It was ended by this signal, which nobody asked for.
    Signaled(u32),
}

/// An event the agent reports without being asked.
#[derive(Debug, Clone, Copy, PartialEq, Eq, Structural)]
pub enum Notification {
    /// New bytes can be read on descriptor `fd` of process `id`.
    OutputAvailable { id: u64, fd: u32 },
    /// Process `id` has ended.
    ProcessDied { id: u64, reason: DeathReason },
}

impl Notification {
    /// The process the event is about.
    pub fn process(&self) -> (r: u64)
        ensures
            r == self.process_id(),
    {
        match self {
            Notification::OutputAvailable { id, .. } => *id,
            Notification::ProcessDied { id, .. } => *id,
        }
    }

    pub open spec fn process_id(&self) -> u64 {
        match self {
            Notification::OutputAvailable { id, .. } => *id,
            Notification::ProcessDied { id, .. } => *id,
        }
    }
}

/// The agent's answer to the one command in flight.
#[derive(Debug, Clone, PartialEq, Eq)]
pub enum Response {
    /// The agent did not carry the command out.
    Failure,
    /// A `kill` or `quit` was carried out.
    Done,
    /// A process was started with this id.
    Spawned(u64),
    /// Output bytes of a process, which start at `offset` in its buffer.
    Output { offset: u64, data: Vec<u8> },
}

pub enum ResponseModel {
    Failure,
    Done,
    Spawned(u64),
    Output { offset: u64, data: Seq<u8> },
}

impl View for Response {
    type V = ResponseModel;

    open spec fn view(&self) -> ResponseModel {
        match self {
            Response::Failure => ResponseModel::Failure,
            Response::Done => ResponseModel::Done,
            Response::Spawned(id) => ResponseModel::Spawned(*id),
            Response::Output { offset, data } => ResponseModel::Output {
                offset: *offset,
                data: data@,
            },
        }
    }
}

#[derive(Debug, Clone, PartialEq, Eq)]
pub enum Message {
    Reply(Response),
    Notification(Notification),
}

pub enum MessageModel {
    Reply(ResponseModel),
    Notification(Notification),
}

impl View for Message {
    type V = MessageModel;

    open spec fn view(&self) -> MessageModel {
        match self {
            Message::Reply(r) => MessageModel::Reply(r@),
            Message::Notification(n) => MessageModel::Notification(*n),
        }
    }
}

pub const TAG_FAILURE: u8 = 0;
pub const TAG_DONE: u8 = 1;
pub const TAG_SPAWNED: u8 = 2;
pub const TAG_OUTPUT: u8 = 3;
pub const TAG_OUTPUT_AVAILABLE: u8 = 4;
pub const TAG_PROCESS_DIED: u8 = 5;

pub const REASON_EXITED: u8 = 0;
pub const REASON_KILLED: u8 = 1;
pub const REASON_SIGNALED: u8 = 2;

pub open spec fn message_ok(m: MessageModel) -> bool {
    m matches MessageModel::Reply(ResponseModel::Output { data, .. }) ==> bytes_ok(data)
}

pub open spec fn enc_reason(r: DeathReason) -> Seq<u8> {
    match r {
        DeathReason::Exited(code) => seq![REASON_EXITED] + enc_u32(code),
        DeathReason::Killed => seq![REASON_KILLED],
        DeathReason::Signaled(sig) => seq![REASON_SIGNALED] + enc_u32(sig),
    }
}

/// The bytes of a message, without framing.
pub open spec fn enc_message(m: MessageModel) -> Seq<u8> {
    match m {
        MessageModel::Reply(ResponseModel::Failure) => seq![TAG_FAILURE],
        MessageModel::Reply(ResponseModel::Done) => seq![TAG_DONE],
        MessageModel::Reply(ResponseModel::Spawned(id)) => seq![TAG_SPAWNED] + enc_u64(id),
        MessageModel::Reply(ResponseModel::Output { offset, data }) => seq![TAG_OUTPUT] + (enc_u64(
            offset,
        ) + enc_bytes(data)),
        MessageModel::Notification(Notification::OutputAvailable { id, fd }) => seq![
            TAG_OUTPUT_AVAILABLE,
        ] + (enc_u64(id) + enc_u32(fd)),
        MessageModel::Notification(Notification::ProcessDied { id, reason }) => seq![
            TAG_PROCESS_DIED,
        ] + (enc_u64(id) + enc_reason(reason)),
    }
}

pub open spec fn parse_reason(s: Seq<u8>) -> Option<(DeathReason, Seq<u8>)> {
    match parse_u8(s) {
        Some((REASON_EXITED, s)) => match parse_u32(s) {
            Some((code, s)) => Some((DeathReason::Exited(code), s)),
            None => None,
        },
        Some((REASON_KILLED, s)) => Some((DeathReason::Killed, s)),
        Some((REASON_SIGNALED, s)) => match parse_u32(s) {
            Some((sig, s)) => Some((DeathReason::Signaled(sig), s)),
            None => None,
        },
        _ => None,
    }
}

/// What the bytes `s` hold, read to the end, or `None` where they are not
/// exactly one message.
pub open spec fn parse_message_body(s: Seq<u8>) -> Option<(MessageModel, Seq<u8>)> {
    match parse_u8(s) {
        Some((TAG_FAILURE, s)) => Some((MessageModel::Reply(ResponseModel::Failure), s)),
        Some((TAG_DONE, s)) => Some((MessageModel::Reply(ResponseModel::Done), s)),
        Some((TAG_SPAWNED, s)) => match parse_u64(s) {
            Some((id, s)) => Some((MessageModel::Reply(ResponseModel::Spawned(id)), s)),
            None => None,
        },
        Some((TAG_OUTPUT, s)) => match parse_u64(s) {
            Some((offset, s)) => match parse_bytes(s) {
                Some((data, s)) => Some(
                    (MessageModel::Reply(ResponseModel::Output { offset, data }), s),
                ),
                None => None,
            },
            None => None,
        },
        Some((TAG_OUTPUT_AVAILABLE, s)) => match parse_u64(s) {
            Some((id, s)) => match parse_u32(s) {
                Some((fd, s)) => Some(
                    (MessageModel::Notification(Notification::OutputAvailable { id, fd }), s),
                ),
                None => None,
            },
            None => None,
        },
        Some((TAG_PROCESS_DIED, s)) => match parse_u64(s) {
            Some((id, s)) => match parse_reason(s) {
                Some((reason, s)) => Some(
                    (MessageModel::Notification(Notification::ProcessDied { id, reason }), s),
                ),
                None => None,
            },
            None => None,
        },
        _ => None,
    }
}

pub open spec fn parse_message(s: Seq<u8>) -> Option<MessageModel> {
    match parse_message_body(s) {
        Some((m, rest)) => if rest.len() == 0 {
            Some(m)
        } else {
            None
        },
        None => None,
    }
}

/// Decoding the encoding of any valid message gives that message back.
pub proof fn lemma_message_round_trip(m: MessageModel)
    requires
        message_ok(m),
    ensures
        parse_message(enc_message(m)) == Some(m),
{
    let e = Seq::<u8>::empty();
    match m {
        MessageModel::Reply(ResponseModel::Failure) => lemma_u8(TAG_FAILURE, e),
        MessageModel::Reply(ResponseModel::Done) => lemma_u8(TAG_DONE, e),
        MessageModel::Reply(ResponseModel::Spawned(id)) => {
            lemma_u8(TAG_SPAWNED, enc_u64(id));
            assert(enc_u64(id) =~= enc_u64(id) + e);
            lemma_u64(id, e);
        },
        MessageModel::Reply(ResponseModel::Output { offset, data }) => {
            lemma_u8(TAG_OUTPUT, enc_u64(offset) + enc_bytes(data));
            lemma_u64(offset, enc_bytes(data));
            assert(enc_bytes(data) =~= enc_bytes(data) + e);
            lemma_bytes(data, e);
        },
        MessageModel::Notification(Notification::OutputAvailable { id, fd }) => {
            lemma_u8(TAG_OUTPUT_AVAILABLE, enc_u64(id) + enc_u32(fd));
            lemma_u64(id, enc_u32(fd));
            assert(enc_u32(fd) =~= enc_u32(fd) + e);
            lemma_u32(fd, e);
        },
        MessageModel::Notification(Notification::ProcessDied { id, reason }) => {
            lemma_u8(TAG_PROCESS_DIED, enc_u64(id) + enc_reason(reason));
            lemma_u64(id, enc_reason(reason));
            assert(enc_reason(reason) =~= enc_reason(reason) + e);
            match reason {
                DeathReason::Exited(code) => {
                    lemma_u8(REASON_EXITED, enc_u32(code));
                    assert(enc_u32(code) =~= enc_u32(code) + e);
                    lemma_u32(code, e);
                },
                DeathReason::Killed => lemma_u8(REASON_KILLED, e),
                DeathReason::Signaled(sig) => {
                    lemma_u8(REASON_SIGNALED, enc_u32(sig));
                    assert(enc_u32(sig) =~= enc_u32(sig) + e);
                    lemma_u32(sig, e);
                },
            }
        },
    }
}

/// The bytes of `msg`, without framing, as the agent writes them.
pub fn encode_message(msg: &Message) -> (r: Vec<u8>)
    ensures
        r@ == enc_message(msg@),
{
    let mut out: Vec<u8> = Vec::new();
    match msg {
        Message::Reply(Response::Failure) => write_u8(&mut out, TAG_FAILURE),
        Message::Reply(Response::Done) => write_u8(&mut out, TAG_DONE),
        Message::Reply(Response::Spawned(id)) => {
            write_u8(&mut out, TAG_SPAWNED);
            write_u64(&mut out, *id);
        },
        Message::Reply(Response::Output { offset, data }) => {
            write_u8(&mut out, TAG_OUTPUT);
            write_u64(&mut out, *offset);
            write_bytes(&mut out, data.as_slice());
        },
        Message::Notification(Notification::OutputAvailable { id, fd }) => {
            write_u8(&mut out, TAG_OUTPUT_AVAILABLE);
            write_u64(&mut out, *id);
            write_u32(&mut out, *fd);
        },
        Message::Notification(Notification::ProcessDied { id, reason }) => {
            write_u8(&mut out, TAG_PROCESS_DIED);
            write_u64(&mut out, *id);
            match reason {
                DeathReason::Exited(code) => {
                    write_u8(&mut out, REASON_EXITED);
                    write_u32(&mut out, *code);
                },
                DeathReason::Killed => write_u8(&mut out, REASON_KILLED),
                DeathReason::Signaled(sig) => {
                    write_u8(&mut out, REASON_SIGNALED);
                    write_u32(&mut out, *sig);
                },
            }
        },
    }
    assert(out@ =~= enc_message(msg@));
    out
}

fn read_reason(buf: &Vec<u8>, pos: usize) -> (r: Option<(DeathReason, usize)>)
    requires
        pos <= buf@.len(),
    ensures
        match r {
            None => parse_reason(buf@.skip(pos as int)) is None,
            Some((v, q)) => pos <= q <= buf@.len() && parse_reason(buf@.skip(pos as int)) == Some(
                (v, buf@.skip(q as int)),
            ),
        },
{
    let (tag, p) = match read_u8(buf, pos) {
        Some(x) => x,
        None => return None,
    };
    if tag == REASON_EXITED {
        match read_u32(buf, p) {
            Some((code, q)) => Some((DeathReason::Exited(code), q)),
            None => None,
        }
    } else if tag == REASON_KILLED {
        Some((DeathReason::Killed, p))
    } else if tag == REASON_SIGNALED {
        match read_u32(buf, p) {
            Some((sig, q)) => Some((DeathReason::Signaled(sig), q)),
            None => None,
        }
    } else {
        None
    }
}

fn read_message(buf: &Vec<u8>) -> (r: Option<(Message, usize)>)
    ensures
        match r {
            None => parse_message_body(buf@) is None,
            Some((v, q)) => q <= buf@.len() && parse_message_body(buf@) == Some(
                (v@, buf@.skip(q as int)),
            ),
        },
{
    assert(buf@.skip(0) =~= buf@);
    let (tag, p) = match read_u8(buf, 0) {
        Some(x) => x,
        None => return None,
    };
    if tag == TAG_FAILURE {
        Some((Message::Reply(Response::Failure), p))
    } else if tag == TAG_DONE {
        Some((Message::Reply(Response::Done), p))
    } else if tag == TAG_SPAWNED {
        match read_u64(buf, p) {
            Some((id, q)) => Some((Message::Reply(Response::Spawned(id)), q)),
            None => None,
        }
    } else if tag == TAG_OUTPUT {
        let (offset, p) = match read_u64(buf, p) {
            Some(x) => x,
            None => return None,
        };
        match read_bytes(buf, p) {
            Some((data, q)) => Some((Message::Reply(Response::Output { offset, data }), q)),
            None => None,
        }
    } else if tag == TAG_OUTPUT_AVAILABLE {
        let (id, p) = match read_u64(buf, p) {
            Some(x) => x,
            None => return None,
        };
        match read_u32(buf, p) {
            Some((fd, q)) => Some(
                (Message::Notification(Notification::OutputAvailable { id, fd }), q),
            ),
            None => None,
        }
    } else if tag == TAG_PROCESS_DIED {
        let (id, p) = match read_u64(buf, p) {
            Some(x) => x,
            None => return None,
        };
        match read_reason(buf, p) {
            Some((reason, q)) => Some(
                (Message::Notification(Notification::ProcessDied { id, reason }), q),
            ),
            None => None,
        }
    } else {
        None
    }
}

/// Reads the message that `buf` holds: a reply or a notification. Bytes that
/// are not exactly one message give a `ProtocolError`; nothing is skipped.
pub fn decode_message(buf: &Vec<u8>) -> (r: Result<Message, ProtocolError>)
    ensures
        match r {
            Ok(m) => parse_message(buf@) == Some(m@),
            Err(_) => parse_message(buf@) is None,
        },
{
    match read_message(buf) {
        Some((m, q)) => if q == buf.len() {
            Ok(m)
        } else {
            Err(ProtocolError)
        },
        None => Err(ProtocolError),
    }
}

} // verus!
