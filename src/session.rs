//! The state of one connection to the agent.
//!
//! A `Session` decides; the program around it moves bytes. It sends the
//! frame that a `begin_*` call returns, hands every byte it reads to
//! `receive`, and once `reply_ready` holds, calls the `finish_*` that matches
//! the command. Only one command is in flight at a time, so a reply always
//! belongs to it; notifications queue up in the order they arrived.
use crate::command::{enc_command, encode_command, Command, CommandModel, SpawnRequest};
use crate::frame::{enc_frame, frame, parse_frame, FrameReader};
use crate::message::{
    decode_message, enc_message, lemma_message_round_trip, message_ok, parse_message, Message,
    DeathReason, MessageModel, Notification, Response, ResponseModel,
};
use crate::wire::{bytes_ok, lemma_bytes};
use vstd::prelude::*;

verus! {

/// Why a call on the session failed.
#[derive(Debug, Clone, Copy, PartialEq, Eq, Structural)]
pub enum ClientError {
    /// No agent could be reached before the deadline.
    ConnectTimeout,
    /// Reading or writing the stream failed.
    Transport,
    /// The agent closed the stream.
    EndOfStream,
    /// The agent sent bytes that are not a message, or a reply nobody asked for.
    Protocol,
    /// A command is already waiting for its reply.
    Busy,
    /// No command of this kind is waiting for a reply.
    NotPending,
    /// The reply has not arrived yet.
    NotReady,
}

/// The command that waits for its reply, with what checking the reply needs.
#[derive(Debug, Clone, Copy, PartialEq, Eq, Structural)]
pub enum Pending {
    Spawn { entrypoint: bool },
    Query { offset: u64, max_len: u64 },
    Kill,
    Quit,
}

pub struct SessionModel {
    pub pending: Option<Pending>,
    /// The reply to `pending`, once it has arrived.
    pub reply: Option<ResponseModel>,
    /// Notifications not yet taken, oldest first.
    pub queue: Seq<Notification>,
    /// The error that ended the connection, if it has ended.
    pub fault: Option<ClientError>,
    /// The process designated as entrypoint, if any.
    pub entrypoint: Option<u64>,
    /// The processes whose death the caller has taken from the queue.
    pub dead: Set<u64>,
    /// Bytes received and not yet cut into frames.
    pub inbox: Seq<u8>,
}

pub struct Session {
    pending: Option<Pending>,
    reply: Option<Response>,
    queue: Vec<Notification>,
    fault: Option<ClientError>,
    entrypoint: Option<u64>,
    dead: Vec<u64>,
    inbox: FrameReader,
}

impl View for Session {
    type V = SessionModel;

    closed spec fn view(&self) -> SessionModel {
        SessionModel {
            pending: self.pending,
            reply: match self.reply {
                Some(r) => Some(r@),
                None => None,
            },
            queue: self.queue@,
            fault: self.fault,
            entrypoint: self.entrypoint,
            dead: self.dead@.to_set(),
            inbox: self.inbox@,
        }
    }
}

/// `m` with the connection ended by `e`, unless it had ended already.
pub open spec fn with_fault(m: SessionModel, e: ClientError) -> SessionModel {
    if m.fault is Some {
        m
    } else {
        SessionModel { fault: Some(e), ..m }
    }
}

/// The dead ids once the caller has taken `n`.
pub open spec fn observed(dead: Set<u64>, n: Notification) -> Set<u64> {
    match n {
        Notification::ProcessDied { id, .. } => dead.insert(id),
        _ => dead,
    }
}

/// The effect of one message from the agent.
pub open spec fn route(m: SessionModel, msg: MessageModel) -> SessionModel {
    if m.fault is Some {
        m
    } else {
        match msg {
            MessageModel::Notification(n) => SessionModel { queue: m.queue.push(n), ..m },
            MessageModel::Reply(r) => if m.pending is Some && m.reply is None {
                SessionModel { reply: Some(r), ..m }
            } else {
                with_fault(m, ClientError::Protocol)
            },
        }
    }
}

/// The effect of a run of messages, in order.
pub open spec fn route_all(m: SessionModel, msgs: Seq<MessageModel>) -> SessionModel
    decreases msgs.len(),
{
    if msgs.len() == 0 {
        m
    } else {
        route_all(route(m, msgs[0]), msgs.drop_first())
    }
}

/// The notifications among `msgs`, in order.
pub open spec fn notifications(msgs: Seq<MessageModel>) -> Seq<Notification>
    decreases msgs.len(),
{
    if msgs.len() == 0 {
        Seq::empty()
    } else {
        match msgs[0] {
            MessageModel::Notification(n) => seq![n] + notifications(msgs.drop_first()),
            _ => notifications(msgs.drop_first()),
        }
    }
}

/// The bytes of `msgs` sent one frame each, in order.
pub open spec fn enc_stream(msgs: Seq<MessageModel>) -> Seq<u8>
    decreases msgs.len(),
{
    if msgs.len() == 0 {
        Seq::empty()
    } else {
        enc_frame(enc_message(msgs[0])) + enc_stream(msgs.drop_first())
    }
}

/// Messages whose encodings fit a frame.
pub open spec fn stream_ok(msgs: Seq<MessageModel>) -> bool {
    forall|i: int|
        0 <= i < msgs.len() ==> message_ok(#[trigger] msgs[i]) && bytes_ok(
            enc_message(msgs[i]),
        )
}

/// `m` without its inbox, for comparing what routing decided.
pub open spec fn decided(m: SessionModel) -> SessionModel {
    SessionModel { inbox: Seq::empty(), ..m }
}

/// Cuts every whole frame out of the inbox and routes its message, until a
/// frame is incomplete or the connection has ended.
pub open spec fn drain(m: SessionModel) -> SessionModel
    decreases m.inbox.len(),
{
    if m.fault is Some {
        m
    } else {
        match parse_frame(m.inbox) {
            None => m,
            Some((body, rest)) => {
                let m2 = SessionModel { inbox: rest, ..m };
                match parse_message(body) {
                    None => with_fault(m2, ClientError::Protocol),
                    // A frame holds at least its length, so `rest` is shorter.
                    Some(msg) => if rest.len() < m.inbox.len() {
                        drain(route(m2, msg))
                    } else {
                        m2
                    },
                }
            },
        }
    }
}

/// Why `m` cannot start a command now, if it cannot.
pub open spec fn start_error(m: SessionModel) -> Option<ClientError> {
    if m.fault is Some {
        m.fault
    } else if m.pending is Some {
        Some(ClientError::Busy)
    } else {
        None
    }
}

pub open spec fn started(m: SessionModel, p: Pending) -> SessionModel {
    SessionModel { pending: Some(p), ..m }
}

/// `m` once the command in flight is over.
pub open spec fn cleared(m: SessionModel) -> SessionModel {
    SessionModel { pending: None, reply: None, ..m }
}

/// The frame that carries `c`.
pub open spec fn command_frame(c: CommandModel) -> Seq<u8> {
    enc_frame(enc_command(c))
}

impl Session {
    pub fn new() -> (r: Session)
        ensures
            r@ == (SessionModel {
                pending: None,
                reply: None,
                queue: Seq::empty(),
                fault: None,
                entrypoint: None,
                dead: Set::empty(),
                inbox: Seq::empty(),
            }),
    {
        let r = Session {
            pending: None,
            reply: None,
            queue: Vec::new(),
            fault: None,
            entrypoint: None,
            dead: Vec::new(),
            inbox: FrameReader::new(),
        };
        assert(r@.dead =~= Set::<u64>::empty());
        r
    }

    /// Whether the caller has taken the notification of the death of `id`.
    pub fn is_dead(&self, id: u64) -> (r: bool)
        ensures
            r == self@.dead.contains(id),
    {
        let mut i: usize = 0;
        while i < self.dead.len()
            invariant
                i <= self.dead@.len(),
                forall|j: int| 0 <= j < i ==> self.dead@[j] != id,
            decreases self.dead@.len() - i,
        {
            if self.dead[i] == id {
                assert(self.dead@.to_set().contains(id)) by {
                    assert(self.dead@.contains(id));
                }
                return true;
            }
            i = i + 1;
        }
        assert(!self.dead@.contains(id));
        false
    }

    /// The process designated as entrypoint, if any.
    pub fn entrypoint(&self) -> (r: Option<u64>)
        ensures
            r == self@.entrypoint,
    {
        self.entrypoint
    }

    /// The error that ended the connection, if it has ended.
    pub fn fault(&self) -> (r: Option<ClientError>)
        ensures
            r == self@.fault,
    {
        self.fault
    }

    /// How many notifications wait in the queue.
    pub fn notification_count(&self) -> (r: usize)
        ensures
            r == self@.queue.len(),
    {
        self.queue.len()
    }

    /// The queued notifications from position `start` on, oldest first,
    /// without taking them.
    pub fn notifications_from(&self, start: usize) -> (r: Vec<Notification>)
        ensures
            start <= self@.queue.len() ==> r@ == self@.queue.skip(start as int),
            start > self@.queue.len() ==> r@.len() == 0,
    {
        let mut r: Vec<Notification> = Vec::new();
        if start > self.queue.len() {
            return r;
        }
        let mut i: usize = start;
        while i < self.queue.len()
            invariant
                start <= i <= self.queue@.len(),
                r@ == self.queue@.subrange(start as int, i as int),
            decreases self.queue@.len() - i,
        {
            r.push(self.queue[i]);
            i = i + 1;
            assert(r@ =~= self.queue@.subrange(start as int, i as int));
        }
        assert(self.queue@.subrange(start as int, i as int) =~= self.queue@.skip(start as int));
        r
    }

    /// Whether a caller waiting for a reply can go on: the reply is there, or
    /// the connection has ended.
    pub fn reply_ready(&self) -> (r: bool)
        ensures
            r == (self@.reply is Some || self@.fault is Some),
    {
        self.reply.is_some() || self.fault.is_some()
    }

    /// Routes one message from the agent.
    pub fn on_message(&mut self, msg: Message)
        ensures
            final(self)@ == route(old(self)@, msg@),
    {
        if self.fault.is_some() {
            return;
        }
        match msg {
            Message::Notification(n) => {
                self.queue.push(n);
            },
            Message::Reply(r) => {
                if self.pending.is_some() && self.reply.is_none() {
                    self.reply = Some(r);
                } else {
                    self.fault = Some(ClientError::Protocol);
                }
            },
        }
    }

    /// Ends the connection with `e`, unless it had ended already.
    pub fn fail(&mut self, e: ClientError)
        ensures
            final(self)@ == with_fault(old(self)@, e),
    {
        if self.fault.is_none() {
            self.fault = Some(e);
        }
    }

    /// Takes in bytes read from the stream and routes every message that is
    /// now complete.
    pub fn receive(&mut self, data: &[u8])
        ensures
            final(self)@ == drain(SessionModel { inbox: old(self)@.inbox + data@, ..old(self)@ }),
    {
        self.inbox.push(data);
        assert(self@ == SessionModel { inbox: old(self)@.inbox + data@, ..old(self)@ });
        let ghost target = drain(self@);
        let mut going = true;
        while going
            invariant
                drain(self@) == target,
                !going ==> self@ == target,
            decreases 2 * self@.inbox.len() + if going { 1int } else { 0int },
        {
            if self.fault.is_some() {
                going = false;
            } else {
                match self.inbox.next_frame() {
                    None => {
                        going = false;
                    },
                    Some(body) => {
                        match decode_message(&body) {
                            Err(_) => {
                                self.fault = Some(ClientError::Protocol);
                                going = false;
                            },
                            Ok(msg) => {
                                self.on_message(msg);
                            },
                        }
                    },
                }
            }
        }
    }

    fn start_check(&self) -> (r: Option<ClientError>)
        ensures
            r == start_error(self@),
    {
        if self.fault.is_some() {
            self.fault
        } else if self.pending.is_some() {
            Some(ClientError::Busy)
        } else {
            None
        }
    }

    /// Starts a command: records what waits for the reply and returns the
    /// frame to send.
    fn start(&mut self, cmd: &Command, p: Pending) -> (r: Vec<u8>)
        ensures
            r@ == command_frame(cmd@),
            final(self)@ == started(old(self)@, p),
    {
        self.pending = Some(p);
        frame(&encode_command(cmd))
    }

    /// Starts a process: returns the frame that asks the agent for it.
    pub fn begin_run_process(&mut self, req: SpawnRequest) -> (r: Result<Vec<u8>, ClientError>)
        ensures
            match start_error(old(self)@) {
                Some(e) => r == Err::<Vec<u8>, ClientError>(e) && final(self)@ == old(self)@,
                None => r matches Ok(f) && f@ == command_frame(
                    CommandModel::RunProcess { req: req@, entrypoint: false },
                ) && final(self)@ == started(old(self)@, Pending::Spawn { entrypoint: false }),
            },
    {
        if let Some(e) = self.start_check() {
            return Err(e);
        }
        let cmd = Command::RunProcess { req, entrypoint: false };
        Ok(self.start(&cmd, Pending::Spawn { entrypoint: false }))
    }

    /// Starts the entrypoint process. Once an entrypoint has been designated,
    /// any further request is turned down here, with `Ok(None)`.
    pub fn begin_run_entrypoint(&mut self, req: SpawnRequest) -> (r: Result<
        Option<Vec<u8>>,
        ClientError,
    >)
        ensures
            old(self)@.entrypoint is Some ==> r == Ok::<Option<Vec<u8>>, ClientError>(None)
                && final(self)@ == old(self)@,
            old(self)@.entrypoint is None ==> match start_error(old(self)@) {
                Some(e) => r == Err::<Option<Vec<u8>>, ClientError>(e) && final(self)@ == old(self)@,
                None => r matches Ok(Some(f)) && f@ == command_frame(
                    CommandModel::RunProcess { req: req@, entrypoint: true },
                ) && final(self)@ == started(old(self)@, Pending::Spawn { entrypoint: true }),
            },
    {
        if self.entrypoint.is_some() {
            return Ok(None);
        }
        if let Some(e) = self.start_check() {
            return Err(e);
        }
        let cmd = Command::RunProcess { req, entrypoint: true };
        Ok(Some(self.start(&cmd, Pending::Spawn { entrypoint: true })))
    }

    /// Asks for at most `max_len` output bytes of process `id`, from `offset`
    /// on. A process whose death the caller has taken is answered here, with
    /// `Ok(None)`; one whose death is still queued is asked about as usual.
    pub fn begin_query_output(&mut self, id: u64, offset: u64, max_len: u64) -> (r: Result<
        Option<Vec<u8>>,
        ClientError,
    >)
        ensures
            old(self)@.dead.contains(id) ==> r == Ok::<Option<Vec<u8>>, ClientError>(None)
                && final(self)@ == old(self)@,
            !old(self)@.dead.contains(id) ==> match start_error(old(self)@) {
                Some(e) => r == Err::<Option<Vec<u8>>, ClientError>(e) && final(self)@ == old(self)@,
                None => r matches Ok(Some(f)) && f@ == command_frame(
                    CommandModel::QueryOutput { id, offset, max_len },
                ) && final(self)@ == started(old(self)@, Pending::Query { offset, max_len }),
            },
    {
        if self.is_dead(id) {
            return Ok(None);
        }
        if let Some(e) = self.start_check() {
            return Err(e);
        }
        let cmd = Command::QueryOutput { id, offset, max_len };
        Ok(Some(self.start(&cmd, Pending::Query { offset, max_len })))
    }

    /// Asks the agent to end process `id`. A process whose death the caller
    /// has taken is answered here, with `Ok(None)`.
    pub fn begin_kill(&mut self, id: u64) -> (r: Result<Option<Vec<u8>>, ClientError>)
        ensures
            old(self)@.dead.contains(id) ==> r == Ok::<Option<Vec<u8>>, ClientError>(None)
                && final(self)@ == old(self)@,
            !old(self)@.dead.contains(id) ==> match start_error(old(self)@) {
                Some(e) => r == Err::<Option<Vec<u8>>, ClientError>(e) && final(self)@ == old(self)@,
                None => r matches Ok(Some(f)) && f@ == command_frame(CommandModel::Kill { id })
                    && final(self)@ == started(old(self)@, Pending::Kill),
            },
    {
        if self.is_dead(id) {
            return Ok(None);
        }
        if let Some(e) = self.start_check() {
            return Err(e);
        }
        let cmd = Command::Kill { id };
        Ok(Some(self.start(&cmd, Pending::Kill)))
    }

    /// Asks the agent to end the guest session.
    pub fn begin_quit(&mut self) -> (r: Result<Vec<u8>, ClientError>)
        ensures
            match start_error(old(self)@) {
                Some(e) => r == Err::<Vec<u8>, ClientError>(e) && final(self)@ == old(self)@,
                None => r matches Ok(f) && f@ == command_frame(CommandModel::Quit) && final(self)@ == started(old(self)@, Pending::Quit),
            },
    {
        if let Some(e) = self.start_check() {
            return Err(e);
        }
        Ok(self.start(&Command::Quit, Pending::Quit))
    }

    /// Takes the reply out, ending the command in flight; or, while there is
    /// none, says why.
    fn take_reply(&mut self) -> (r: Result<Response, ClientError>)
        ensures
            match old(self)@.reply {
                Some(x) => r matches Ok(y) && y@ == x && final(self)@ == cleared(old(self)@),
                None => final(self)@ == old(self)@ && r == Err::<Response, ClientError>(
                    match old(self)@.fault {
                        Some(e) => e,
                        None => ClientError::NotReady,
                    },
                ),
            },
    {
        match self.reply.take() {
            Some(x) => {
                self.pending = None;
                Ok(x)
            },
            None => match self.fault {
                Some(e) => Err(e),
                None => Err(ClientError::NotReady),
            },
        }
    }

    /// The agent's answer to a spawn: the new process id, or `None` where the
    /// agent turned it down. An entrypoint that started is recorded.
    pub fn finish_run_process(&mut self) -> (r: Result<Option<u64>, ClientError>)
        ensures
            match old(self)@.pending {
                Some(Pending::Spawn { entrypoint }) => match old(self)@.reply {
                    Some(ResponseModel::Spawned(id)) => r == Ok::<Option<u64>, ClientError>(
                        Some(id),
                    ) && final(self)@ == (SessionModel {
                        entrypoint: if entrypoint && old(self)@.entrypoint is None {
                            Some(id)
                        } else {
                            old(self)@.entrypoint
                        },
                        ..cleared(old(self)@)
                    }),
                    Some(ResponseModel::Failure) => r == Ok::<Option<u64>, ClientError>(None)
                        && final(self)@ == cleared(old(self)@),
                    Some(_) => r == Err::<Option<u64>, ClientError>(ClientError::Protocol)
                        && final(self)@ == with_fault(cleared(old(self)@), ClientError::Protocol),
                    None => final(self)@ == old(self)@ && r == Err::<Option<u64>, ClientError>(
                        match old(self)@.fault {
                            Some(e) => e,
                            None => ClientError::NotReady,
                        },
                    ),
                },
                _ => r == Err::<Option<u64>, ClientError>(ClientError::NotPending) && final(self)@ == old(self)@,
            },
    {
        let entrypoint = match self.pending {
            Some(Pending::Spawn { entrypoint }) => entrypoint,
            _ => return Err(ClientError::NotPending),
        };
        match self.take_reply() {
            Err(e) => Err(e),
            Ok(Response::Spawned(id)) => {
                if entrypoint && self.entrypoint.is_none() {
                    self.entrypoint = Some(id);
                }
                Ok(Some(id))
            },
            Ok(Response::Failure) => Ok(None),
            Ok(_) => {
                self.fail(ClientError::Protocol);
                Err(ClientError::Protocol)
            },
        }
    }

    /// The agent's answer to an output query: the bytes, or `None` where the
    /// process is unknown to the agent. Bytes that start elsewhere than the
    /// offset asked for, or that are more than asked for, end the connection.
    pub fn finish_query_output(&mut self) -> (r: Result<Option<Vec<u8>>, ClientError>)
        ensures
            match old(self)@.pending {
                Some(Pending::Query { offset, max_len }) => match old(self)@.reply {
                    Some(ResponseModel::Output { offset: at, data }) => if at == offset
                        && data.len() <= max_len {
                        r matches Ok(Some(d)) && d@ == data && final(self)@ == cleared(old(self)@)
                    } else {
                        r == Err::<Option<Vec<u8>>, ClientError>(ClientError::Protocol) && final(self)@ == with_fault(cleared(old(self)@), ClientError::Protocol)
                    },
                    Some(ResponseModel::Failure) => r == Ok::<Option<Vec<u8>>, ClientError>(None)
                        && final(self)@ == cleared(old(self)@),
                    Some(_) => r == Err::<Option<Vec<u8>>, ClientError>(ClientError::Protocol)
                        && final(self)@ == with_fault(cleared(old(self)@), ClientError::Protocol),
                    None => final(self)@ == old(self)@ && r == Err::<Option<Vec<u8>>, ClientError>(
                        match old(self)@.fault {
                            Some(e) => e,
                            None => ClientError::NotReady,
                        },
                    ),
                },
                _ => r == Err::<Option<Vec<u8>>, ClientError>(ClientError::NotPending) && final(self)@ == old(self)@,
            },
    {
        let (offset, max_len) = match self.pending {
            Some(Pending::Query { offset, max_len }) => (offset, max_len),
            _ => return Err(ClientError::NotPending),
        };
        match self.take_reply() {
            Err(e) => Err(e),
            Ok(Response::Output { offset: at, data }) => {
                if at == offset && (data.len() as u64) <= max_len {
                    Ok(Some(data))
                } else {
                    self.fail(ClientError::Protocol);
                    Err(ClientError::Protocol)
                }
            },
            Ok(Response::Failure) => Ok(None),
            Ok(_) => {
                self.fail(ClientError::Protocol);
                Err(ClientError::Protocol)
            },
        }
    }

    /// Ends a kill or quit: `Some(())` where the agent carried it out, `None`
    /// where it did not.
    fn finish_done(&mut self, want: Pending) -> (r: Result<Option<()>, ClientError>)
        ensures
            done_outcome(old(self)@, want, r, final(self)@),
    {
        if self.pending != Some(want) {
            return Err(ClientError::NotPending);
        }
        match self.take_reply() {
            Err(e) => Err(e),
            Ok(Response::Done) => Ok(Some(())),
            Ok(Response::Failure) => Ok(None),
            Ok(_) => {
                self.fail(ClientError::Protocol);
                Err(ClientError::Protocol)
            },
        }
    }

    /// The agent's answer to a kill: `Some(())` where it ended the process,
    /// `None` where the process was unknown or already dead.
    pub fn finish_kill(&mut self) -> (r: Result<Option<()>, ClientError>)
        ensures
            done_outcome(old(self)@, Pending::Kill, r, final(self)@),
    {
        self.finish_done(Pending::Kill)
    }

    /// The agent's answer to a quit: `Some(())` where it will end the session.
    pub fn finish_quit(&mut self) -> (r: Result<Option<()>, ClientError>)
        ensures
            done_outcome(old(self)@, Pending::Quit, r, final(self)@),
    {
        self.finish_done(Pending::Quit)
    }

    /// Takes the oldest notification not yet taken. Taking the death of a
    /// process makes its id inert. Where none is queued, a connection that
    /// has ended gives its error, a live one `Ok(None)`.
    pub fn pop_notification(&mut self) -> (r: Result<Option<Notification>, ClientError>)
        ensures
            old(self)@.queue.len() > 0 ==> r == Ok::<Option<Notification>, ClientError>(
                Some(old(self)@.queue[0]),
            ) && final(self)@ == (SessionModel {
                queue: old(self)@.queue.drop_first(),
                dead: observed(old(self)@.dead, old(self)@.queue[0]),
                ..old(self)@
            }),
            old(self)@.queue.len() == 0 ==> final(self)@ == old(self)@ && r == match old(self)@.fault {
                Some(e) => Err::<Option<Notification>, ClientError>(e),
                None => Ok(None),
            },
    {
        if self.queue.len() > 0 {
            let n = self.queue.remove(0);
            assert(self.queue@ =~= old(self)@.queue.drop_first());
            if let Notification::ProcessDied { id, .. } = n {
                let ghost before = self.dead@;
                self.dead.push(id);
                proof {
                    before.lemma_push_to_set_commute(id);
                }
            }
            Ok(Some(n))
        } else {
            match self.fault {
                Some(e) => Err(e),
                None => Ok(None),
            }
        }
    }
}

/// What ending a kill or quit does, as `finish_done` states it.
pub open spec fn done_outcome(
    m: SessionModel,
    want: Pending,
    r: Result<Option<()>, ClientError>,
    after: SessionModel,
) -> bool {
    if m.pending == Some(want) {
        match m.reply {
            Some(ResponseModel::Done) => r == Ok::<Option<()>, ClientError>(Some(())) && after
                == cleared(m),
            Some(ResponseModel::Failure) => r == Ok::<Option<()>, ClientError>(None) && after
                == cleared(m),
            Some(_) => r == Err::<Option<()>, ClientError>(ClientError::Protocol) && after
                == with_fault(cleared(m), ClientError::Protocol),
            None => after == m && r == Err::<Option<()>, ClientError>(
                match m.fault {
                    Some(e) => e,
                    None => ClientError::NotReady,
                },
            ),
        }
    } else {
        r == Err::<Option<()>, ClientError>(ClientError::NotPending) && after == m
    }
}

/// Notifications reach the queue in the order they arrived, whatever replies
/// are interleaved with them: all of them while the connection lives, and
/// those that came before its end otherwise.
pub proof fn lemma_notification_order(m: SessionModel, msgs: Seq<MessageModel>)
    ensures
        route_all(m, msgs).fault is None ==> route_all(m, msgs).queue == m.queue + notifications(
            msgs,
        ),
        exists|k: int|
            0 <= k <= msgs.len() && #[trigger] route_all(m, msgs).queue == m.queue
                + notifications(msgs.take(k)),
    decreases msgs.len(),
{
    if msgs.len() == 0 {
        assert(m.queue + notifications(msgs) =~= m.queue);
        assert(msgs.take(0) =~= msgs);
    } else {
        let m1 = route(m, msgs[0]);
        let rest = msgs.drop_first();
        lemma_notification_order(m1, rest);
        lemma_faulted_stays(m1, rest);
        let k = choose|k: int|
            0 <= k <= rest.len() && #[trigger] route_all(m1, rest).queue == m1.queue
                + notifications(rest.take(k));
        if m.fault is Some {
            assert(msgs.take(0) =~= Seq::<MessageModel>::empty());
            assert(m.queue + notifications(msgs.take(0)) =~= m.queue);
        } else {
            assert(msgs.take(k + 1).drop_first() =~= rest.take(k));
            assert(msgs.take(k + 1)[0] == msgs[0]);
            match msgs[0] {
                MessageModel::Notification(n) => {
                    assert(m.queue + notifications(msgs) =~= m.queue.push(n) + notifications(
                        rest,
                    ));
                    assert(m.queue + notifications(msgs.take(k + 1)) =~= m.queue.push(n)
                        + notifications(rest.take(k)));
                },
                _ => {},
            }
        }
    }
}

/// A connection that has ended takes no more messages.
pub proof fn lemma_faulted_stays(m: SessionModel, msgs: Seq<MessageModel>)
    ensures
        m.fault is Some ==> route_all(m, msgs) == m,
        route_all(m, msgs).fault is None ==> m.fault is None,
    decreases msgs.len(),
{
    if msgs.len() > 0 {
        lemma_faulted_stays(route(m, msgs[0]), msgs.drop_first());
    }
}

/// Routing messages changes neither the dead ids nor the entrypoint: a death
/// counts only once the caller takes it from the queue.
pub proof fn lemma_route_keeps(m: SessionModel, msgs: Seq<MessageModel>)
    ensures
        route_all(m, msgs).dead == m.dead,
        route_all(m, msgs).entrypoint == m.entrypoint,
    decreases msgs.len(),
{
    if msgs.len() > 0 {
        lemma_route_keeps(route(m, msgs[0]), msgs.drop_first());
    }
}

/// Bytes that carry a run of messages, one frame each, however `receive`
/// gets them, have the effect of routing those messages in order.
pub proof fn lemma_stream_routes(m: SessionModel, msgs: Seq<MessageModel>)
    requires
        stream_ok(msgs),
    ensures
        decided(drain(SessionModel { inbox: enc_stream(msgs), ..m })) == decided(
            route_all(m, msgs),
        ),
    decreases msgs.len(),
{
    let m0 = SessionModel { inbox: enc_stream(msgs), ..m };
    if m.fault is Some {
        lemma_faulted_stays(m, msgs);
        assert(decided(m0) == decided(m));
    } else if msgs.len() == 0 {
        lemma_bytes_short(enc_stream(msgs));
        assert(decided(m0) == decided(m));
    } else {
        let rest = msgs.drop_first();
        let body = enc_message(msgs[0]);
        assert(stream_ok(rest)) by {
            assert forall|i: int| 0 <= i < rest.len() implies message_ok(#[trigger] rest[i])
                && bytes_ok(enc_message(rest[i])) by {
                assert(rest[i] == msgs[i + 1]);
            }
        }
        assert(message_ok(msgs[0]) && bytes_ok(body));
        lemma_bytes(body, enc_stream(rest));
        lemma_message_round_trip(msgs[0]);
        assert(parse_frame(m0.inbox) == Some((body, enc_stream(rest))));
        let m1 = route(m, msgs[0]);
        assert(route(SessionModel { inbox: enc_stream(rest), ..m }, msgs[0]) == SessionModel {
            inbox: enc_stream(rest),
            ..m1
        });
        lemma_stream_routes(m1, rest);
    }
}

/// No frame can be read out of empty bytes.
proof fn lemma_bytes_short(s: Seq<u8>)
    requires
        s.len() == 0,
    ensures
        parse_frame(s) is None,
{
}

/// Once the caller has taken the death of a process, whatever messages come
/// after and whatever is taken next, a query or a kill on it is answered
/// `Ok(None)` without reaching the agent: the id stays among the dead.
pub proof fn lemma_dead_stays_dead(
    m: SessionModel,
    id: u64,
    msgs: Seq<MessageModel>,
    n: Notification,
)
    requires
        m.dead.contains(id),
    ensures
        route_all(m, msgs).dead.contains(id),
        observed(route_all(m, msgs).dead, n).contains(id),
{
    lemma_route_keeps(m, msgs);
}

/// Taking the death of a process from the queue makes its id inert.
pub proof fn lemma_taken_death_is_dead(dead: Set<u64>, id: u64, reason: DeathReason)
    ensures
        observed(dead, Notification::ProcessDied { id, reason }).contains(id),
{
}

/// An entrypoint once designated stays designated whatever messages come
/// after, so a further `begin_run_entrypoint` is turned down.
pub proof fn lemma_entrypoint_stays(m: SessionModel, msgs: Seq<MessageModel>)
    requires
        m.entrypoint is Some,
    ensures
        route_all(m, msgs).entrypoint == m.entrypoint,
{
    lemma_route_keeps(m, msgs);
}

} // verus!
