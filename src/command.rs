//! Commands sent to the agent, and their encoding.
use crate::wire::{
    bytes_ok, enc_bytes, enc_list, enc_opt_bytes, enc_opt_list, enc_u32, enc_u64, lemma_bytes,
    lemma_list, lemma_opt_bytes, lemma_opt_list, lemma_u32, lemma_u64, lemma_u8, list_ok, list_view,
    opt_list_view, opt_view, parse_bytes, parse_list, parse_opt_bytes, parse_opt_list, parse_u32,
    parse_u64, parse_u8, read_bytes, read_list, read_opt_bytes, read_opt_list, read_u32, read_u64,
    read_u8, write_bytes, write_list, write_opt_bytes, write_opt_list, write_u32, write_u64,
    write_u8,
};
use vstd::prelude::*;
use vstd::seq_lib::lemma_concat_associative;

verus! {

/// How to start a process in the guest.
///
/// Each of `stdin`, `stdout` and `stderr` is either `None`, to inherit the
/// agent's descriptor, or a guest path to redirect to. Paths, arguments and
/// environment entries are raw bytes.
#[derive(Debug, Clone, PartialEq, Eq)]
pub struct SpawnRequest {
    pub binary: Vec<u8>,
    /// The argument vector, its first element included.
    pub argv: Vec<Vec<u8>>,
    /// `KEY=VALUE` entries that replace the environment, if present.
    pub env: Option<Vec<Vec<u8>>>,
    pub uid: u32,
    pub gid: u32,
    pub stdin: Option<Vec<u8>>,
    pub stdout: Option<Vec<u8>>,
    pub stderr: Option<Vec<u8>>,
    /// The working directory, if not the agent's own.
    pub cwd: Option<Vec<u8>>,
}

/// The value a `SpawnRequest` stands for.
pub struct SpawnModel {
    pub binary: Seq<u8>,
    pub argv: Seq<Seq<u8>>,
    pub env: Option<Seq<Seq<u8>>>,
    pub uid: u32,
    pub gid: u32,
    pub stdin: Option<Seq<u8>>,
    pub stdout: Option<Seq<u8>>,
    pub stderr: Option<Seq<u8>>,
    pub cwd: Option<Seq<u8>>,
}

impl View for SpawnRequest {
    type V = SpawnModel;

    open spec fn view(&self) -> SpawnModel {
        SpawnModel {
            binary: self.binary@,
            argv: list_view(self.argv@),
            env: opt_list_view(self.env),
            uid: self.uid,
            gid: self.gid,
            stdin: opt_view(self.stdin),
            stdout: opt_view(self.stdout),
            stderr: opt_view(self.stderr),
            cwd: opt_view(self.cwd),
        }
    }
}

#[derive(Debug, Clone, PartialEq, Eq)]
pub enum Command {
    /// Start a process; `entrypoint` marks it as the session's entrypoint.
    RunProcess { req: SpawnRequest, entrypoint: bool },
    /// Read at most `max_len` buffered output bytes of a process, from `offset` on.
    QueryOutput { id: u64, offset: u64, max_len: u64 },
    Kill { id: u64 },
    /// Ask the agent to end the guest session.
    Quit,
}

pub enum CommandModel {
    RunProcess { req: SpawnModel, entrypoint: bool },
    QueryOutput { id: u64, offset: u64, max_len: u64 },
    Kill { id: u64 },
    Quit,
}

impl View for Command {
    type V = CommandModel;

    open spec fn view(&self) -> CommandModel {
        match self {
            Command::RunProcess { req, entrypoint } => CommandModel::RunProcess {
                req: req@,
                entrypoint: *entrypoint,
            },
            Command::QueryOutput { id, offset, max_len } => CommandModel::QueryOutput {
                id: *id,
                offset: *offset,
                max_len: *max_len,
            },
            Command::Kill { id } => CommandModel::Kill { id: *id },
            Command::Quit => CommandModel::Quit,
        }
    }
}

pub const TAG_RUN_PROCESS: u8 = 0;
pub const TAG_QUERY_OUTPUT: u8 = 1;
pub const TAG_KILL: u8 = 2;
pub const TAG_QUIT: u8 = 3;

/// A spawn request whose strings and lists fit their length prefixes.
pub open spec fn spawn_ok(m: SpawnModel) -> bool {
    &&& bytes_ok(m.binary)
    &&& list_ok(m.argv)
    &&& (m.env matches Some(l) ==> list_ok(l))
    &&& (m.stdin matches Some(b) ==> bytes_ok(b))
    &&& (m.stdout matches Some(b) ==> bytes_ok(b))
    &&& (m.stderr matches Some(b) ==> bytes_ok(b))
    &&& (m.cwd matches Some(b) ==> bytes_ok(b))
}

pub open spec fn command_ok(c: CommandModel) -> bool {
    c matches CommandModel::RunProcess { req, .. } ==> spawn_ok(req)
}

pub open spec fn enc_spawn(m: SpawnModel) -> Seq<u8> {
    enc_bytes(m.binary) + (enc_list(m.argv) + (enc_opt_list(m.env) + (enc_u32(m.uid) + (enc_u32(
        m.gid,
    ) + (enc_opt_bytes(m.stdin) + (enc_opt_bytes(m.stdout) + (enc_opt_bytes(m.stderr)
        + enc_opt_bytes(m.cwd))))))))
}

pub open spec fn parse_spawn(s: Seq<u8>) -> Option<(SpawnModel, Seq<u8>)> {
    match parse_bytes(s) {
        None => None,
        Some((binary, s)) => match parse_list(s) {
            None => None,
            Some((argv, s)) => match parse_opt_list(s) {
                None => None,
                Some((env, s)) => match parse_u32(s) {
                    None => None,
                    Some((uid, s)) => match parse_u32(s) {
                        None => None,
                        Some((gid, s)) => match parse_opt_bytes(s) {
                            None => None,
                            Some((stdin, s)) => match parse_opt_bytes(s) {
                                None => None,
                                Some((stdout, s)) => match parse_opt_bytes(s) {
                                    None => None,
                                    Some((stderr, s)) => match parse_opt_bytes(s) {
                                        None => None,
                                        Some((cwd, s)) => Some(
                                            (
                                                SpawnModel {
                                                    binary,
                                                    argv,
                                                    env,
                                                    uid,
                                                    gid,
                                                    stdin,
                                                    stdout,
                                                    stderr,
                                                    cwd,
                                                },
                                                s,
                                            ),
                                        ),
                                    },
                                },
                            },
                        },
                    },
                },
            },
        },
    }
}

/// The bytes of a command, without framing.
pub open spec fn enc_command(c: CommandModel) -> Seq<u8> {
    match c {
        CommandModel::RunProcess { req, entrypoint } => seq![TAG_RUN_PROCESS] + (enc_spawn(req)
            + seq![if entrypoint { 1u8 } else { 0u8 }]),
        CommandModel::QueryOutput { id, offset, max_len } => seq![TAG_QUERY_OUTPUT] + (enc_u64(id)
            + (enc_u64(offset) + enc_u64(max_len))),
        CommandModel::Kill { id } => seq![TAG_KILL] + enc_u64(id),
        CommandModel::Quit => seq![TAG_QUIT],
    }
}

/// The command that the bytes `s` hold, all of them read.
pub open spec fn parse_command(s: Seq<u8>) -> Option<CommandModel> {
    match parse_u8(s) {
        Some((TAG_RUN_PROCESS, s)) => match parse_spawn(s) {
            Some((req, s)) => match parse_u8(s) {
                Some((flag, s)) => if s.len() == 0 && flag <= 1 {
                    Some(CommandModel::RunProcess { req, entrypoint: flag == 1 })
                } else {
                    None
                },
                None => None,
            },
            None => None,
        },
        Some((TAG_QUERY_OUTPUT, s)) => match parse_u64(s) {
            Some((id, s)) => match parse_u64(s) {
                Some((offset, s)) => match parse_u64(s) {
                    Some((max_len, s)) => if s.len() == 0 {
                        Some(CommandModel::QueryOutput { id, offset, max_len })
                    } else {
                        None
                    },
                    None => None,
                },
                None => None,
            },
            None => None,
        },
        Some((TAG_KILL, s)) => match parse_u64(s) {
            Some((id, s)) => if s.len() == 0 {
                Some(CommandModel::Kill { id })
            } else {
                None
            },
            None => None,
        },
        Some((TAG_QUIT, s)) => if s.len() == 0 {
            Some(CommandModel::Quit)
        } else {
            None
        },
        _ => None,
    }
}

pub proof fn lemma_spawn(m: SpawnModel, rest: Seq<u8>)
    requires
        spawn_ok(m),
    ensures
        parse_spawn(enc_spawn(m) + rest) == Some((m, rest)),
{
    let r8 = enc_opt_bytes(m.cwd) + rest;
    let r7 = enc_opt_bytes(m.stderr) + r8;
    let r6 = enc_opt_bytes(m.stdout) + r7;
    let r5 = enc_opt_bytes(m.stdin) + r6;
    let r4 = enc_u32(m.gid) + r5;
    let r3 = enc_u32(m.uid) + r4;
    let r2 = enc_opt_list(m.env) + r3;
    let r1 = enc_list(m.argv) + r2;
    assert(enc_spawn(m) + rest =~= enc_bytes(m.binary) + r1);
    lemma_bytes(m.binary, r1);
    lemma_list(m.argv, r2);
    lemma_opt_list(m.env, r3);
    lemma_u32(m.uid, r4);
    lemma_u32(m.gid, r5);
    lemma_opt_bytes(m.stdin, r6);
    lemma_opt_bytes(m.stdout, r7);
    lemma_opt_bytes(m.stderr, r8);
    lemma_opt_bytes(m.cwd, rest);
}

/// Decoding the encoding of any valid command gives that command back.
pub proof fn lemma_command_round_trip(c: CommandModel)
    requires
        command_ok(c),
    ensures
        parse_command(enc_command(c)) == Some(c),
{
    let e = Seq::<u8>::empty();
    match c {
        CommandModel::RunProcess { req, entrypoint } => {
            let flag = seq![if entrypoint { 1u8 } else { 0u8 }];
            lemma_u8(TAG_RUN_PROCESS, enc_spawn(req) + flag);
            lemma_spawn(req, flag);
            assert(flag =~= flag + e);
            lemma_u8(if entrypoint { 1u8 } else { 0u8 }, e);
        },
        CommandModel::QueryOutput { id, offset, max_len } => {
            let r2 = enc_u64(max_len);
            let r1 = enc_u64(offset) + r2;
            lemma_u8(TAG_QUERY_OUTPUT, enc_u64(id) + r1);
            lemma_u64(id, r1);
            lemma_u64(offset, r2);
            assert(r2 =~= r2 + e);
            lemma_u64(max_len, e);
        },
        CommandModel::Kill { id } => {
            lemma_u8(TAG_KILL, enc_u64(id));
            assert(enc_u64(id) =~= enc_u64(id) + e);
            lemma_u64(id, e);
        },
        CommandModel::Quit => {
            assert(seq![TAG_QUIT] =~= seq![TAG_QUIT] + e);
            lemma_u8(TAG_QUIT, e);
        },
    }
}

/// A received byte sequence that is not a well-formed message.
#[derive(Debug, Clone, Copy, PartialEq, Eq)]
pub struct ProtocolError;

pub fn write_spawn(out: &mut Vec<u8>, req: &SpawnRequest)
    ensures
        final(out)@ == old(out)@ + enc_spawn(req@),
{
    let ghost m = req@;
    let ghost e9 = enc_opt_bytes(m.cwd);
    let ghost e8 = enc_opt_bytes(m.stderr) + e9;
    let ghost e7 = enc_opt_bytes(m.stdout) + e8;
    let ghost e6 = enc_opt_bytes(m.stdin) + e7;
    let ghost e5 = enc_u32(m.gid) + e6;
    let ghost e4 = enc_u32(m.uid) + e5;
    let ghost e3 = enc_opt_list(m.env) + e4;
    let ghost e2 = enc_list(m.argv) + e3;
    write_bytes(out, req.binary.as_slice());
    let ghost o1 = out@;
    write_list(out, &req.argv);
    let ghost o2 = out@;
    write_opt_list(out, &req.env);
    let ghost o3 = out@;
    write_u32(out, req.uid);
    let ghost o4 = out@;
    write_u32(out, req.gid);
    let ghost o5 = out@;
    write_opt_bytes(out, &req.stdin);
    let ghost o6 = out@;
    write_opt_bytes(out, &req.stdout);
    let ghost o7 = out@;
    write_opt_bytes(out, &req.stderr);
    let ghost o8 = out@;
    write_opt_bytes(out, &req.cwd);
    proof {
        assert(out@ == o8 + e9);
        lemma_concat_associative(o7, enc_opt_bytes(m.stderr), e9);
        assert(out@ == o7 + e8);
        lemma_concat_associative(o6, enc_opt_bytes(m.stdout), e8);
        assert(out@ == o6 + e7);
        lemma_concat_associative(o5, enc_opt_bytes(m.stdin), e7);
        assert(out@ == o5 + e6);
        lemma_concat_associative(o4, enc_u32(m.gid), e6);
        assert(out@ == o4 + e5);
        lemma_concat_associative(o3, enc_u32(m.uid), e5);
        assert(out@ == o3 + e4);
        lemma_concat_associative(o2, enc_opt_list(m.env), e4);
        assert(out@ == o2 + e3);
        lemma_concat_associative(o1, enc_list(m.argv), e3);
        assert(out@ == o1 + e2);
        lemma_concat_associative(old(out)@, enc_bytes(m.binary), e2);
        assert(out@ == old(out)@ + (enc_bytes(m.binary) + e2));
    }
}

/// The bytes of `cmd`, without framing. Every command has an encoding.
pub fn encode_command(cmd: &Command) -> (r: Vec<u8>)
    ensures
        r@ == enc_command(cmd@),
{
    let mut out: Vec<u8> = Vec::new();
    match cmd {
        Command::RunProcess { req, entrypoint } => {
            write_u8(&mut out, TAG_RUN_PROCESS);
            write_spawn(&mut out, req);
            write_u8(&mut out, if *entrypoint { 1 } else { 0 });
        },
        Command::QueryOutput { id, offset, max_len } => {
            write_u8(&mut out, TAG_QUERY_OUTPUT);
            write_u64(&mut out, *id);
            write_u64(&mut out, *offset);
            write_u64(&mut out, *max_len);
        },
        Command::Kill { id } => {
            write_u8(&mut out, TAG_KILL);
            write_u64(&mut out, *id);
        },
        Command::Quit => {
            write_u8(&mut out, TAG_QUIT);
        },
    }
    assert(out@ =~= enc_command(cmd@));
    out
}

pub fn read_spawn(buf: &Vec<u8>, pos: usize) -> (r: Option<(SpawnRequest, usize)>)
    requires
        pos <= buf@.len(),
    ensures
        match r {
            None => parse_spawn(buf@.skip(pos as int)) is None,
            Some((v, q)) => pos <= q <= buf@.len() && parse_spawn(buf@.skip(pos as int)) == Some(
                (v@, buf@.skip(q as int)),
            ),
        },
{
    let (binary, p) = match read_bytes(buf, pos) {
        Some(x) => x,
        None => return None,
    };
    let (argv, p) = match read_list(buf, p) {
        Some(x) => x,
        None => return None,
    };
    let (env, p) = match read_opt_list(buf, p) {
        Some(x) => x,
        None => return None,
    };
    let (uid, p) = match read_u32(buf, p) {
        Some(x) => x,
        None => return None,
    };
    let (gid, p) = match read_u32(buf, p) {
        Some(x) => x,
        None => return None,
    };
    let (stdin, p) = match read_opt_bytes(buf, p) {
        Some(x) => x,
        None => return None,
    };
    let (stdout, p) = match read_opt_bytes(buf, p) {
        Some(x) => x,
        None => return None,
    };
    let (stderr, p) = match read_opt_bytes(buf, p) {
        Some(x) => x,
        None => return None,
    };
    let (cwd, p) = match read_opt_bytes(buf, p) {
        Some(x) => x,
        None => return None,
    };
    Some((SpawnRequest { binary, argv, env, uid, gid, stdin, stdout, stderr, cwd }, p))
}

/// Reads a command from `buf`, which must hold exactly one.
pub fn decode_command(buf: &Vec<u8>) -> (r: Result<Command, ProtocolError>)
    ensures
        match r {
            Ok(c) => parse_command(buf@) == Some(c@),
            Err(_) => parse_command(buf@) is None,
        },
{
    assert(buf@.skip(0) =~= buf@);
    let (tag, p) = match read_u8(buf, 0) {
        Some(x) => x,
        None => return Err(ProtocolError),
    };
    if tag == TAG_RUN_PROCESS {
        let (req, p) = match read_spawn(buf, p) {
            Some(x) => x,
            None => return Err(ProtocolError),
        };
        let (flag, p) = match read_u8(buf, p) {
            Some(x) => x,
            None => return Err(ProtocolError),
        };
        if p == buf.len() && flag <= 1 {
            Ok(Command::RunProcess { req, entrypoint: flag == 1 })
        } else {
            Err(ProtocolError)
        }
    } else if tag == TAG_QUERY_OUTPUT {
        let (id, p) = match read_u64(buf, p) {
            Some(x) => x,
            None => return Err(ProtocolError),
        };
        let (offset, p) = match read_u64(buf, p) {
            Some(x) => x,
            None => return Err(ProtocolError),
        };
        let (max_len, p) = match read_u64(buf, p) {
            Some(x) => x,
            None => return Err(ProtocolError),
        };
        if p == buf.len() {
            Ok(Command::QueryOutput { id, offset, max_len })
        } else {
            Err(ProtocolError)
        }
    } else if tag == TAG_KILL {
        let (id, p) = match read_u64(buf, p) {
            Some(x) => x,
            None => return Err(ProtocolError),
        };
        if p == buf.len() {
            Ok(Command::Kill { id })
        } else {
            Err(ProtocolError)
        }
    } else if tag == TAG_QUIT {
        if p == buf.len() {
            Ok(Command::Quit)
        } else {
            Err(ProtocolError)
        }
    } else {
        Err(ProtocolError)
    }
}

} // verus!
