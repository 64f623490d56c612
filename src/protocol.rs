//! The command dispatcher: inbound frames are decoded into typed commands
//! (or rejected as unknown or malformed), and every request is answered by
//! exactly one reply frame that echoes its correlation id.

use vstd::multiset::Multiset;
use vstd::prelude::*;

use crate::runtime::{
    env_keys_unique, pair_texts, texts, unique_keys, ContainerInfo, ContainerSpec, RuntimeError,
    RuntimeErrorKind,
};
use crate::text::text_is;

verus! {

/// One value of an inbound payload object, as far as commands read it.
#[derive(Debug)]
pub enum Field {
    Null,
    Bool(bool),
    /// A non-negative integer that fits in 64 bits.
    Num(u64),
    Text(String),
    /// An array of strings.
    TextList(Vec<String>),
    /// An object whose values are all strings, in document order.
    TextMap(Vec<(String, String)>),
    /// Anything else (other numbers, nested structures).
    Other,
}

/// An inbound payload object: its members in document order.
#[derive(Debug)]
pub struct Payload {
    pub entries: Vec<(String, Field)>,
}

/// The value of the first member named `key`.
pub open spec fn lookup(entries: Seq<(String, Field)>, key: Seq<char>) -> Option<Field>
    decreases entries.len(),
{
    if entries.len() == 0 {
        None
    } else if entries[0].0@ == key {
        Some(entries[0].1)
    } else {
        lookup(entries.drop_first(), key)
    }
}

pub open spec fn text_at(p: Payload, key: Seq<char>) -> Option<Seq<char>> {
    match lookup(p.entries@, key) {
        Some(Field::Text(s)) => Some(s@),
        _ => None,
    }
}

pub open spec fn num_at(p: Payload, key: Seq<char>) -> Option<u64> {
    match lookup(p.entries@, key) {
        Some(Field::Num(n)) => Some(n),
        _ => None,
    }
}

pub open spec fn list_at(p: Payload, key: Seq<char>) -> Option<Seq<Seq<char>>> {
    match lookup(p.entries@, key) {
        Some(Field::TextList(v)) => Some(texts(v@)),
        _ => None,
    }
}

pub open spec fn map_at(p: Payload, key: Seq<char>) -> Option<Seq<(Seq<char>, Seq<char>)>> {
    match lookup(p.entries@, key) {
        Some(Field::TextMap(v)) => Some(pair_texts(v@)),
        _ => None,
    }
}

/// An optional member is acceptable when absent or of the right shape.
pub open spec fn absent(p: Payload, key: Seq<char>) -> bool {
    lookup(p.entries@, key) is None
}

/// The command kinds of the control protocol.
#[derive(Clone, Copy, Debug, PartialEq, Eq, Structural)]
pub enum CommandKind {
    Create,
    Start,
    Stop,
    Kill,
    Remove,
    Exec,
    List,
    LogStart,
    LogStop,
    Ping,
}

/// The kind named by a frame's `kind` string, if it is one of the commands.
pub open spec fn kind_of(k: Seq<char>) -> Option<CommandKind> {
    if k == "container.create"@ {
        Some(CommandKind::Create)
    } else if k == "container.start"@ {
        Some(CommandKind::Start)
    } else if k == "container.stop"@ {
        Some(CommandKind::Stop)
    } else if k == "container.kill"@ {
        Some(CommandKind::Kill)
    } else if k == "container.remove"@ {
        Some(CommandKind::Remove)
    } else if k == "container.exec"@ {
        Some(CommandKind::Exec)
    } else if k == "container.list"@ {
        Some(CommandKind::List)
    } else if k == "log.start"@ {
        Some(CommandKind::LogStart)
    } else if k == "log.stop"@ {
        Some(CommandKind::LogStop)
    } else if k == "ping"@ {
        Some(CommandKind::Ping)
    } else {
        None
    }
}

/// A validated command.
#[derive(Debug)]
pub enum Command {
    Create(ContainerSpec),
    Start { id: String },
    Stop { id: String, grace_secs: u64 },
    Kill { id: String, signal: String },
    Remove { id: String },
    Exec { id: String, argv: Vec<String> },
    List,
    LogStart { id: String },
    LogStop { id: String },
    Ping,
}

/// Why an inbound request was refused before any work was done.
#[derive(Clone, Copy, Debug, PartialEq, Eq, Structural)]
pub enum DispatchError {
    /// The kind is not a command of the protocol.
    UnknownCommand,
    /// The payload lacks a member or has one of the wrong shape.
    BadRequest,
}

/// Whether a path is absolute.
pub open spec fn is_absolute(s: Seq<char>) -> bool {
    s.len() > 0 && s[0] == '/'
}

/// What `container.create` needs: the required members, each of the right
/// shape, an absolute data directory, a port that fits 16 bits, and
/// optional members that are absent or of the right shape.
pub open spec fn create_valid(p: Payload) -> bool {
    &&& text_at(p, "container_id"@) is Some
    &&& text_at(p, "image"@) is Some
    &&& (absent(p, "startup_command"@) || text_at(p, "startup_command"@) is Some)
    &&& (absent(p, "env"@) || map_at(p, "env"@) is Some)
    &&& (map_at(p, "env"@) matches Some(m) ==> unique_keys(m))
    &&& num_at(p, "memory_mb"@) is Some
    &&& num_at(p, "cpu_cores"@) is Some
    &&& text_at(p, "data_dir"@) matches Some(d) && is_absolute(d)
    &&& num_at(p, "port"@) matches Some(n) && n <= 65535
    &&& (absent(p, "network_mode"@) || text_at(p, "network_mode"@) is Some)
}

/// Whether the payload carries what a command of kind `k` needs.
pub open spec fn payload_valid(k: CommandKind, p: Payload) -> bool {
    match k {
        CommandKind::Create => create_valid(p),
        CommandKind::Start | CommandKind::Remove | CommandKind::LogStart
        | CommandKind::LogStop => text_at(p, "id"@) is Some,
        CommandKind::Stop => text_at(p, "id"@) is Some && num_at(p, "grace_secs"@) is Some,
        CommandKind::Kill => text_at(p, "id"@) is Some && text_at(p, "signal"@) is Some,
        CommandKind::Exec => text_at(p, "id"@) is Some && list_at(p, "argv"@) is Some,
        CommandKind::List | CommandKind::Ping => true,
    }
}

/// The descriptor that a valid create payload describes.
pub open spec fn create_fits(s: ContainerSpec, p: Payload) -> bool {
    &&& Some(s.container_id@) == text_at(p, "container_id"@)
    &&& Some(s.image@) == text_at(p, "image"@)
    &&& s.startup_command@ == (match text_at(p, "startup_command"@) {
        Some(t) => t,
        None => Seq::<char>::empty(),
    })
    &&& pair_texts(s.env@) == (match map_at(p, "env"@) {
        Some(m) => m,
        None => Seq::empty(),
    })
    &&& Some(s.memory_mb) == num_at(p, "memory_mb"@)
    &&& Some(s.cpu_cores) == num_at(p, "cpu_cores"@)
    &&& Some(s.data_dir@) == text_at(p, "data_dir"@)
    &&& Some(s.port as u64) == num_at(p, "port"@)
    &&& (match s.network_mode {
        Some(m) => text_at(p, "network_mode"@) == Some(m@),
        None => absent(p, "network_mode"@),
    })
}

/// The command of kind `k` that the payload describes.
pub open spec fn command_fits(c: Command, k: CommandKind, p: Payload) -> bool {
    match (k, c) {
        (CommandKind::Create, Command::Create(s)) => create_fits(s, p) && s.wf(),
        (CommandKind::Start, Command::Start { id }) => Some(id@) == text_at(p, "id"@),
        (CommandKind::Stop, Command::Stop { id, grace_secs }) => Some(id@) == text_at(p, "id"@)
            && Some(grace_secs) == num_at(p, "grace_secs"@),
        (CommandKind::Kill, Command::Kill { id, signal }) => Some(id@) == text_at(p, "id"@)
            && Some(signal@) == text_at(p, "signal"@),
        (CommandKind::Remove, Command::Remove { id }) => Some(id@) == text_at(p, "id"@),
        (CommandKind::Exec, Command::Exec { id, argv }) => Some(id@) == text_at(p, "id"@)
            && Some(texts(argv@)) == list_at(p, "argv"@),
        (CommandKind::List, Command::List) => true,
        (CommandKind::LogStart, Command::LogStart { id }) => Some(id@) == text_at(p, "id"@),
        (CommandKind::LogStop, Command::LogStop { id }) => Some(id@) == text_at(p, "id"@),
        (CommandKind::Ping, Command::Ping) => true,
        _ => false,
    }
}

/// The kind named by `k`, if it is a command of the protocol.
pub fn parse_kind(k: &String) -> (r: Option<CommandKind>)
    ensures
        r == kind_of(k@),
{
    if text_is(k, "container.create") {
        Some(CommandKind::Create)
    } else if text_is(k, "container.start") {
        Some(CommandKind::Start)
    } else if text_is(k, "container.stop") {
        Some(CommandKind::Stop)
    } else if text_is(k, "container.kill") {
        Some(CommandKind::Kill)
    } else if text_is(k, "container.remove") {
        Some(CommandKind::Remove)
    } else if text_is(k, "container.exec") {
        Some(CommandKind::Exec)
    } else if text_is(k, "container.list") {
        Some(CommandKind::List)
    } else if text_is(k, "log.start") {
        Some(CommandKind::LogStart)
    } else if text_is(k, "log.stop") {
        Some(CommandKind::LogStop)
    } else if text_is(k, "ping") {
        Some(CommandKind::Ping)
    } else {
        None
    }
}

impl Payload {
    /// The value of the first member named `key`.
    pub fn get(&self, key: &str) -> (r: Option<&Field>)
        ensures
            r matches Some(f) ==> lookup(self.entries@, key@) == Some(*f),
            r is None ==> lookup(self.entries@, key@) is None,
    {
        let mut i: usize = 0;
        assert(self.entries@.skip(0) =~= self.entries@);
        while i < self.entries.len()
            invariant
                i <= self.entries@.len(),
                lookup(self.entries@, key@) == lookup(self.entries@.skip(i as int), key@),
            decreases self.entries.len() - i,
        {
            assert(self.entries@.skip(i as int).drop_first() =~= self.entries@.skip(i as int + 1));
            assert(self.entries@.skip(i as int)[0] == self.entries@[i as int]);
            let entry = &self.entries[i];
            assert(*entry == self.entries@[i as int]);
            let found = text_is(&entry.0, key);
            assert(found == (entry.0@ == key@));
            if found {
                let ghost rest = self.entries@.skip(i as int);
                assert(rest.len() > 0 && rest[0].0@ == key@);
                assert(lookup(self.entries@.skip(i as int), key@) == Some(self.entries@[i as int].1));
                return Some(&self.entries[i].1);
            }
            i = i + 1;
        }
        None
    }

    /// The string member `key`, if it is one.
    pub fn text(&self, key: &str) -> (r: Option<String>)
        ensures
            r matches Some(s) ==> text_at(*self, key@) == Some(s@),
            r is None ==> text_at(*self, key@) is None,
    {
        match self.get(key) {
            Some(Field::Text(s)) => Some(s.clone()),
            _ => None,
        }
    }

    /// The integer member `key`, if it is one.
    pub fn num(&self, key: &str) -> (r: Option<u64>)
        ensures
            r == num_at(*self, key@),
    {
        match self.get(key) {
            Some(Field::Num(n)) => Some(*n),
            _ => None,
        }
    }

    /// The string-array member `key`, if it is one.
    pub fn list(&self, key: &str) -> (r: Option<Vec<String>>)
        ensures
            r matches Some(v) ==> list_at(*self, key@) == Some(texts(v@)),
            r is None ==> list_at(*self, key@) is None,
    {
        match self.get(key) {
            Some(Field::TextList(v)) => Some(clone_texts(v)),
            _ => None,
        }
    }

    /// The string-object member `key`, if it is one.
    pub fn map(&self, key: &str) -> (r: Option<Vec<(String, String)>>)
        ensures
            r matches Some(v) ==> map_at(*self, key@) == Some(pair_texts(v@)),
            r is None ==> map_at(*self, key@) is None,
    {
        match self.get(key) {
            Some(Field::TextMap(v)) => Some(clone_pairs(v)),
            _ => None,
        }
    }
}

fn clone_texts(v: &Vec<String>) -> (r: Vec<String>)
    ensures
        texts(r@) == texts(v@),
{
    let mut r: Vec<String> = Vec::new();
    let mut i: usize = 0;
    while i < v.len()
        invariant
            i <= v@.len(),
            texts(r@) == texts(v@.take(i as int)),
        decreases v.len() - i,
    {
        let ghost before = r@;
        let c = v[i].clone();
        assert(c@ == v@[i as int]@);
        r.push(c);
        assert(texts(r@) =~= texts(before).push(v@[i as int]@));
        assert(texts(v@.take(i as int + 1)) =~= texts(v@.take(i as int)).push(v@[i as int]@));
        i = i + 1;
    }
    assert(v@.take(i as int) =~= v@);
    r
}

fn clone_pairs(v: &Vec<(String, String)>) -> (r: Vec<(String, String)>)
    ensures
        pair_texts(r@) == pair_texts(v@),
{
    let mut r: Vec<(String, String)> = Vec::new();
    let mut i: usize = 0;
    while i < v.len()
        invariant
            i <= v@.len(),
            pair_texts(r@) == pair_texts(v@.take(i as int)),
        decreases v.len() - i,
    {
        let ghost before = r@;
        let a = v[i].0.clone();
        let b = v[i].1.clone();
        assert(a@ == v@[i as int].0@ && b@ == v@[i as int].1@);
        r.push((a, b));
        assert(pair_texts(r@) =~= pair_texts(before).push((v@[i as int].0@, v@[i as int].1@)));
        assert(pair_texts(v@.take(i as int + 1)) =~= pair_texts(v@.take(i as int)).push(
            (v@[i as int].0@, v@[i as int].1@),
        ));
        i = i + 1;
    }
    assert(v@.take(i as int) =~= v@);
    r
}

fn opt_text(p: &Payload, key: &str) -> (r: Result<Option<String>, DispatchError>)
    ensures
        r is Ok <==> (absent(*p, key@) || text_at(*p, key@) is Some),
        r matches Ok(Some(s)) ==> text_at(*p, key@) == Some(s@),
        r matches Ok(None) ==> absent(*p, key@),
        r matches Err(e) ==> e == DispatchError::BadRequest,
{
    match p.get(key) {
        None => Ok(None),
        Some(Field::Text(s)) => Ok(Some(s.clone())),
        Some(_) => Err(DispatchError::BadRequest),
    }
}

fn need_text(p: &Payload, key: &str) -> (r: Result<String, DispatchError>)
    ensures
        r is Ok <==> text_at(*p, key@) is Some,
        r matches Ok(s) ==> text_at(*p, key@) == Some(s@),
        r matches Err(e) ==> e == DispatchError::BadRequest,
{
    match p.text(key) {
        Some(s) => Ok(s),
        None => Err(DispatchError::BadRequest),
    }
}

fn need_num(p: &Payload, key: &str) -> (r: Result<u64, DispatchError>)
    ensures
        r is Ok <==> num_at(*p, key@) is Some,
        r matches Ok(n) ==> num_at(*p, key@) == Some(n),
        r matches Err(e) ==> e == DispatchError::BadRequest,
{
    match p.num(key) {
        Some(n) => Ok(n),
        None => Err(DispatchError::BadRequest),
    }
}

/// The descriptor of a `container.create` payload.
pub fn decode_create(p: &Payload) -> (r: Result<ContainerSpec, DispatchError>)
    ensures
        r is Ok <==> create_valid(*p),
        r matches Ok(s) ==> create_fits(s, *p) && s.wf(),
        r matches Err(e) ==> e == DispatchError::BadRequest,
{
    let container_id = need_text(p, "container_id")?;
    let image = need_text(p, "image")?;
    let startup_command = match opt_text(p, "startup_command")? {
        Some(s) => s,
        None => String::new(),
    };
    let env = match p.get("env") {
        None => Vec::new(),
        Some(Field::TextMap(_)) => match p.map("env") {
            Some(v) => v,
            None => return Err(DispatchError::BadRequest),
        },
        Some(_) => return Err(DispatchError::BadRequest),
    };
    if !env_keys_unique(&env) {
        return Err(DispatchError::BadRequest);
    }
    assert(pair_texts(env@) == (match map_at(*p, "env"@) {
        Some(m) => m,
        None => Seq::empty(),
    })) by {
        assert(pair_texts(Seq::<(String, String)>::empty()) =~= Seq::empty());
    }
    let memory_mb = need_num(p, "memory_mb")?;
    let cpu_cores = need_num(p, "cpu_cores")?;
    let data_dir = need_text(p, "data_dir")?;
    if !(data_dir.as_str().unicode_len() > 0 && data_dir.as_str().get_char(0) == '/') {
        return Err(DispatchError::BadRequest);
    }
    let port = need_num(p, "port")?;
    if port > 65535 {
        return Err(DispatchError::BadRequest);
    }
    let network_mode = opt_text(p, "network_mode")?;
    Ok(
        ContainerSpec {
            container_id,
            image,
            startup_command,
            env,
            memory_mb,
            cpu_cores,
            data_dir,
            port: port as u16,
            network_mode,
        },
    )
}

/// Decodes an inbound request: an unknown kind is `UnknownCommand`, a known
/// kind whose payload lacks what it needs is `BadRequest`, and otherwise
/// the command carries the payload's values.
pub fn decode_command(kind: &String, payload: &Payload) -> (r: Result<Command, DispatchError>)
    ensures
        kind_of(kind@) is None ==> r == Err::<Command, DispatchError>(DispatchError::UnknownCommand),
        kind_of(kind@) matches Some(k) ==> {
            &&& (r is Ok <==> payload_valid(k, *payload))
            &&& (r matches Ok(c) ==> command_fits(c, k, *payload))
            &&& (r matches Err(e) ==> e == DispatchError::BadRequest)
        },
{
    let k = match parse_kind(kind) {
        Some(k) => k,
        None => return Err(DispatchError::UnknownCommand),
    };
    match k {
        CommandKind::Create => {
            let s = decode_create(payload)?;
            Ok(Command::Create(s))
        },
        CommandKind::Start => Ok(Command::Start { id: need_text(payload, "id")? }),
        CommandKind::Stop => {
            let id = need_text(payload, "id")?;
            let grace_secs = need_num(payload, "grace_secs")?;
            Ok(Command::Stop { id, grace_secs })
        },
        CommandKind::Kill => {
            let id = need_text(payload, "id")?;
            let signal = need_text(payload, "signal")?;
            Ok(Command::Kill { id, signal })
        },
        CommandKind::Remove => Ok(Command::Remove { id: need_text(payload, "id")? }),
        CommandKind::Exec => {
            let id = need_text(payload, "id")?;
            match payload.list("argv") {
                Some(argv) => Ok(Command::Exec { id, argv }),
                None => Err(DispatchError::BadRequest),
            }
        },
        CommandKind::List => Ok(Command::List),
        CommandKind::LogStart => Ok(Command::LogStart { id: need_text(payload, "id")? }),
        CommandKind::LogStop => Ok(Command::LogStop { id: need_text(payload, "id")? }),
        CommandKind::Ping => Ok(Command::Ping),
    }
}

/// The kind of a command.
pub fn command_kind(c: &Command) -> (r: CommandKind)
    ensures
        command_kind_of(*c) == r,
{
    match c {
        Command::Create(_) => CommandKind::Create,
        Command::Start { .. } => CommandKind::Start,
        Command::Stop { .. } => CommandKind::Stop,
        Command::Kill { .. } => CommandKind::Kill,
        Command::Remove { .. } => CommandKind::Remove,
        Command::Exec { .. } => CommandKind::Exec,
        Command::List => CommandKind::List,
        Command::LogStart { .. } => CommandKind::LogStart,
        Command::LogStop { .. } => CommandKind::LogStop,
        Command::Ping => CommandKind::Ping,
    }
}

pub open spec fn command_kind_of(c: Command) -> CommandKind {
    match c {
        Command::Create(_) => CommandKind::Create,
        Command::Start { .. } => CommandKind::Start,
        Command::Stop { .. } => CommandKind::Stop,
        Command::Kill { .. } => CommandKind::Kill,
        Command::Remove { .. } => CommandKind::Remove,
        Command::Exec { .. } => CommandKind::Exec,
        Command::List => CommandKind::List,
        Command::LogStart { .. } => CommandKind::LogStart,
        Command::LogStop { .. } => CommandKind::LogStop,
        Command::Ping => CommandKind::Ping,
    }
}

/// The error kinds carried by an `error` reply.
#[derive(Clone, Copy, Debug, PartialEq, Eq, Structural)]
pub enum ErrorKind {
    UnknownCommand,
    BadRequest,
    ToolMissing,
    CommandFailed,
    Decode,
}

/// The kind of an outbound reply frame.
#[derive(Clone, Copy, Debug, PartialEq, Eq, Structural)]
pub enum FrameKind {
    Reply,
    Pong,
    Error,
}

/// What a command produced when it succeeded.
#[derive(Debug)]
pub enum Outcome {
    /// Nothing to report: the reply payload is `{}`.
    Done,
    /// `create`: the full container id.
    Created(String),
    /// `exec`: the command's stdout.
    Output(String),
    /// `list`: the containers.
    Listed(Vec<ContainerInfo>),
}

/// The payload of an outbound reply.
#[derive(Debug)]
pub enum ReplyPayload {
    Empty,
    ContainerId(String),
    Stdout(String),
    Items(Vec<ContainerInfo>),
    Failure { kind: ErrorKind, text: String },
}

/// One outbound reply, answering the request with the same id.
#[derive(Debug)]
pub struct OutFrame {
    pub id: String,
    pub kind: FrameKind,
    pub payload: ReplyPayload,
}

pub open spec fn error_kind_of(k: RuntimeErrorKind) -> ErrorKind {
    match k {
        RuntimeErrorKind::ToolMissing => ErrorKind::ToolMissing,
        RuntimeErrorKind::CommandFailed => ErrorKind::CommandFailed,
        RuntimeErrorKind::Decode => ErrorKind::Decode,
    }
}

pub open spec fn rejection_kind(e: DispatchError) -> ErrorKind {
    match e {
        DispatchError::UnknownCommand => ErrorKind::UnknownCommand,
        DispatchError::BadRequest => ErrorKind::BadRequest,
    }
}

/// The payload that reports a successful outcome.
pub open spec fn outcome_payload(o: Outcome) -> ReplyPayload {
    match o {
        Outcome::Done => ReplyPayload::Empty,
        Outcome::Created(id) => ReplyPayload::ContainerId(id),
        Outcome::Output(s) => ReplyPayload::Stdout(s),
        Outcome::Listed(v) => ReplyPayload::Items(v),
    }
}

/// The reply to the request `id`, a command of kind `k`, given what came of
/// it: the error kind and text of a failure, the outcome of a success; a
/// ping is answered with `pong`.
pub fn reply(id: String, k: CommandKind, result: Result<Outcome, RuntimeError>) -> (r: OutFrame)
    ensures
        r.id == id,
        result matches Err(e) ==> r.kind == FrameKind::Error && r.payload == (ReplyPayload::Failure {
            kind: error_kind_of(e.kind),
            text: e.text,
        }),
        result matches Ok(o) ==> r.kind == (if k == CommandKind::Ping {
            FrameKind::Pong
        } else {
            FrameKind::Reply
        }) && r.payload == outcome_payload(o),
{
    match result {
        Err(e) => {
            let kind = match e.kind {
                RuntimeErrorKind::ToolMissing => ErrorKind::ToolMissing,
                RuntimeErrorKind::CommandFailed => ErrorKind::CommandFailed,
                RuntimeErrorKind::Decode => ErrorKind::Decode,
            };
            OutFrame {
                id,
                kind: FrameKind::Error,
                payload: ReplyPayload::Failure { kind, text: e.text },
            }
        },
        Ok(o) => {
            let payload = match o {
                Outcome::Done => ReplyPayload::Empty,
                Outcome::Created(c) => ReplyPayload::ContainerId(c),
                Outcome::Output(s) => ReplyPayload::Stdout(s),
                Outcome::Listed(v) => ReplyPayload::Items(v),
            };
            let kind = match k {
                CommandKind::Ping => FrameKind::Pong,
                _ => FrameKind::Reply,
            };
            OutFrame { id, kind, payload }
        },
    }
}

/// The `error` reply to a request refused before any work was done.
pub fn rejection(id: String, e: DispatchError) -> (r: OutFrame)
    ensures
        r.id == id,
        r.kind == FrameKind::Error,
        r.payload matches ReplyPayload::Failure { kind, text } && kind == rejection_kind(e)
            && text@.len() == 0,
{
    let kind = match e {
        DispatchError::UnknownCommand => ErrorKind::UnknownCommand,
        DispatchError::BadRequest => ErrorKind::BadRequest,
    };
    OutFrame { id, kind: FrameKind::Error, payload: ReplyPayload::Failure { kind, text: String::new() } }
}

/// The correlation ids of requests that still owe their reply. A request
/// is recorded when it arrives; its reply is released once; a channel reset
/// forgets every debt, since the backend reissues what was in flight.
pub struct Correlator {
    pending: Vec<String>,
}

impl Correlator {
    /// How many replies each correlation id is owed.
    pub closed spec fn owed(&self) -> Multiset<Seq<char>> {
        texts(self.pending@).to_multiset()
    }

    pub fn new() -> (r: Self)
        ensures
            r.owed() == Multiset::<Seq<char>>::empty(),
    {
        let r = Correlator { pending: Vec::new() };
        proof {
            lemma_nothing_owed(texts(r.pending@));
        }
        r
    }

    /// Records a request that needs a reply.
    pub fn expect_reply(&mut self, id: String)
        ensures
            final(self).owed() == old(self).owed().insert(id@),
    {
        let ghost before = texts(self.pending@);
        self.pending.push(id);
        assert(texts(self.pending@) =~= before.push(id@));
        proof {
            vstd::seq_lib::to_multiset_build(before, id@);
        }
    }

    /// Releases `frame` when its id is owed a reply, settling that debt;
    /// withholds it otherwise.
    pub fn settle(&mut self, frame: OutFrame) -> (r: Option<OutFrame>)
        ensures
            old(self).owed().count(frame.id@) > 0 ==> r == Some(frame) && final(self).owed() == old(
                self,
            ).owed().remove(frame.id@),
            old(self).owed().count(frame.id@) == 0 ==> r is None && final(self).owed() == old(
                self,
            ).owed(),
    {
        let ghost all = texts(self.pending@);
        assert(all == texts(old(self).pending@));
        assert(old(self).owed() == all.to_multiset());
        proof {
            vstd::seq_lib::to_multiset_contains(all, frame.id@);
        }
        let mut i: usize = 0;
        while i < self.pending.len()
            invariant
                i <= self.pending@.len(),
                all == texts(self.pending@),
                old(self).owed() == all.to_multiset(),
                old(self).owed().count(frame.id@) > 0 <==> all.contains(frame.id@),
                forall|j: int| 0 <= j < i ==> all[j] != frame.id@,
            decreases self.pending.len() - i,
        {
            if self.pending[i] == frame.id {
                assert(all[i as int] == frame.id@);
                assert(all.contains(frame.id@));
                self.pending.remove(i);
                assert(texts(self.pending@) =~= all.remove(i as int));
                proof {
                    vstd::seq_lib::to_multiset_remove(all, i as int);
                }
                return Some(frame);
            }
            i = i + 1;
        }
        assert(!all.contains(frame.id@));
        None
    }

    /// Forgets every debt: the channel was reset.
    pub fn reset(&mut self)
        ensures
            final(self).owed() == Multiset::<Seq<char>>::empty(),
    {
        self.pending = Vec::new();
        proof {
            lemma_nothing_owed(texts(self.pending@));
        }
    }
}

proof fn lemma_nothing_owed(e: Seq<Seq<char>>)
    requires
        e.len() == 0,
    ensures
        e.to_multiset() == Multiset::<Seq<char>>::empty(),
{
    vstd::seq_lib::to_multiset_len(e);
    vstd::multiset::lemma_multiset_empty_len(e.to_multiset());
}

/// A request recorded under an id that owed nothing has exactly one reply
/// released: the first reply settles it and leaves the debts as they were,
/// so a second reply under that id is withheld.
pub proof fn lemma_one_reply_per_request(owed: Multiset<Seq<char>>, id: Seq<char>)
    requires
        owed.count(id) == 0,
    ensures
        owed.insert(id).count(id) == 1,
        owed.insert(id).remove(id) == owed,
        owed.insert(id).remove(id).count(id) == 0,
{
    assert(owed.insert(id).remove(id) =~= owed);
}

} // verus!
