//! The runtime adapter: the argument lists handed to the container tool for
//! each lifecycle operation, and the readers that turn its exit status and
//! output into typed results.

use vstd::prelude::*;
use vstd::string::*;

use crate::bytes::{byte_views, content_lines, split_content_lines, trim, trim_bytes};
use crate::text::{decimal, decimal_string, join2, join3, text_is};

verus! {

/// The views of a sequence of strings.
pub open spec fn texts(v: Seq<String>) -> Seq<Seq<char>> {
    v.map_values(|s: String| s@)
}

/// What `String::from_utf8_lossy` makes of a byte sequence.
pub uninterp spec fn lossy_utf8(b: Seq<u8>) -> Seq<char>;

/// Relies on `String::from_utf8_lossy`: the text depends on the bytes alone,
/// and no bytes give no text.
#[verifier::external_body]
fn utf8_text(b: &[u8]) -> (r: String)
    ensures
        r@ == lossy_utf8(b@),
        b@.len() == 0 ==> r@.len() == 0,
{
    String::from_utf8_lossy(b).into_owned()
}

/// The three ways an operation on the container tool can fail.
#[derive(Clone, Copy, Debug, PartialEq, Eq, Structural)]
pub enum RuntimeErrorKind {
    /// The container tool could not be found.
    ToolMissing,
    /// The tool ran and reported failure; the text is its stderr.
    CommandFailed,
    /// The tool's output could not be decoded.
    Decode,
}

/// A failed operation on the container tool.
#[derive(Clone, Debug)]
pub struct RuntimeError {
    pub kind: RuntimeErrorKind,
    pub text: String,
}

/// The exit status and captured output of one run of the container tool.
#[derive(Clone, Debug)]
pub struct CliOutput {
    pub success: bool,
    pub stdout: Vec<u8>,
    pub stderr: Vec<u8>,
}

/// What came of trying to run the container tool.
#[derive(Clone, Debug)]
pub enum CliOutcome {
    /// The tool's binary was not found.
    Missing,
    /// The tool could not be started for another reason, described here.
    SpawnFailed(String),
    /// The tool ran to completion.
    Finished(CliOutput),
}

/// One container as listed by the container tool.
#[derive(Clone, Debug)]
pub struct ContainerInfo {
    pub id: String,
    pub names: String,
    pub status: String,
    pub command: String,
    pub image: String,
}

/// One resource sample of a container, as the container tool reports it.
#[derive(Clone, Debug)]
pub struct ContainerStats {
    pub container_id: String,
    pub container_name: String,
    pub cpu_percent: String,
    pub memory_usage: String,
    pub net_io: String,
    pub block_io: String,
}

/// The input to `create`: everything a new container is made from.
#[derive(Clone, Debug)]
pub struct ContainerSpec {
    /// Host-scoped unique identifier, also used as the container's name.
    pub container_id: String,
    pub image: String,
    /// Run through `sh -c` when not empty.
    pub startup_command: String,
    /// Environment pairs, in the order they are passed.
    pub env: Vec<(String, String)>,
    pub memory_mb: u64,
    pub cpu_cores: u64,
    /// Absolute host path mounted at `/data`.
    pub data_dir: String,
    pub port: u16,
    /// `None` or `"bridge"` for the default bridge, `"host"`, or a named network.
    pub network_mode: Option<String>,
}

/// The views of a sequence of string pairs.
pub open spec fn pair_texts(v: Seq<(String, String)>) -> Seq<(Seq<char>, Seq<char>)> {
    v.map_values(|x: (String, String)| (x.0@, x.1@))
}

/// No key appears twice: the pairs form a mapping.
pub open spec fn unique_keys(m: Seq<(Seq<char>, Seq<char>)>) -> bool {
    forall|i: int, j: int| 0 <= i < j < m.len() ==> m[i].0 != m[j].0
}

impl ContainerSpec {
    /// The environment is a mapping: each variable is set once.
    pub open spec fn wf(&self) -> bool {
        unique_keys(pair_texts(self.env@))
    }
}

/// Whether no environment key appears twice.
pub fn env_keys_unique(env: &Vec<(String, String)>) -> (r: bool)
    ensures
        r == unique_keys(pair_texts(env@)),
{
    let ghost m = pair_texts(env@);
    let mut j: usize = 0;
    while j < env.len()
        invariant
            j <= env@.len(),
            m == pair_texts(env@),
            forall|a: int, b: int| 0 <= a < b < j ==> m[a].0 != m[b].0,
        decreases env.len() - j,
    {
        let mut i: usize = 0;
        while i < j
            invariant
                i <= j < env@.len(),
                m == pair_texts(env@),
                forall|a: int, b: int| 0 <= a < b < j ==> m[a].0 != m[b].0,
                forall|a: int| 0 <= a < i ==> m[a].0 != m[j as int].0,
            decreases j - i,
        {
            if env[i].0 == env[j].0 {
                assert(m[i as int].0 == m[j as int].0);
                return false;
            }
            i = i + 1;
        }
        j = j + 1;
    }
    true
}

/// The container tool, addressed through one namespace.
#[derive(Clone, Debug)]
pub struct ContainerdRuntime {
    socket_path: String,
    namespace: String,
}

/// Whether the tool ran and exited successfully.
pub open spec fn succeeded(o: CliOutcome) -> bool {
    o is Finished && o->Finished_0.success
}

/// The error kind that an unsuccessful outcome is reported with.
pub open spec fn failure_kind(o: CliOutcome) -> RuntimeErrorKind {
    match o {
        CliOutcome::Missing => RuntimeErrorKind::ToolMissing,
        _ => RuntimeErrorKind::CommandFailed,
    }
}

/// The error text that an unsuccessful outcome is reported with: stderr for a
/// failed run, the spawn error's description, nothing for a missing tool.
pub open spec fn failure_text(o: CliOutcome) -> Seq<char> {
    match o {
        CliOutcome::Missing => Seq::empty(),
        CliOutcome::SpawnFailed(msg) => msg@,
        CliOutcome::Finished(out) => lossy_utf8(out.stderr@),
    }
}

/// Holds exactly when `r` is the error that reports the unsuccessful outcome `o`.
pub open spec fn reports_failure(o: CliOutcome, e: RuntimeError) -> bool {
    e.kind == failure_kind(o) && e.text@ == failure_text(o)
}

/// The first three arguments of every invocation: the namespace and the verb.
pub open spec fn base_args(ns: Seq<char>, verb: Seq<char>) -> Seq<Seq<char>> {
    seq!["--namespace"@, ns, verb]
}

/// Whether the network mode asks for the host's network.
pub open spec fn uses_host_network(mode: Option<String>) -> bool {
    mode is Some && mode->0@ == "host"@
}

/// The network flag: none for the default bridge, else `--network <mode>`.
pub open spec fn network_args(mode: Option<String>) -> Seq<Seq<char>> {
    match mode {
        Some(m) => if m@ == "bridge"@ {
            seq![]
        } else {
            seq!["--network"@, m@]
        },
        None => seq![],
    }
}

/// The port mapping `0.0.0.0:p:p`, left out on the host network.
pub open spec fn port_args(mode: Option<String>, port: u16) -> Seq<Seq<char>> {
    if uses_host_network(mode) {
        seq![]
    } else {
        seq!["-p"@, "0.0.0.0:"@ + decimal(port as nat) + ":"@ + decimal(port as nat)]
    }
}

/// One `-e key=value` pair of arguments per environment entry, in order.
pub open spec fn env_args(env: Seq<(String, String)>) -> Seq<Seq<char>>
    decreases env.len(),
{
    if env.len() == 0 {
        seq![]
    } else {
        env_args(env.drop_last()) + seq!["-e"@, env.last().0@ + "="@ + env.last().1@]
    }
}

/// `sh -c <command>` when a startup command is given, else nothing.
pub open spec fn startup_args(command: Seq<char>) -> Seq<Seq<char>> {
    if command.len() == 0 {
        seq![]
    } else {
        seq!["sh"@, "-c"@, command]
    }
}

/// The resource, mount and working-directory flags of `create`.
pub open spec fn resource_args(spec: ContainerSpec) -> Seq<Seq<char>> {
    seq![
        "--memory="@ + decimal(spec.memory_mb as nat) + "m"@,
        "--cpus"@,
        decimal(spec.cpu_cores as nat),
        "-v"@,
        spec.data_dir@ + ":/data"@,
        "-w"@,
        "/data"@,
    ]
}

/// The full argument list of `create` in namespace `ns`.
pub open spec fn create_args_of(ns: Seq<char>, spec: ContainerSpec) -> Seq<Seq<char>> {
    base_args(ns, "run"@) + resource_args(spec) + network_args(spec.network_mode) + port_args(
        spec.network_mode,
        spec.port,
    ) + env_args(spec.env@) + seq!["--name"@, spec.container_id@, "-d"@, spec.image@]
        + startup_args(spec.startup_command@)
}

/// The inspect template that prints each network's IP address.
pub open spec fn ip_template() -> Seq<char> {
    "{{range .NetworkSettings.Networks}}{{.IPAddress}}{{end}}"@
}

fn push_text(args: &mut Vec<String>, s: String)
    ensures
        texts(final(args)@) == texts(old(args)@).push(s@),
{
    args.push(s);
    assert(texts(final(args)@) =~= texts(old(args)@).push(s@));
}

fn push_str(args: &mut Vec<String>, s: &str)
    ensures
        texts(final(args)@) == texts(old(args)@).push(s@),
{
    push_text(args, String::from_str(s));
}

fn push_resources(args: &mut Vec<String>, spec: &ContainerSpec)
    ensures
        texts(final(args)@) == texts(old(args)@) + resource_args(*spec),
{
    let ghost before = texts(args@);
    let mut memory = String::from_str("--memory=");
    memory.append(decimal_string(spec.memory_mb).as_str());
    memory.append("m");
    push_text(args, memory);
    push_str(args, "--cpus");
    push_text(args, decimal_string(spec.cpu_cores));
    push_str(args, "-v");
    push_text(args, join2(spec.data_dir.as_str(), ":/data"));
    push_str(args, "-w");
    push_str(args, "/data");
    assert(texts(args@) =~= before + resource_args(*spec));
}

fn push_network(args: &mut Vec<String>, mode: &Option<String>, port: u16)
    ensures
        texts(final(args)@) == texts(old(args)@) + network_args(*mode) + port_args(*mode, port),
{
    let ghost before = texts(args@);
    let mut host = false;
    match mode {
        Some(m) => {
            host = text_is(m, "host");
            if !text_is(m, "bridge") {
                push_str(args, "--network");
                push_text(args, m.clone());
            }
        },
        None => {},
    }
    assert(host == uses_host_network(*mode));
    assert(texts(args@) =~= before + network_args(*mode));
    let ghost mid = texts(args@);
    if !host {
        push_str(args, "-p");
        let p = decimal_string(port as u64);
        let mut mapping = join3("0.0.0.0:", p.as_str(), ":");
        mapping.append(p.as_str());
        push_text(args, mapping);
    }
    assert(texts(args@) =~= mid + port_args(*mode, port));
}

fn push_env(args: &mut Vec<String>, env: &Vec<(String, String)>)
    ensures
        texts(final(args)@) == texts(old(args)@) + env_args(env@),
{
    let ghost before = texts(args@);
    let mut i: usize = 0;
    assert(env@.take(0) =~= Seq::<(String, String)>::empty());
    assert(before + env_args(Seq::<(String, String)>::empty()) =~= before);
    while i < env.len()
        invariant
            i <= env@.len(),
            texts(args@) == before + env_args(env@.take(i as int)),
        decreases env.len() - i,
    {
        push_str(args, "-e");
        push_text(args, join3(env[i].0.as_str(), "=", env[i].1.as_str()));
        assert(env@.take(i as int + 1).drop_last() =~= env@.take(i as int));
        assert(texts(args@) =~= before + env_args(env@.take(i as int + 1)));
        i = i + 1;
    }
    assert(env@.take(i as int) =~= env@);
}

fn push_identity(args: &mut Vec<String>, spec: &ContainerSpec)
    ensures
        texts(final(args)@) == texts(old(args)@) + seq![
            "--name"@,
            spec.container_id@,
            "-d"@,
            spec.image@,
        ] + startup_args(spec.startup_command@),
{
    let ghost before = texts(args@);
    push_str(args, "--name");
    push_text(args, spec.container_id.clone());
    push_str(args, "-d");
    push_text(args, spec.image.clone());
    if spec.startup_command.as_str().unicode_len() > 0 {
        push_str(args, "sh");
        push_str(args, "-c");
        push_text(args, spec.startup_command.clone());
    }
    assert(texts(args@) =~= before + seq!["--name"@, spec.container_id@, "-d"@, spec.image@]
        + startup_args(spec.startup_command@));
}

impl ContainerdRuntime {
    /// The namespace every invocation names.
    pub closed spec fn ns(&self) -> Seq<char> {
        self.namespace@
    }

    /// The container tool's socket path.
    pub closed spec fn socket(&self) -> Seq<char> {
        self.socket_path@
    }

    pub fn new(socket_path: String, namespace: String) -> (r: Self)
        ensures
            r.socket() == socket_path@,
            r.ns() == namespace@,
    {
        ContainerdRuntime { socket_path, namespace }
    }

    /// The namespace every invocation names.
    pub fn namespace(&self) -> (r: &String)
        ensures
            r@ == self.ns(),
    {
        &self.namespace
    }

    /// The container tool's socket path.
    pub fn socket_path(&self) -> (r: &String)
        ensures
            r@ == self.socket(),
    {
        &self.socket_path
    }

    fn base(&self, verb: &str) -> (r: Vec<String>)
        ensures
            texts(r@) == base_args(self.ns(), verb@),
    {
        let mut args: Vec<String> = Vec::new();
        push_str(&mut args, "--namespace");
        push_text(&mut args, self.namespace.clone());
        push_str(&mut args, verb);
        assert(texts(args@) =~= base_args(self.ns(), verb@));
        args
    }

    /// The arguments that create and start a container from `spec`, detached.
    pub fn create_args(&self, spec: &ContainerSpec) -> (r: Vec<String>)
        requires
            spec.wf(),
        ensures
            texts(r@) == create_args_of(self.ns(), *spec),
    {
        let mut args = self.base("run");
        push_resources(&mut args, spec);
        push_network(&mut args, &spec.network_mode, spec.port);
        push_env(&mut args, &spec.env);
        push_identity(&mut args, spec);
        args
    }

    /// `start <id>`.
    pub fn start_args(&self, id: &String) -> (r: Vec<String>)
        ensures
            texts(r@) == base_args(self.ns(), "start"@) + seq![id@],
    {
        let mut args = self.base("start");
        let ghost b = texts(args@);
        push_text(&mut args, id.clone());
        assert(texts(args@) =~= b + seq![id@]);
        args
    }

    /// `stop -t <grace> <id>`.
    pub fn stop_args(&self, id: &String, timeout_secs: u64) -> (r: Vec<String>)
        ensures
            texts(r@) == base_args(self.ns(), "stop"@) + seq![
                "-t"@,
                decimal(timeout_secs as nat),
                id@,
            ],
    {
        let mut args = self.base("stop");
        let ghost b = texts(args@);
        push_str(&mut args, "-t");
        push_text(&mut args, decimal_string(timeout_secs));
        push_text(&mut args, id.clone());
        assert(texts(args@) =~= b + seq!["-t"@, decimal(timeout_secs as nat), id@]);
        args
    }

    /// `kill -s <signal> <id>`.
    pub fn kill_args(&self, id: &String, signal: &String) -> (r: Vec<String>)
        ensures
            texts(r@) == base_args(self.ns(), "kill"@) + seq!["-s"@, signal@, id@],
    {
        let mut args = self.base("kill");
        let ghost b = texts(args@);
        push_str(&mut args, "-s");
        push_text(&mut args, signal.clone());
        push_text(&mut args, id.clone());
        assert(texts(args@) =~= b + seq!["-s"@, signal@, id@]);
        args
    }

    /// `rm -f <id>`.
    pub fn remove_args(&self, id: &String) -> (r: Vec<String>)
        ensures
            texts(r@) == base_args(self.ns(), "rm"@) + seq!["-f"@, id@],
    {
        let mut args = self.base("rm");
        let ghost b = texts(args@);
        push_str(&mut args, "-f");
        push_text(&mut args, id.clone());
        assert(texts(args@) =~= b + seq!["-f"@, id@]);
        args
    }

    /// `logs [--tail <n>] <id>`.
    pub fn logs_args(&self, id: &String, lines: Option<u32>) -> (r: Vec<String>)
        ensures
            texts(r@) == base_args(self.ns(), "logs"@) + match lines {
                Some(n) => seq!["--tail"@, decimal(n as nat)],
                None => seq![],
            } + seq![id@],
    {
        let mut args = self.base("logs");
        let ghost b = texts(args@);
        match lines {
            Some(n) => {
                push_str(&mut args, "--tail");
                push_text(&mut args, decimal_string(n as u64));
            },
            None => {},
        }
        push_text(&mut args, id.clone());
        assert(texts(args@) =~= b + match lines {
            Some(n) => seq!["--tail"@, decimal(n as nat)],
            None => seq![],
        } + seq![id@]);
        args
    }

    /// `logs -f <id>`: follow a container's output.
    pub fn stream_logs_args(&self, id: &String) -> (r: Vec<String>)
        ensures
            texts(r@) == base_args(self.ns(), "logs"@) + seq!["-f"@, id@],
    {
        let mut args = self.base("logs");
        let ghost b = texts(args@);
        push_str(&mut args, "-f");
        push_text(&mut args, id.clone());
        assert(texts(args@) =~= b + seq!["-f"@, id@]);
        args
    }

    /// `logs --follow --timestamps <id>`: the log follower's invocation.
    pub fn follow_args(&self, id: &String) -> (r: Vec<String>)
        ensures
            texts(r@) == base_args(self.ns(), "logs"@) + seq![
                "--follow"@,
                "--timestamps"@,
                id@,
            ],
    {
        let mut args = self.base("logs");
        let ghost b = texts(args@);
        push_str(&mut args, "--follow");
        push_str(&mut args, "--timestamps");
        push_text(&mut args, id.clone());
        assert(texts(args@) =~= b + seq!["--follow"@, "--timestamps"@, id@]);
        args
    }

    /// `ps -a --format json`.
    pub fn list_args(&self) -> (r: Vec<String>)
        ensures
            texts(r@) == base_args(self.ns(), "ps"@) + seq!["-a"@, "--format"@, "json"@],
    {
        let mut args = self.base("ps");
        let ghost b = texts(args@);
        push_str(&mut args, "-a");
        push_str(&mut args, "--format");
        push_str(&mut args, "json");
        assert(texts(args@) =~= b + seq!["-a"@, "--format"@, "json"@]);
        args
    }

    /// `stats --no-stream --format json <id>`.
    pub fn stats_args(&self, id: &String) -> (r: Vec<String>)
        ensures
            texts(r@) == base_args(self.ns(), "stats"@) + seq![
                "--no-stream"@,
                "--format"@,
                "json"@,
                id@,
            ],
    {
        let mut args = self.base("stats");
        let ghost b = texts(args@);
        push_str(&mut args, "--no-stream");
        push_str(&mut args, "--format");
        push_str(&mut args, "json");
        push_text(&mut args, id.clone());
        assert(texts(args@) =~= b + seq!["--no-stream"@, "--format"@, "json"@, id@]);
        args
    }

    /// `exec <id> <argv...>`.
    pub fn exec_args(&self, id: &String, command: &Vec<String>) -> (r: Vec<String>)
        ensures
            texts(r@) == base_args(self.ns(), "exec"@) + seq![id@] + texts(command@),
    {
        let mut args = self.base("exec");
        push_text(&mut args, id.clone());
        let ghost b = texts(args@);
        let mut i: usize = 0;
        while i < command.len()
            invariant
                i <= command@.len(),
                texts(args@) == b + texts(command@.take(i as int)),
            decreases command.len() - i,
        {
            push_text(&mut args, command[i].clone());
            assert(texts(args@) =~= b + texts(command@.take(i as int + 1)));
            i = i + 1;
        }
        assert(command@.take(i as int) =~= command@);
        args
    }

    /// `inspect <id> --format <template>`, printing the container's IP addresses.
    pub fn ip_args(&self, id: &String) -> (r: Vec<String>)
        ensures
            texts(r@) == base_args(self.ns(), "inspect"@) + seq![id@, "--format"@, ip_template()],
    {
        let mut args = self.base("inspect");
        let ghost b = texts(args@);
        push_text(&mut args, id.clone());
        push_str(&mut args, "--format");
        push_str(&mut args, "{{range .NetworkSettings.Networks}}{{.IPAddress}}{{end}}");
        assert(texts(args@) =~= b + seq![id@, "--format"@, ip_template()]);
        args
    }

    /// `inspect <id>`, which succeeds exactly when the container exists.
    pub fn exists_args(&self, id: &String) -> (r: Vec<String>)
        ensures
            texts(r@) == base_args(self.ns(), "inspect"@) + seq![id@],
    {
        let mut args = self.base("inspect");
        let ghost b = texts(args@);
        push_text(&mut args, id.clone());
        assert(texts(args@) =~= b + seq![id@]);
        args
    }
}

/// The error that reports an outcome other than a successful run.
pub fn failure(o: &CliOutcome) -> (e: RuntimeError)
    requires
        !succeeded(*o),
    ensures
        reports_failure(*o, e),
{
    match o {
        CliOutcome::Missing => RuntimeError { kind: RuntimeErrorKind::ToolMissing, text: String::new() },
        CliOutcome::SpawnFailed(msg) => RuntimeError {
            kind: RuntimeErrorKind::CommandFailed,
            text: msg.clone(),
        },
        CliOutcome::Finished(out) => RuntimeError {
            kind: RuntimeErrorKind::CommandFailed,
            text: utf8_text(out.stderr.as_slice()),
        },
    }
}

/// Success of an operation that returns nothing (start, stop, kill, remove).
pub fn check_status(o: &CliOutcome) -> (r: Result<(), RuntimeError>)
    ensures
        r is Ok <==> succeeded(*o),
        r matches Err(e) ==> reports_failure(*o, e),
{
    match o {
        CliOutcome::Finished(out) => if out.success {
            return Ok(());
        },
        _ => {},
    }
    Err(failure(o))
}

/// The full id that `create` prints: its stdout without surrounding whitespace.
pub fn read_created_id(o: &CliOutcome) -> (r: Result<String, RuntimeError>)
    ensures
        r is Ok <==> succeeded(*o),
        r matches Ok(id) ==> id@ == lossy_utf8(trim(o->Finished_0.stdout@)),
        r matches Ok(id) ==> (trim(o->Finished_0.stdout@).len() == 0 ==> id@.len() == 0),
        r matches Err(e) ==> reports_failure(*o, e),
{
    match o {
        CliOutcome::Finished(out) => if out.success {
            let t = trim_bytes(out.stdout.as_slice());
            return Ok(utf8_text(t.as_slice()));
        },
        _ => {},
    }
    Err(failure(o))
}

/// The container's IP as the inspect template prints it, without surrounding
/// whitespace; empty when the container has no address.
pub fn read_ip(o: &CliOutcome) -> (r: Result<String, RuntimeError>)
    ensures
        r is Ok <==> succeeded(*o),
        r matches Ok(ip) ==> ip@ == lossy_utf8(trim(o->Finished_0.stdout@)),
        r matches Ok(ip) ==> (trim(o->Finished_0.stdout@).len() == 0 ==> ip@.len() == 0),
        r matches Err(e) ==> reports_failure(*o, e),
{
    read_created_id(o)
}

/// The whole stdout as text (logs, exec).
pub fn read_text(o: &CliOutcome) -> (r: Result<String, RuntimeError>)
    ensures
        r is Ok <==> succeeded(*o),
        r matches Ok(t) ==> t@ == lossy_utf8(o->Finished_0.stdout@),
        r matches Err(e) ==> reports_failure(*o, e),
{
    match o {
        CliOutcome::Finished(out) => if out.success {
            return Ok(utf8_text(out.stdout.as_slice()));
        },
        _ => {},
    }
    Err(failure(o))
}

/// Whether the inspected container exists.
pub fn read_exists(o: &CliOutcome) -> (r: bool)
    ensures
        r == succeeded(*o),
{
    match o {
        CliOutcome::Finished(out) => out.success,
        _ => false,
    }
}

/// The records of `ps --format json`: one JSON document per non-blank line.
pub fn read_list_records(o: &CliOutcome) -> (r: Result<Vec<Vec<u8>>, RuntimeError>)
    ensures
        r is Ok <==> succeeded(*o),
        r matches Ok(v) ==> byte_views(v@) == content_lines(o->Finished_0.stdout@),
        r matches Err(e) ==> reports_failure(*o, e),
{
    match o {
        CliOutcome::Finished(out) => if out.success {
            return Ok(split_content_lines(out.stdout.as_slice()));
        },
        _ => {},
    }
    Err(failure(o))
}

/// The record of `stats --format json`: its first non-blank line.
pub fn read_stats_record(o: &CliOutcome) -> (r: Result<Vec<u8>, RuntimeError>)
    ensures
        r is Ok <==> succeeded(*o) && content_lines(o->Finished_0.stdout@).len() > 0,
        r matches Ok(v) ==> v@ == content_lines(o->Finished_0.stdout@)[0],
        r matches Err(e) ==> if succeeded(*o) {
            e.kind == RuntimeErrorKind::Decode
        } else {
            reports_failure(*o, e)
        },
{
    match o {
        CliOutcome::Finished(out) => if out.success {
            let mut lines = split_content_lines(out.stdout.as_slice());
            if lines.len() == 0 {
                return Err(decode_error());
            }
            let ghost all = byte_views(lines@);
            let first = lines.remove(0);
            assert(first@ == all[0]);
            return Ok(first);
        },
        _ => {},
    }
    Err(failure(o))
}

/// The error for output that is not the JSON the tool promises.
pub fn decode_error() -> (e: RuntimeError)
    ensures
        e.kind == RuntimeErrorKind::Decode,
{
    RuntimeError { kind: RuntimeErrorKind::Decode, text: String::from_str("malformed JSON from the container tool") }
}

/// The list result from its decoded records: every record, in order, or a
/// decode error when any of them did not decode.
pub fn collect_containers(decoded: Vec<Option<ContainerInfo>>) -> (r: Result<
    Vec<ContainerInfo>,
    RuntimeError,
>)
    ensures
        r is Ok <==> forall|i: int| 0 <= i < decoded@.len() ==> (#[trigger] decoded@[i]) is Some,
        r matches Ok(v) ==> v@.len() == decoded@.len() && forall|i: int|
            0 <= i < v@.len() ==> decoded@[i] == Some(#[trigger] v@[i]),
        r matches Err(e) ==> e.kind == RuntimeErrorKind::Decode,
{
    let mut out: Vec<ContainerInfo> = Vec::new();
    let mut rest = decoded;
    while rest.len() > 0
        invariant
            out@.len() + rest@.len() == decoded@.len(),
            forall|j: int| 0 <= j < out@.len() ==> decoded@[j] == Some(#[trigger] out@[j]),
            forall|j: int| 0 <= j < rest@.len() ==> #[trigger] rest@[j] == decoded@[out@.len() + j],
        decreases rest.len(),
    {
        let ghost at = out@.len();
        match rest.remove(0) {
            Some(c) => out.push(c),
            None => {
                assert(decoded@[at as int] is None);
                return Err(decode_error());
            },
        }
    }
    assert forall|i: int| 0 <= i < decoded@.len() implies (#[trigger] decoded@[i]) is Some by {
        assert(decoded@[i] == Some(out@[i]));
    }
    Ok(out)
}

/// The firewall rule that opens TCP `port` towards `ip`.
pub open spec fn firewall_args_of(port: u16, ip: Seq<char>) -> Seq<Seq<char>> {
    seq![
        "allow"@,
        "proto"@,
        "tcp"@,
        "from"@,
        "any"@,
        "to"@,
        ip,
        "port"@,
        decimal(port as nat),
    ]
}

/// The arguments of the firewall tool that open TCP `port` towards `ip`.
/// The same pair always gives the same rule, which the tool adds only once.
pub fn firewall_args(port: u16, ip: &String) -> (r: Vec<String>)
    ensures
        texts(r@) == firewall_args_of(port, ip@),
{
    let mut args: Vec<String> = Vec::new();
    push_str(&mut args, "allow");
    push_str(&mut args, "proto");
    push_str(&mut args, "tcp");
    push_str(&mut args, "from");
    push_str(&mut args, "any");
    push_str(&mut args, "to");
    push_text(&mut args, ip.clone());
    push_str(&mut args, "port");
    push_text(&mut args, decimal_string(port as u64));
    assert(texts(args@) =~= firewall_args_of(port, ip@));
    args
}

/// Whether a listed container is running: its status starts with `Up`.
pub open spec fn running(c: ContainerInfo) -> bool {
    c.status@.len() >= 2 && c.status@[0] == 'U' && c.status@[1] == 'p'
}

/// Whether a listed container is running, so that it is sampled.
pub fn is_running(c: &ContainerInfo) -> (r: bool)
    ensures
        r == running(*c),
{
    let s = c.status.as_str();
    s.unicode_len() >= 2 && s.get_char(0) == 'U' && s.get_char(1) == 'p'
}

/// The address the firewall is opened for: the container's IP, or
/// `0.0.0.0` when it could not be read.
pub fn firewall_ip(ip: &Result<String, RuntimeError>) -> (r: String)
    ensures
        r@ == match ip {
            Ok(a) => a@,
            Err(_) => "0.0.0.0"@,
        },
{
    match ip {
        Ok(a) => a.clone(),
        Err(_) => String::from_str("0.0.0.0"),
    }
}

} // verus!
