//! The boot-time host provisioner as a step machine: each stage names one
//! action (probe for a binary, run a command, write a file, ...) and the
//! caller reports whether it succeeded, which decides the next stage.

use vstd::prelude::*;

use crate::bytes::trim;
use crate::runtime::{
    failure, failure_text, lossy_utf8, read_created_id, read_exists, succeeded, texts, CliOutcome,
};
use crate::text::join3;

verus! {

/// The package managers that are probed, in this order.
#[derive(Clone, Copy, Debug, PartialEq, Eq, Structural)]
pub enum PackageManager {
    Apt,
    Yum,
    Dnf,
    Pacman,
    Zypper,
}

/// Why provisioning stopped. None of these is fatal to the agent.
#[derive(Clone, Copy, Debug, PartialEq, Eq, Structural)]
pub enum ProvisionError {
    NoPackageManager,
    UnsupportedPackageManager,
    CommandFailed,
    NoInterface,
    DhcpNotStarted,
}

#[derive(Clone, Copy, Debug, PartialEq, Eq, Structural)]
pub enum Stage {
    /// Probing for the package manager at this position.
    ProbeManager(u8),
    CheckCli(PackageManager),
    /// Running this step of the runtime install.
    InstallRuntime(PackageManager, u8),
    RecheckCli,
    InstallCli,
    EnsureCniDir,
    CheckCniConfig,
    WriteCniConfig,
    CheckDhcp,
    CheckDhcpBinary,
    MakePluginDir,
    InstallPlugins,
    CheckSystemd,
    WriteUnit,
    ReloadSystemd,
    EnableUnit,
    StartUnit,
    LaunchDhcp,
    WaitDhcp,
    VerifyDhcp,
    Done,
    Failed(ProvisionError),
}

/// The shape of a stage's action; whether it can change the host.
#[derive(Clone, Copy, Debug, PartialEq, Eq, Structural)]
pub enum ActionKind {
    Probe,
    Run,
    MakeDir,
    FileExists,
    WriteCniConfig,
    WriteFile,
    ProcessRunning,
    Spawn,
    Sleep,
    Finish,
}

/// A program and its arguments.
#[derive(Clone, Debug)]
pub struct Invocation {
    pub program: String,
    pub args: Vec<String>,
}

/// What the caller is asked to do; each reports one success flag.
#[derive(Debug)]
pub enum Action {
    /// Is this binary on the path?
    Probe(String),
    /// Run to completion; did it exit successfully?
    Run(Invocation),
    /// Create this directory and its parents (a no-op when present).
    MakeDir(String),
    /// Does this file exist?
    FileExists(String),
    /// Detect the primary interface and write the CNI config for it here.
    WriteCniConfig(String),
    /// Write this content to this path.
    WriteFile(String, String),
    /// Is a process whose command line matches this pattern running?
    ProcessRunning(String),
    /// Start detached.
    Spawn(Invocation),
    /// Wait this many milliseconds.
    Sleep(u64),
    /// Provisioning is over.
    Finish(Result<(), ProvisionError>),
}

pub const CNI_DIR: &'static str = "/etc/cni/net.d";
pub const CNI_CONFIG_PATH: &'static str = "/etc/cni/net.d/mc-lan.conflist";
pub const CNI_BIN_DIR: &'static str = "/opt/cni/bin";
pub const DHCP_BINARY: &'static str = "/opt/cni/bin/dhcp";
pub const DHCP_PATTERN: &'static str = "dhcp daemon";
pub const DHCP_UNIT_PATH: &'static str = "/etc/systemd/system/cni-dhcp.service";
pub const CLI_VERSION: &'static str = "1.7.6";
pub const CNI_PLUGINS_VERSION: &'static str = "v1.4.1";
pub const DHCP_START_WAIT_MS: u64 = 2000;

pub open spec fn manager_at(i: nat) -> PackageManager {
    if i == 0 {
        PackageManager::Apt
    } else if i == 1 {
        PackageManager::Yum
    } else if i == 2 {
        PackageManager::Dnf
    } else if i == 3 {
        PackageManager::Pacman
    } else {
        PackageManager::Zypper
    }
}

/// How many commands install the runtime with a package manager.
pub open spec fn install_steps(pm: PackageManager) -> nat {
    match pm {
        PackageManager::Apt => 2,
        PackageManager::Yum | PackageManager::Dnf | PackageManager::Pacman => 1,
        PackageManager::Zypper => 0,
    }
}

/// The first stage of a runtime install with `pm`.
pub open spec fn install_start(pm: PackageManager) -> Stage {
    if install_steps(pm) == 0 {
        Stage::Failed(ProvisionError::UnsupportedPackageManager)
    } else {
        Stage::InstallRuntime(pm, 0)
    }
}

/// The stage that follows `s` when its action reported `ok`.
pub open spec fn advance(s: Stage, ok: bool) -> Stage {
    match s {
        Stage::ProbeManager(i) => if ok {
            Stage::CheckCli(manager_at(i as nat))
        } else if i < 4 {
            Stage::ProbeManager((i + 1) as u8)
        } else {
            Stage::Failed(ProvisionError::NoPackageManager)
        },
        Stage::CheckCli(pm) => if ok {
            Stage::EnsureCniDir
        } else {
            install_start(pm)
        },
        Stage::InstallRuntime(pm, j) => if !ok {
            Stage::Failed(ProvisionError::CommandFailed)
        } else if j + 1 < install_steps(pm) {
            Stage::InstallRuntime(pm, (j + 1) as u8)
        } else {
            Stage::RecheckCli
        },
        Stage::RecheckCli => if ok {
            Stage::EnsureCniDir
        } else {
            Stage::InstallCli
        },
        Stage::InstallCli => if ok {
            Stage::EnsureCniDir
        } else {
            Stage::Failed(ProvisionError::CommandFailed)
        },
        Stage::EnsureCniDir => if ok {
            Stage::CheckCniConfig
        } else {
            Stage::Failed(ProvisionError::CommandFailed)
        },
        Stage::CheckCniConfig => if ok {
            Stage::CheckDhcp
        } else {
            Stage::WriteCniConfig
        },
        Stage::WriteCniConfig => if ok {
            Stage::CheckDhcp
        } else {
            Stage::Failed(ProvisionError::NoInterface)
        },
        Stage::CheckDhcp => if ok {
            Stage::Done
        } else {
            Stage::CheckDhcpBinary
        },
        Stage::CheckDhcpBinary => if ok {
            Stage::CheckSystemd
        } else {
            Stage::MakePluginDir
        },
        Stage::MakePluginDir => if ok {
            Stage::InstallPlugins
        } else {
            Stage::Failed(ProvisionError::CommandFailed)
        },
        Stage::InstallPlugins => if ok {
            Stage::CheckSystemd
        } else {
            Stage::Failed(ProvisionError::CommandFailed)
        },
        Stage::CheckSystemd => if ok {
            Stage::WriteUnit
        } else {
            Stage::LaunchDhcp
        },
        Stage::WriteUnit => if ok {
            Stage::ReloadSystemd
        } else {
            Stage::LaunchDhcp
        },
        Stage::ReloadSystemd => if ok {
            Stage::EnableUnit
        } else {
            Stage::LaunchDhcp
        },
        Stage::EnableUnit => if ok {
            Stage::StartUnit
        } else {
            Stage::LaunchDhcp
        },
        Stage::StartUnit => if ok {
            Stage::Done
        } else {
            Stage::LaunchDhcp
        },
        Stage::LaunchDhcp => if ok {
            Stage::WaitDhcp
        } else {
            Stage::Failed(ProvisionError::CommandFailed)
        },
        Stage::WaitDhcp => Stage::VerifyDhcp,
        Stage::VerifyDhcp => if ok {
            Stage::Done
        } else {
            Stage::Failed(ProvisionError::DhcpNotStarted)
        },
        Stage::Done => Stage::Done,
        Stage::Failed(e) => Stage::Failed(e),
    }
}

/// The shape of the action a stage asks for.
pub open spec fn action_kind_of(s: Stage) -> ActionKind {
    match s {
        Stage::ProbeManager(_) | Stage::CheckCli(_) | Stage::RecheckCli | Stage::CheckSystemd => ActionKind::Probe,
        Stage::InstallRuntime(_, _) | Stage::InstallCli | Stage::InstallPlugins | Stage::ReloadSystemd
        | Stage::EnableUnit | Stage::StartUnit => ActionKind::Run,
        Stage::EnsureCniDir | Stage::MakePluginDir => ActionKind::MakeDir,
        Stage::CheckCniConfig | Stage::CheckDhcpBinary => ActionKind::FileExists,
        Stage::WriteCniConfig => ActionKind::WriteCniConfig,
        Stage::WriteUnit => ActionKind::WriteFile,
        Stage::CheckDhcp | Stage::VerifyDhcp => ActionKind::ProcessRunning,
        Stage::LaunchDhcp => ActionKind::Spawn,
        Stage::WaitDhcp => ActionKind::Sleep,
        Stage::Done | Stage::Failed(_) => ActionKind::Finish,
    }
}

/// Actions that change the host (creating a directory that exists does not).
pub open spec fn mutates(k: ActionKind) -> bool {
    k == ActionKind::Run || k == ActionKind::WriteCniConfig || k == ActionKind::WriteFile || k
        == ActionKind::Spawn
}

/// What a host answers, as far as the provisioner asks.
pub struct HostFacts {
    /// Which package managers are installed, in probe order.
    pub managers: Seq<bool>,
    pub cli_installed: bool,
    pub cni_config_present: bool,
    pub dhcp_running: bool,
    /// The stages whose command, write or launch fails on this host.
    pub failing: Set<Stage>,
}

/// A host on which every step's goal already holds.
pub open spec fn provisioned(h: HostFacts) -> bool {
    &&& h.managers.len() == 5
    &&& exists|i: int| 0 <= i < 5 && h.managers[i]
    &&& h.cli_installed
    &&& h.cni_config_present
    &&& h.dhcp_running
}

/// What the host reports for the action of stage `s`: probes report the
/// host's state, directories can be made, and a command, write or launch
/// succeeds unless the host fails it.
pub open spec fn answer(h: HostFacts, s: Stage) -> bool {
    match s {
        Stage::ProbeManager(i) => h.managers[i as int],
        Stage::CheckCli(_) | Stage::RecheckCli => h.cli_installed,
        Stage::CheckCniConfig => h.cni_config_present,
        Stage::CheckDhcp | Stage::VerifyDhcp => h.dhcp_running,
        _ => !mutates(action_kind_of(s)) || !h.failing.contains(s),
    }
}

/// The host after the action of stage `s` succeeded or failed as `ok` says:
/// installing the tool installs it, writing the config creates it, starting
/// the unit or launching the daemon makes it run.
pub open spec fn effect(h: HostFacts, s: Stage, ok: bool) -> HostFacts {
    if !ok {
        h
    } else {
        match s {
            Stage::InstallCli => HostFacts { cli_installed: true, ..h },
            Stage::WriteCniConfig => HostFacts { cni_config_present: true, ..h },
            Stage::StartUnit | Stage::LaunchDhcp => HostFacts { dhcp_running: true, ..h },
            _ => h,
        }
    }
}

/// The host after stage `s` ran on `h`.
pub open spec fn step_host(h: HostFacts, s: Stage) -> HostFacts {
    effect(h, s, answer(h, s))
}

/// The stages a run visits on host `h`, starting at `s`, for at most `fuel` steps.
pub open spec fn visited(h: HostFacts, s: Stage, fuel: nat) -> Seq<Stage>
    decreases fuel,
{
    if fuel == 0 || action_kind_of(s) == ActionKind::Finish {
        seq![s]
    } else {
        seq![s] + visited(step_host(h, s), advance(s, answer(h, s)), (fuel - 1) as nat)
    }
}

/// The host as such a run leaves it.
pub open spec fn final_host(h: HostFacts, s: Stage, fuel: nat) -> HostFacts
    decreases fuel,
{
    if fuel == 0 || action_kind_of(s) == ActionKind::Finish {
        h
    } else {
        final_host(step_host(h, s), advance(s, answer(h, s)), (fuel - 1) as nat)
    }
}

/// The stage a run starts at.
pub open spec fn first_stage() -> Stage {
    Stage::ProbeManager(0)
}

proof fn lemma_tail(h: HostFacts, fuel: nat)
    requires
        provisioned(h),
        fuel >= 5,
    ensures
        forall|k: int| 0 <= k < visited(h, Stage::EnsureCniDir, fuel).len() ==> !mutates(
            action_kind_of(#[trigger] visited(h, Stage::EnsureCniDir, fuel)[k]),
        ),
        visited(h, Stage::EnsureCniDir, fuel).last() == Stage::Done,
{
    let r3 = visited(h, Stage::Done, (fuel - 3) as nat);
    assert(r3 == seq![Stage::Done]);
    let r2 = visited(h, Stage::CheckDhcp, (fuel - 2) as nat);
    assert(r2 == seq![Stage::CheckDhcp] + r3);
    let r1 = visited(h, Stage::CheckCniConfig, (fuel - 1) as nat);
    assert(r1 == seq![Stage::CheckCniConfig] + r2);
    let r0 = visited(h, Stage::EnsureCniDir, fuel);
    assert(r0 == seq![Stage::EnsureCniDir] + r1);
    assert(r0 =~= seq![Stage::EnsureCniDir, Stage::CheckCniConfig, Stage::CheckDhcp, Stage::Done]);
}

proof fn lemma_probe(h: HostFacts, i: u8, fuel: nat)
    requires
        provisioned(h),
        i < 5,
        forall|j: int| 0 <= j < i ==> !h.managers[j],
        fuel >= 11 - i,
    ensures
        forall|k: int| 0 <= k < visited(h, Stage::ProbeManager(i), fuel).len() ==> !mutates(
            action_kind_of(#[trigger] visited(h, Stage::ProbeManager(i), fuel)[k]),
        ),
        visited(h, Stage::ProbeManager(i), fuel).last() == Stage::Done,
    decreases 5 - i,
{
    let s = Stage::ProbeManager(i);
    let r = visited(h, s, fuel);
    if h.managers[i as int] {
        let c = Stage::CheckCli(manager_at(i as nat));
        lemma_tail(h, (fuel - 2) as nat);
        let t = visited(h, Stage::EnsureCniDir, (fuel - 2) as nat);
        assert(visited(h, c, (fuel - 1) as nat) == seq![c] + t);
        assert(r == seq![s] + (seq![c] + t));
        assert forall|k: int| 0 <= k < r.len() implies !mutates(action_kind_of(#[trigger] r[k])) by {
            if k >= 2 {
                assert(r[k] == t[k - 2]);
            }
        }
    } else {
        if i == 4 {
            let w = choose|w: int| 0 <= w < 5 && h.managers[w];
            assert(h.managers[w]);
            assert(false);
        }
        let n = Stage::ProbeManager((i + 1) as u8);
        lemma_probe(h, (i + 1) as u8, (fuel - 1) as nat);
        let t = visited(h, n, (fuel - 1) as nat);
        assert(r == seq![s] + t);
        assert forall|k: int| 0 <= k < r.len() implies !mutates(action_kind_of(#[trigger] r[k])) by {
            if k >= 1 {
                assert(r[k] == t[k - 1]);
            }
        }
    }
}

/// On a host where a package manager is present, the container tool is
/// installed, the CNI config exists and the DHCP daemon runs, provisioning
/// completes without any action that changes the host: nothing is installed,
/// no file is rewritten and the daemon is not restarted.
pub proof fn lemma_provision_idempotent(h: HostFacts, fuel: nat)
    requires
        provisioned(h),
        fuel >= 11,
    ensures
        forall|k: int| 0 <= k < visited(h, first_stage(), fuel).len() ==> !mutates(
            action_kind_of(#[trigger] visited(h, first_stage(), fuel)[k]),
        ),
        visited(h, first_stage(), fuel).last() == Stage::Done,
{
    lemma_probe(h, 0, fuel);
}

/// Stages reached only once a package manager was found.
pub open spec fn past_manager(s: Stage) -> bool {
    !(s is ProbeManager) && !(s is Failed)
}

/// Stages reached only with the container tool installed.
pub open spec fn past_cli(s: Stage) -> bool {
    past_manager(s) && !(s is CheckCli) && !(s is InstallRuntime) && s != Stage::RecheckCli && s
        != Stage::InstallCli
}

/// Stages reached only with the CNI config in place.
pub open spec fn past_cni(s: Stage) -> bool {
    past_cli(s) && s != Stage::EnsureCniDir && s != Stage::CheckCniConfig && s
        != Stage::WriteCniConfig
}

/// What holds of the host whenever a run is at stage `s`.
pub open spec fn stage_goals(s: Stage, h: HostFacts) -> bool {
    &&& h.managers.len() == 5
    &&& (s matches Stage::ProbeManager(i) ==> i < 5)
    &&& (past_manager(s) ==> exists|i: int| 0 <= i < 5 && h.managers[i])
    &&& (past_cli(s) ==> h.cli_installed)
    &&& (past_cni(s) ==> h.cni_config_present)
    &&& (s == Stage::Done ==> h.dhcp_running)
}

proof fn lemma_goals_step(s: Stage, h: HostFacts)
    requires
        stage_goals(s, h),
        action_kind_of(s) != ActionKind::Finish,
    ensures
        stage_goals(advance(s, answer(h, s)), step_host(h, s)),
{
    let h2 = step_host(h, s);
    assert(h2.managers == h.managers);
    match s {
        Stage::ProbeManager(i) => {
            if answer(h, s) {
                assert(h2.managers[i as int]);
            }
        },
        _ => {},
    }
}

proof fn lemma_goals_kept(h: HostFacts, s: Stage, fuel: nat)
    requires
        stage_goals(s, h),
    ensures
        visited(h, s, fuel).last() == Stage::Done ==> provisioned(final_host(h, s, fuel)),
    decreases fuel,
{
    if fuel == 0 || action_kind_of(s) == ActionKind::Finish {
    } else {
        let s2 = advance(s, answer(h, s));
        let h2 = step_host(h, s);
        lemma_goals_step(s, h);
        lemma_goals_kept(h2, s2, (fuel - 1) as nat);
        let t = visited(h2, s2, (fuel - 1) as nat);
        assert(t.len() >= 1);
        assert((seq![s] + t).last() == t.last());
    }
}

/// Provisioning is idempotent: whatever the host and whichever of its
/// commands fail, a run that completes leaves every step's goal in place,
/// so a second run on that host completes without any action that changes
/// it.
pub proof fn lemma_provision_twice(h: HostFacts, first_fuel: nat, second_fuel: nat)
    requires
        h.managers.len() == 5,
        visited(h, first_stage(), first_fuel).last() == Stage::Done,
        second_fuel >= 11,
    ensures
        provisioned(final_host(h, first_stage(), first_fuel)),
        forall|k: int|
            0 <= k < visited(final_host(h, first_stage(), first_fuel), first_stage(), second_fuel).len()
                ==> !mutates(
                action_kind_of(
                    #[trigger] visited(
                        final_host(h, first_stage(), first_fuel),
                        first_stage(),
                        second_fuel,
                    )[k],
                ),
            ),
{
    lemma_goals_kept(h, first_stage(), first_fuel);
    lemma_provision_idempotent(final_host(h, first_stage(), first_fuel), second_fuel);
}

/// The binary probed for the package manager at position `i`.
pub open spec fn manager_binary(i: nat) -> Seq<char> {
    if i == 0 {
        "apt-get"@
    } else if i == 1 {
        "yum"@
    } else if i == 2 {
        "dnf"@
    } else if i == 3 {
        "pacman"@
    } else {
        "zypper"@
    }
}

/// The program that installs the runtime with `pm`.
pub open spec fn install_program(pm: PackageManager) -> Seq<char> {
    match pm {
        PackageManager::Apt => "apt-get"@,
        PackageManager::Yum => "yum"@,
        PackageManager::Dnf => "dnf"@,
        PackageManager::Pacman => "pacman"@,
        PackageManager::Zypper => "zypper"@,
    }
}

/// The arguments of step `j` of the runtime install with `pm`.
pub open spec fn install_args(pm: PackageManager, j: nat) -> Seq<Seq<char>> {
    match pm {
        PackageManager::Apt => if j == 0 {
            seq!["update"@, "-qq"@]
        } else {
            seq!["install"@, "-y"@, "-qq"@, "containerd"@]
        },
        PackageManager::Yum | PackageManager::Dnf => seq!["install"@, "-y"@, "containerd"@],
        PackageManager::Pacman => seq!["-S"@, "--noconfirm"@, "containerd"@],
        PackageManager::Zypper => seq![],
    }
}

/// The architecture name used by release tarballs for the machine name `arch`.
pub open spec fn release_arch(arch: Seq<char>) -> Seq<char> {
    if arch == "x86_64"@ {
        "amd64"@
    } else if arch == "aarch64"@ {
        "arm64"@
    } else {
        arch
    }
}

/// Where the pinned container tool release for `arch` is downloaded from.
pub open spec fn cli_url(arch: Seq<char>) -> Seq<char> {
    "https://github.com/containerd/nerdctl/releases/download/v"@ + CLI_VERSION@ + "/nerdctl-"@
        + CLI_VERSION@ + "-linux-"@ + release_arch(arch) + ".tar.gz"@
}

/// Where the pinned CNI plugins release for `arch` is downloaded from.
pub open spec fn plugins_url(arch: Seq<char>) -> Seq<char> {
    "https://github.com/containernetworking/plugins/releases/download/"@ + CNI_PLUGINS_VERSION@
        + "/cni-plugins-linux-"@ + release_arch(arch) + "-"@ + CNI_PLUGINS_VERSION@ + ".tgz"@
}

pub open spec fn invocation_is(inv: Invocation, program: Seq<char>, args: Seq<Seq<char>>) -> bool {
    inv.program@ == program && texts(inv.args@) == args
}

/// The systemd unit that supervises the CNI DHCP daemon.
pub open spec fn dhcp_unit() -> Seq<char> {
    DHCP_UNIT@
}

pub const DHCP_UNIT: &'static str = "[Unit]\nDescription=CNI DHCP Daemon for Container Networking\nDocumentation=https://github.com/containernetworking/plugins\nAfter=network.target\n\n[Service]\nType=simple\nExecStart=/opt/cni/bin/dhcp daemon\nRestart=always\nRestartSec=10\nStandardOutput=journal\nStandardError=journal\n\n[Install]\nWantedBy=multi-user.target\n";

pub const CNI_CONFIG_HEAD: &'static str = "{\n  \"cniVersion\": \"1.0.0\",\n  \"name\": \"mc-lan\",\n  \"plugins\": [\n    {\n      \"type\": \"macvlan\",\n      \"master\": \"";

pub const CNI_CONFIG_TAIL: &'static str = "\",\n      \"mode\": \"bridge\",\n      \"ipam\": {\n        \"type\": \"dhcp\"\n      }\n    }\n  ]\n}";

/// The macvlan network config (CNI spec 1.0.0, DHCP addressing) on `iface`.
pub open spec fn cni_config(iface: Seq<char>) -> Seq<char> {
    CNI_CONFIG_HEAD@ + iface + CNI_CONFIG_TAIL@
}

/// The action that stage `s` asks for, on a machine named `arch`.
pub open spec fn action_fits(s: Stage, arch: Seq<char>, a: Action) -> bool {
    match s {
        Stage::ProbeManager(i) => a matches Action::Probe(x) && x@ == manager_binary(i as nat),
        Stage::CheckCli(_) | Stage::RecheckCli => a matches Action::Probe(x) && x@ == "nerdctl"@,
        Stage::CheckSystemd => a matches Action::Probe(x) && x@ == "systemctl"@,
        Stage::InstallRuntime(pm, j) => a matches Action::Run(inv) && invocation_is(
            inv,
            install_program(pm),
            install_args(pm, j as nat),
        ),
        Stage::InstallCli => a matches Action::Run(inv) && invocation_is(
            inv,
            "sh"@,
            seq!["-c"@, "curl -fsSL "@ + cli_url(arch) + " | tar -xz -C /usr/local/bin nerdctl"@],
        ),
        Stage::InstallPlugins => a matches Action::Run(inv) && invocation_is(
            inv,
            "sh"@,
            seq!["-c"@, "curl -fsSL "@ + plugins_url(arch) + " | tar -xz -C /opt/cni/bin"@],
        ),
        Stage::ReloadSystemd => a matches Action::Run(inv) && invocation_is(
            inv,
            "systemctl"@,
            seq!["daemon-reload"@],
        ),
        Stage::EnableUnit => a matches Action::Run(inv) && invocation_is(
            inv,
            "systemctl"@,
            seq!["enable"@, "cni-dhcp.service"@],
        ),
        Stage::StartUnit => a matches Action::Run(inv) && invocation_is(
            inv,
            "systemctl"@,
            seq!["start"@, "cni-dhcp.service"@],
        ),
        Stage::EnsureCniDir => a matches Action::MakeDir(x) && x@ == CNI_DIR@,
        Stage::MakePluginDir => a matches Action::MakeDir(x) && x@ == CNI_BIN_DIR@,
        Stage::CheckCniConfig => a matches Action::FileExists(x) && x@ == CNI_CONFIG_PATH@,
        Stage::CheckDhcpBinary => a matches Action::FileExists(x) && x@ == DHCP_BINARY@,
        Stage::WriteCniConfig => a matches Action::WriteCniConfig(x) && x@ == CNI_CONFIG_PATH@,
        Stage::WriteUnit => a matches Action::WriteFile(x, c) && x@ == DHCP_UNIT_PATH@ && c@
            == dhcp_unit(),
        Stage::CheckDhcp | Stage::VerifyDhcp => a matches Action::ProcessRunning(x) && x@
            == DHCP_PATTERN@,
        Stage::LaunchDhcp => a matches Action::Spawn(inv) && invocation_is(
            inv,
            DHCP_BINARY@,
            seq!["daemon"@],
        ),
        Stage::WaitDhcp => a == Action::Sleep(DHCP_START_WAIT_MS),
        Stage::Done => a == Action::Finish(Ok(())),
        Stage::Failed(e) => a == Action::Finish(Err(e)),
    }
}

fn strings(items: &[&str]) -> (r: Vec<String>)
    ensures
        texts(r@) == items@.map_values(|x: &str| x@),
{
    let mut r: Vec<String> = Vec::new();
    let mut i: usize = 0;
    while i < items.len()
        invariant
            i <= items@.len(),
            texts(r@) == items@.take(i as int).map_values(|x: &str| x@),
        decreases items.len() - i,
    {
        let ghost before = r@;
        let t = String::from_str(items[i]);
        assert(t@ == items@[i as int]@);
        r.push(t);
        assert(texts(r@) =~= texts(before).push(items@[i as int]@));
        assert(items@.take(i as int + 1).map_values(|x: &str| x@) =~= items@.take(i as int).map_values(
            |x: &str| x@,
        ).push(items@[i as int]@));
        i = i + 1;
    }
    assert(items@.take(i as int) =~= items@);
    r
}

fn invocation(program: &str, args: &[&str]) -> (r: Invocation)
    ensures
        invocation_is(r, program@, args@.map_values(|x: &str| x@)),
{
    Invocation { program: String::from_str(program), args: strings(args) }
}

/// The release architecture name for the machine name `arch`.
pub fn release_arch_of(arch: &String) -> (r: String)
    ensures
        r@ == release_arch(arch@),
{
    if crate::text::text_is(arch, "x86_64") {
        String::from_str("amd64")
    } else if crate::text::text_is(arch, "aarch64") {
        String::from_str("arm64")
    } else {
        arch.clone()
    }
}

/// The shell command that fetches `url` and unpacks it with `tail` after `tar -xz`.
fn fetch_and_unpack(url: String, tail: &str) -> (r: Invocation)
    ensures
        invocation_is(r, "sh"@, seq!["-c"@, "curl -fsSL "@ + url@ + tail@]),
{
    let line = join3("curl -fsSL ", url.as_str(), tail);
    let mut args: Vec<String> = Vec::new();
    args.push(String::from_str("-c"));
    args.push(line);
    let r = Invocation { program: String::from_str("sh"), args };
    assert(texts(r.args@) =~= seq!["-c"@, "curl -fsSL "@ + url@ + tail@]);
    r
}

/// The download URL of the pinned container tool release.
pub fn cli_url_for(arch: &String) -> (r: String)
    ensures
        r@ == cli_url(arch@),
{
    let a = release_arch_of(arch);
    let mut u = join3("https://github.com/containerd/nerdctl/releases/download/v", CLI_VERSION, "/nerdctl-");
    u.append(CLI_VERSION);
    u.append("-linux-");
    u.append(a.as_str());
    u.append(".tar.gz");
    u
}

/// The download URL of the pinned CNI plugins release.
pub fn plugins_url_for(arch: &String) -> (r: String)
    ensures
        r@ == plugins_url(arch@),
{
    let a = release_arch_of(arch);
    let mut u = join3("https://github.com/containernetworking/plugins/releases/download/", CNI_PLUGINS_VERSION, "/cni-plugins-linux-");
    u.append(a.as_str());
    u.append("-");
    u.append(CNI_PLUGINS_VERSION);
    u.append(".tgz");
    u
}

/// The CNI network config for `iface`.
pub fn cni_config_text(iface: &String) -> (r: String)
    ensures
        r@ == cni_config(iface@),
{
    join3(CNI_CONFIG_HEAD, iface.as_str(), CNI_CONFIG_TAIL)
}

/// The command of step `j` of the runtime install with `pm`.
pub fn install_invocation(pm: PackageManager, j: u8) -> (r: Invocation)
    ensures
        invocation_is(r, install_program(pm), install_args(pm, j as nat)),
{
    match pm {
        PackageManager::Apt => if j == 0 {
            let r = invocation("apt-get", &["update", "-qq"]);
            assert(texts(r.args@) =~= seq!["update"@, "-qq"@]);
            r
        } else {
            let r = invocation("apt-get", &["install", "-y", "-qq", "containerd"]);
            assert(texts(r.args@) =~= seq!["install"@, "-y"@, "-qq"@, "containerd"@]);
            r
        },
        PackageManager::Yum => {
            let r = invocation("yum", &["install", "-y", "containerd"]);
            assert(texts(r.args@) =~= seq!["install"@, "-y"@, "containerd"@]);
            r
        },
        PackageManager::Dnf => {
            let r = invocation("dnf", &["install", "-y", "containerd"]);
            assert(texts(r.args@) =~= seq!["install"@, "-y"@, "containerd"@]);
            r
        },
        PackageManager::Pacman => {
            let r = invocation("pacman", &["-S", "--noconfirm", "containerd"]);
            assert(texts(r.args@) =~= seq!["-S"@, "--noconfirm"@, "containerd"@]);
            r
        },
        PackageManager::Zypper => {
            let r = invocation("zypper", &[]);
            assert(texts(r.args@) =~= seq![]);
            r
        },
    }
}

fn manager_binary_name(i: u8) -> (r: &'static str)
    ensures
        r@ == manager_binary(i as nat),
{
    if i == 0 {
        "apt-get"
    } else if i == 1 {
        "yum"
    } else if i == 2 {
        "dnf"
    } else if i == 3 {
        "pacman"
    } else {
        "zypper"
    }
}

/// The action that stage `s` asks for, on a machine named `arch`.
pub fn action_for(s: Stage, arch: &String) -> (r: Action)
    ensures
        action_fits(s, arch@, r),
{
    match s {
        Stage::ProbeManager(i) => {
            let x = String::from_str(manager_binary_name(i));
            assert(x@ == manager_binary(i as nat));
            let r = Action::Probe(x);
            assert(action_fits(s, arch@, r));
            r
        },
        Stage::CheckCli(_) | Stage::RecheckCli => Action::Probe(String::from_str("nerdctl")),
        Stage::CheckSystemd => Action::Probe(String::from_str("systemctl")),
        Stage::InstallRuntime(pm, j) => Action::Run(install_invocation(pm, j)),
        Stage::InstallCli => Action::Run(fetch_and_unpack(cli_url_for(arch), " | tar -xz -C /usr/local/bin nerdctl")),
        Stage::InstallPlugins => Action::Run(fetch_and_unpack(plugins_url_for(arch), " | tar -xz -C /opt/cni/bin")),
        Stage::ReloadSystemd => {
            let inv = invocation("systemctl", &["daemon-reload"]);
            assert(texts(inv.args@) =~= seq!["daemon-reload"@]);
            Action::Run(inv)
        },
        Stage::EnableUnit => {
            let inv = invocation("systemctl", &["enable", "cni-dhcp.service"]);
            assert(texts(inv.args@) =~= seq!["enable"@, "cni-dhcp.service"@]);
            Action::Run(inv)
        },
        Stage::StartUnit => {
            let inv = invocation("systemctl", &["start", "cni-dhcp.service"]);
            assert(texts(inv.args@) =~= seq!["start"@, "cni-dhcp.service"@]);
            Action::Run(inv)
        },
        Stage::EnsureCniDir => Action::MakeDir(String::from_str(CNI_DIR)),
        Stage::MakePluginDir => Action::MakeDir(String::from_str(CNI_BIN_DIR)),
        Stage::CheckCniConfig => Action::FileExists(String::from_str(CNI_CONFIG_PATH)),
        Stage::CheckDhcpBinary => Action::FileExists(String::from_str(DHCP_BINARY)),
        Stage::WriteCniConfig => Action::WriteCniConfig(String::from_str(CNI_CONFIG_PATH)),
        Stage::WriteUnit => Action::WriteFile(String::from_str(DHCP_UNIT_PATH), String::from_str(DHCP_UNIT)),
        Stage::CheckDhcp | Stage::VerifyDhcp => Action::ProcessRunning(String::from_str(DHCP_PATTERN)),
        Stage::LaunchDhcp => {
            let inv = invocation(DHCP_BINARY, &["daemon"]);
            assert(texts(inv.args@) =~= seq!["daemon"@]);
            Action::Spawn(inv)
        },
        Stage::WaitDhcp => Action::Sleep(DHCP_START_WAIT_MS),
        Stage::Done => Action::Finish(Ok(())),
        Stage::Failed(e) => Action::Finish(Err(e)),
    }
}

/// The shell pipeline that prints the default route's interface.
pub open spec fn route_probe_line() -> Seq<char> {
    ROUTE_PROBE@
}

/// The shell pipeline that prints the first non-loopback interface.
pub open spec fn link_probe_line() -> Seq<char> {
    LINK_PROBE@
}

pub const ROUTE_PROBE: &'static str = "ip route show default | awk '/default/ {print $5}' | head -n1";

pub const LINK_PROBE: &'static str = "ip link show | awk -F: '/^[0-9]+: [^lo]/ {print $2}' | head -n1 | xargs";

/// `sh -c <line>`.
fn shell(line: &str) -> (r: Invocation)
    ensures
        invocation_is(r, "sh"@, seq!["-c"@, line@]),
{
    let r = invocation("sh", &["-c", line]);
    assert(texts(r.args@) =~= seq!["-c"@, line@]);
    r
}

/// The command that finds the default route's interface.
pub fn route_probe() -> (r: Invocation)
    ensures
        invocation_is(r, "sh"@, seq!["-c"@, route_probe_line()]),
{
    shell(ROUTE_PROBE)
}

/// The command that finds the first non-loopback interface.
pub fn link_probe() -> (r: Invocation)
    ensures
        invocation_is(r, "sh"@, seq!["-c"@, link_probe_line()]),
{
    shell(LINK_PROBE)
}

/// The interface an interface probe printed: its trimmed output, when the
/// probe succeeded and printed something.
pub open spec fn probe_interface(o: CliOutcome) -> Option<Seq<char>> {
    if succeeded(o) && lossy_utf8(trim(o->Finished_0.stdout@)).len() > 0 {
        Some(lossy_utf8(trim(o->Finished_0.stdout@)))
    } else {
        None
    }
}

/// The primary interface: the default route's, else the first
/// non-loopback one; `NoInterface` when neither probe found one.
pub fn pick_interface(route: &CliOutcome, link: &CliOutcome) -> (r: Result<String, ProvisionError>)
    ensures
        r matches Ok(s) ==> s@.len() > 0,
        probe_interface(*route) matches Some(i) ==> r matches Ok(s) && s@ == i,
        probe_interface(*route) is None ==> match probe_interface(*link) {
            Some(i) => r matches Ok(s) && s@ == i,
            None => r == Err::<String, ProvisionError>(ProvisionError::NoInterface),
        },
{
    match read_interface(route) {
        Some(s) => Ok(s),
        None => match read_interface(link) {
            Some(s) => Ok(s),
            None => Err(ProvisionError::NoInterface),
        },
    }
}

fn read_interface(o: &CliOutcome) -> (r: Option<String>)
    ensures
        r matches Some(s) ==> probe_interface(*o) == Some(s@),
        r is None ==> probe_interface(*o) is None,
{
    match read_created_id(o) {
        Ok(s) => if s.as_str().unicode_len() > 0 {
            Some(s)
        } else {
            None
        },
        Err(_) => None,
    }
}

/// The arguments of a command line, each after one space.
pub open spec fn joined_args(a: Seq<Seq<char>>) -> Seq<char>
    decreases a.len(),
{
    if a.len() == 0 {
        Seq::empty()
    } else {
        joined_args(a.drop_last()) + " "@ + a.last()
    }
}

/// An invocation as a command line: the program, then each argument after a space.
pub open spec fn command_line(inv: Invocation) -> Seq<char> {
    inv.program@ + joined_args(texts(inv.args@))
}

/// What a failed command reports: its command line, then what it said.
pub open spec fn run_failure(inv: Invocation, o: CliOutcome) -> Seq<char> {
    command_line(inv) + ": "@ + failure_text(o)
}

/// The command line of `inv`.
pub fn command_line_of(inv: &Invocation) -> (r: String)
    ensures
        r@ == command_line(*inv),
{
    let mut line = inv.program.clone();
    let mut i: usize = 0;
    assert(texts(inv.args@.take(0)) =~= Seq::<Seq<char>>::empty());
    assert(line@ =~= inv.program@ + joined_args(texts(inv.args@.take(0))));
    while i < inv.args.len()
        invariant
            i <= inv.args@.len(),
            line@ == inv.program@ + joined_args(texts(inv.args@.take(i as int))),
        decreases inv.args.len() - i,
    {
        let ghost before = line@;
        line.append(" ");
        line.append(inv.args[i].as_str());
        let ghost next = texts(inv.args@.take(i as int + 1));
        assert(next.drop_last() =~= texts(inv.args@.take(i as int)));
        assert(next.last() == inv.args@[i as int]@);
        assert(line@ =~= inv.program@ + joined_args(next));
        i = i + 1;
    }
    assert(inv.args@.take(i as int) =~= inv.args@);
    line
}

/// How provisioning failed: the reason, and the command line and output of
/// the last command that failed (empty when none did).
#[derive(Debug)]
pub struct ProvisionFailure {
    pub error: ProvisionError,
    pub detail: String,
}

/// The provisioning run: the current stage, the machine name that release
/// downloads are chosen by, and the report of the last failed command.
pub struct SystemSetup {
    stage: Stage,
    arch: String,
    detail: String,
}

impl SystemSetup {
    pub closed spec fn current(&self) -> Stage {
        self.stage
    }

    pub closed spec fn machine(&self) -> Seq<char> {
        self.arch@
    }

    /// The command line and output of the last command that failed.
    pub closed spec fn last_failure(&self) -> Seq<char> {
        self.detail@
    }

    /// A run that has not probed anything yet.
    pub fn new(arch: String) -> (r: Self)
        ensures
            r.current() == first_stage(),
            r.machine() == arch@,
            r.last_failure().len() == 0,
    {
        SystemSetup { stage: Stage::ProbeManager(0), arch, detail: String::new() }
    }

    /// The current stage.
    pub fn stage(&self) -> (r: Stage)
        ensures
            r == self.current(),
    {
        self.stage
    }

    /// What to do now.
    pub fn action(&self) -> (r: Action)
        ensures
            action_fits(self.current(), self.machine(), r),
    {
        action_for(self.stage, &self.arch)
    }

    /// Records whether the current action (a probe, a check, a write)
    /// succeeded and moves on.
    pub fn report(&mut self, ok: bool)
        ensures
            final(self).current() == advance(old(self).current(), ok),
            final(self).machine() == old(self).machine(),
            final(self).last_failure() == old(self).last_failure(),
    {
        self.stage = next_stage(self.stage, ok);
    }

    /// Records how the command `inv` of the current action ran and moves on;
    /// a failure keeps its command line and what it reported.
    pub fn report_run(&mut self, inv: &Invocation, o: &CliOutcome)
        ensures
            final(self).current() == advance(old(self).current(), succeeded(*o)),
            final(self).machine() == old(self).machine(),
            succeeded(*o) ==> final(self).last_failure() == old(self).last_failure(),
            !succeeded(*o) ==> final(self).last_failure() == run_failure(*inv, *o),
    {
        let ok = read_exists(o);
        if !ok {
            let e = failure(o);
            let mut d = command_line_of(inv);
            d.append(": ");
            d.append(e.text.as_str());
            self.detail = d;
        }
        self.stage = next_stage(self.stage, ok);
    }

    /// Whether provisioning is over, and how it ended.
    pub fn outcome(&self) -> (r: Option<Result<(), ProvisionFailure>>)
        ensures
            r is None <==> !(self.current() is Done || self.current() is Failed),
            self.current() is Done ==> r matches Some(Ok(())),
            self.current() matches Stage::Failed(e) ==> r matches Some(Err(f)) && f.error == e
                && f.detail@ == self.last_failure(),
    {
        match self.stage {
            Stage::Done => Some(Ok(())),
            Stage::Failed(e) => Some(Err(ProvisionFailure { error: e, detail: self.detail.clone() })),
            _ => None,
        }
    }
}

fn install_start_of(pm: PackageManager) -> (r: Stage)
    ensures
        r == install_start(pm),
{
    match pm {
        PackageManager::Zypper => Stage::Failed(ProvisionError::UnsupportedPackageManager),
        _ => Stage::InstallRuntime(pm, 0),
    }
}

fn manager_at_index(i: u8) -> (r: PackageManager)
    ensures
        r == manager_at(i as nat),
{
    if i == 0 {
        PackageManager::Apt
    } else if i == 1 {
        PackageManager::Yum
    } else if i == 2 {
        PackageManager::Dnf
    } else if i == 3 {
        PackageManager::Pacman
    } else {
        PackageManager::Zypper
    }
}

/// The stage that follows `s` when its action reported `ok`.
pub fn next_stage(s: Stage, ok: bool) -> (r: Stage)
    ensures
        r == advance(s, ok),
{
    match s {
        Stage::ProbeManager(i) => if ok {
            Stage::CheckCli(manager_at_index(i))
        } else if i < 4 {
            Stage::ProbeManager(i + 1)
        } else {
            Stage::Failed(ProvisionError::NoPackageManager)
        },
        Stage::CheckCli(pm) => if ok {
            Stage::EnsureCniDir
        } else {
            install_start_of(pm)
        },
        Stage::InstallRuntime(pm, j) => {
            let steps: u8 = match pm {
                PackageManager::Apt => 2,
                PackageManager::Zypper => 0,
                _ => 1,
            };
            if !ok {
                Stage::Failed(ProvisionError::CommandFailed)
            } else if (j as u16) + 1 < steps as u16 {
                Stage::InstallRuntime(pm, j + 1)
            } else {
                Stage::RecheckCli
            }
        },
        Stage::RecheckCli => if ok { Stage::EnsureCniDir } else { Stage::InstallCli },
        Stage::InstallCli => if ok { Stage::EnsureCniDir } else { Stage::Failed(ProvisionError::CommandFailed) },
        Stage::EnsureCniDir => if ok { Stage::CheckCniConfig } else { Stage::Failed(ProvisionError::CommandFailed) },
        Stage::CheckCniConfig => if ok { Stage::CheckDhcp } else { Stage::WriteCniConfig },
        Stage::WriteCniConfig => if ok { Stage::CheckDhcp } else { Stage::Failed(ProvisionError::NoInterface) },
        Stage::CheckDhcp => if ok { Stage::Done } else { Stage::CheckDhcpBinary },
        Stage::CheckDhcpBinary => if ok { Stage::CheckSystemd } else { Stage::MakePluginDir },
        Stage::MakePluginDir => if ok { Stage::InstallPlugins } else { Stage::Failed(ProvisionError::CommandFailed) },
        Stage::InstallPlugins => if ok { Stage::CheckSystemd } else { Stage::Failed(ProvisionError::CommandFailed) },
        Stage::CheckSystemd => if ok { Stage::WriteUnit } else { Stage::LaunchDhcp },
        Stage::WriteUnit => if ok { Stage::ReloadSystemd } else { Stage::LaunchDhcp },
        Stage::ReloadSystemd => if ok { Stage::EnableUnit } else { Stage::LaunchDhcp },
        Stage::EnableUnit => if ok { Stage::StartUnit } else { Stage::LaunchDhcp },
        Stage::StartUnit => if ok { Stage::Done } else { Stage::LaunchDhcp },
        Stage::LaunchDhcp => if ok { Stage::WaitDhcp } else { Stage::Failed(ProvisionError::CommandFailed) },
        Stage::WaitDhcp => Stage::VerifyDhcp,
        Stage::VerifyDhcp => if ok { Stage::Done } else { Stage::Failed(ProvisionError::DhcpNotStarted) },
        Stage::Done => Stage::Done,
        Stage::Failed(e) => Stage::Failed(e),
    }
}

} // verus!
