use aero_agent::provision::{
    cni_config_text, command_line_of, install_invocation, pick_interface, Action, Invocation,
    PackageManager, ProvisionError, Stage, SystemSetup, CNI_CONFIG_PATH,
};
use aero_agent::runtime::{CliOutcome, CliOutput};

struct Host {
    managers: [bool; 5],
    cli: bool,
    cni_config: bool,
    dhcp_running: bool,
    dhcp_binary: bool,
    systemd: bool,
}

fn answer(h: &Host, a: &Action) -> bool {
    match a {
        Action::Probe(b) => match b.as_str() {
            "apt-get" => h.managers[0],
            "yum" => h.managers[1],
            "dnf" => h.managers[2],
            "pacman" => h.managers[3],
            "zypper" => h.managers[4],
            "nerdctl" => h.cli,
            "systemctl" => h.systemd,
            other => panic!("unexpected probe {}", other),
        },
        Action::FileExists(p) if p == CNI_CONFIG_PATH => h.cni_config,
        Action::FileExists(_) => h.dhcp_binary,
        Action::ProcessRunning(_) => h.dhcp_running,
        _ => true,
    }
}

fn drive(h: &Host) -> (Vec<Action>, Result<(), ProvisionError>) {
    let mut p = SystemSetup::new("x86_64".to_string());
    let mut seen = Vec::new();
    for _ in 0..64 {
        if let Some(done) = p.outcome() {
            return (seen, done.map_err(|f| f.error));
        }
        let a = p.action();
        let ok = answer(h, &a);
        seen.push(a);
        p.report(ok);
    }
    panic!("provisioning did not finish");
}

fn mutating(a: &Action) -> bool {
    matches!(
        a,
        Action::Run(_) | Action::WriteCniConfig(_) | Action::WriteFile(_, _) | Action::Spawn(_)
    )
}

#[test]
fn provisioned_host_is_left_alone() {
    let h = Host {
        managers: [false, false, true, false, false],
        cli: true,
        cni_config: true,
        dhcp_running: true,
        dhcp_binary: true,
        systemd: true,
    };
    let (actions, result) = drive(&h);
    assert_eq!(result, Ok(()));
    assert!(actions.iter().all(|a| !mutating(a)));
    assert!(!actions.iter().any(|a| matches!(a, Action::WriteCniConfig(_))));
}

#[test]
fn bare_apt_host_installs_everything() {
    let h = Host {
        managers: [true, false, false, false, false],
        cli: false,
        cni_config: false,
        dhcp_running: false,
        dhcp_binary: false,
        systemd: true,
    };
    let (actions, result) = drive(&h);
    assert_eq!(result, Ok(()));
    let runs: Vec<String> = actions
        .iter()
        .filter_map(|a| match a {
            Action::Run(inv) => Some(format!("{} {}", inv.program, inv.args.join(" "))),
            _ => None,
        })
        .collect();
    assert_eq!(runs[0], "apt-get update -qq");
    assert_eq!(runs[1], "apt-get install -y -qq containerd");
    assert!(runs[2].contains("nerdctl-1.7.6-linux-amd64.tar.gz"));
    assert!(runs[3].contains("cni-plugins-linux-amd64-v1.4.1.tgz"));
    assert_eq!(runs[4], "systemctl daemon-reload");
    assert_eq!(runs[5], "systemctl enable cni-dhcp.service");
    assert_eq!(runs[6], "systemctl start cni-dhcp.service");
    assert!(actions.iter().any(|a| matches!(a, Action::WriteCniConfig(_))));
}

#[test]
fn no_package_manager_aborts() {
    let h = Host {
        managers: [false; 5],
        cli: true,
        cni_config: true,
        dhcp_running: true,
        dhcp_binary: true,
        systemd: true,
    };
    let (actions, result) = drive(&h);
    assert_eq!(result, Err(ProvisionError::NoPackageManager));
    assert_eq!(actions.len(), 5);
}

#[test]
fn zypper_cannot_install_runtime() {
    let h = Host {
        managers: [false, false, false, false, true],
        cli: false,
        cni_config: true,
        dhcp_running: true,
        dhcp_binary: true,
        systemd: true,
    };
    let (_, result) = drive(&h);
    assert_eq!(result, Err(ProvisionError::UnsupportedPackageManager));
}

#[test]
fn dhcp_without_systemd_is_launched_and_verified() {
    let h = Host {
        managers: [false, true, false, false, false],
        cli: true,
        cni_config: true,
        dhcp_running: false,
        dhcp_binary: true,
        systemd: false,
    };
    let (actions, result) = drive(&h);
    assert_eq!(result, Err(ProvisionError::DhcpNotStarted));
    assert!(actions.iter().any(|a| matches!(a, Action::Spawn(inv) if inv.program == "/opt/cni/bin/dhcp")));
    assert!(actions.iter().any(|a| matches!(a, Action::Sleep(2000))));
}

#[test]
fn install_commands() {
    let inv = install_invocation(PackageManager::Pacman, 0);
    assert_eq!(inv.program, "pacman");
    assert_eq!(inv.args, vec!["-S", "--noconfirm", "containerd"]);
    let inv = install_invocation(PackageManager::Dnf, 0);
    assert_eq!(inv.program, "dnf");
    assert_eq!(inv.args, vec!["install", "-y", "containerd"]);
    let p = SystemSetup::new("aarch64".to_string());
    assert_eq!(p.stage(), Stage::ProbeManager(0));
}

#[test]
fn cni_config_names_interface() {
    let text = cni_config_text(&"eth0".to_string());
    assert!(text.contains("\"master\": \"eth0\""));
    assert!(text.contains("\"cniVersion\": \"1.0.0\""));
    assert!(text.contains("\"type\": \"macvlan\""));
    assert!(text.contains("\"type\": \"dhcp\""));
}

fn out(success: bool, stdout: &str) -> CliOutcome {
    CliOutcome::Finished(CliOutput { success, stdout: stdout.as_bytes().to_vec(), stderr: vec![] })
}

#[test]
fn interface_detection_falls_back() {
    assert_eq!(pick_interface(&out(true, "enp3s0\n"), &out(true, "eth9")).unwrap(), "enp3s0");
    assert_eq!(pick_interface(&out(true, "\n"), &out(true, " eth1 \n")).unwrap(), "eth1");
    assert_eq!(pick_interface(&out(false, "x"), &out(true, "eth2")).unwrap(), "eth2");
    assert_eq!(
        pick_interface(&out(false, ""), &CliOutcome::Missing).unwrap_err(),
        ProvisionError::NoInterface
    );
}

#[test]
fn failed_command_reports_its_line_and_stderr() {
    let mut p = SystemSetup::new("x86_64".to_string());
    p.report(true);
    p.report(false);
    assert_eq!(p.stage(), Stage::InstallRuntime(PackageManager::Apt, 0));
    let inv = match p.action() {
        Action::Run(inv) => inv,
        other => panic!("unexpected {:?}", other),
    };
    assert_eq!(command_line_of(&inv), "apt-get update -qq");
    let failed = CliOutcome::Finished(CliOutput {
        success: false,
        stdout: vec![],
        stderr: b"E: could not get lock".to_vec(),
    });
    p.report_run(&inv, &failed);
    let f = p.outcome().unwrap().unwrap_err();
    assert_eq!(f.error, ProvisionError::CommandFailed);
    assert_eq!(f.detail, "apt-get update -qq: E: could not get lock");
}

#[test]
fn successful_command_moves_on() {
    let mut p = SystemSetup::new("x86_64".to_string());
    p.report(true);
    p.report(false);
    let inv = Invocation { program: "apt-get".to_string(), args: vec!["update".to_string()] };
    p.report_run(&inv, &out(true, ""));
    assert_eq!(p.stage(), Stage::InstallRuntime(PackageManager::Apt, 1));
    assert!(p.outcome().is_none());
}

#[test]
fn interface_name_is_never_empty() {
    assert_eq!(
        pick_interface(&out(true, "  \n"), &out(true, "\t")).unwrap_err(),
        ProvisionError::NoInterface
    );
}
