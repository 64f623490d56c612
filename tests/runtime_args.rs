use aero_agent::bytes::{split_content_lines, trim_bytes};
use aero_agent::runtime::{
    check_status, collect_containers, env_keys_unique, firewall_args, firewall_ip, is_running, read_created_id, read_exists, read_ip,
    read_list_records, read_stats_record, read_text, CliOutcome, CliOutput, ContainerInfo,
    ContainerSpec, ContainerdRuntime, RuntimeError, RuntimeErrorKind,
};
use aero_agent::text::decimal_string;

fn rt() -> ContainerdRuntime {
    ContainerdRuntime::new("/run/containerd/containerd.sock".to_string(), "aero".to_string())
}

fn s(v: &[&str]) -> Vec<String> {
    v.iter().map(|x| x.to_string()).collect()
}

fn spec(network: Option<&str>, startup: &str, env: Vec<(String, String)>) -> ContainerSpec {
    ContainerSpec {
        container_id: "srv-1".to_string(),
        image: "alpine:3".to_string(),
        startup_command: startup.to_string(),
        env,
        memory_mb: 512,
        cpu_cores: 1,
        data_dir: "/var/srv-1".to_string(),
        port: 25565,
        network_mode: network.map(|n| n.to_string()),
    }
}

fn finished(success: bool, stdout: &str, stderr: &str) -> CliOutcome {
    CliOutcome::Finished(CliOutput {
        success,
        stdout: stdout.as_bytes().to_vec(),
        stderr: stderr.as_bytes().to_vec(),
    })
}

#[test]
fn decimal_rendering() {
    assert_eq!(decimal_string(0), "0");
    assert_eq!(decimal_string(7), "7");
    assert_eq!(decimal_string(512), "512");
    assert_eq!(decimal_string(25565), "25565");
    assert_eq!(decimal_string(u64::MAX), "18446744073709551615");
}

#[test]
fn new_keeps_socket_and_namespace() {
    let r = rt();
    assert_eq!(r.namespace(), "aero");
    assert_eq!(r.socket_path(), "/run/containerd/containerd.sock");
}

#[test]
fn create_args_bridge() {
    let args = rt().create_args(&spec(Some("bridge"), "", vec![]));
    assert_eq!(
        args,
        s(&[
            "--namespace", "aero", "run", "--memory=512m", "--cpus", "1", "-v",
            "/var/srv-1:/data", "-w", "/data", "-p", "0.0.0.0:25565:25565", "--name", "srv-1",
            "-d", "alpine:3",
        ])
    );
}

#[test]
fn create_args_host_network_has_no_port_map() {
    let args = rt().create_args(&spec(Some("host"), "java -jar server.jar", vec![]));
    assert_eq!(
        args,
        s(&[
            "--namespace", "aero", "run", "--memory=512m", "--cpus", "1", "-v",
            "/var/srv-1:/data", "-w", "/data", "--network", "host", "--name", "srv-1", "-d",
            "alpine:3", "sh", "-c", "java -jar server.jar",
        ])
    );
}

#[test]
fn create_args_named_network_and_env() {
    let env = vec![
        ("EULA".to_string(), "TRUE".to_string()),
        ("MODE".to_string(), "survival".to_string()),
    ];
    let args = rt().create_args(&spec(Some("mc-lan"), "", env));
    assert_eq!(
        args,
        s(&[
            "--namespace", "aero", "run", "--memory=512m", "--cpus", "1", "-v",
            "/var/srv-1:/data", "-w", "/data", "--network", "mc-lan", "-p",
            "0.0.0.0:25565:25565", "-e", "EULA=TRUE", "-e", "MODE=survival", "--name", "srv-1",
            "-d", "alpine:3",
        ])
    );
}

#[test]
fn create_args_default_network() {
    let args = rt().create_args(&spec(None, "", vec![]));
    assert!(args.contains(&"-p".to_string()));
    assert!(!args.contains(&"--network".to_string()));
}

#[test]
fn lifecycle_args() {
    let r = rt();
    let id = "srv-1".to_string();
    assert_eq!(r.start_args(&id), s(&["--namespace", "aero", "start", "srv-1"]));
    assert_eq!(r.stop_args(&id, 30), s(&["--namespace", "aero", "stop", "-t", "30", "srv-1"]));
    assert_eq!(
        r.kill_args(&id, &"SIGTERM".to_string()),
        s(&["--namespace", "aero", "kill", "-s", "SIGTERM", "srv-1"])
    );
    assert_eq!(r.remove_args(&id), s(&["--namespace", "aero", "rm", "-f", "srv-1"]));
    assert_eq!(r.logs_args(&id, None), s(&["--namespace", "aero", "logs", "srv-1"]));
    assert_eq!(
        r.logs_args(&id, Some(100)),
        s(&["--namespace", "aero", "logs", "--tail", "100", "srv-1"])
    );
    assert_eq!(r.stream_logs_args(&id), s(&["--namespace", "aero", "logs", "-f", "srv-1"]));
    assert_eq!(
        r.follow_args(&id),
        s(&["--namespace", "aero", "logs", "--follow", "--timestamps", "srv-1"])
    );
    assert_eq!(r.list_args(), s(&["--namespace", "aero", "ps", "-a", "--format", "json"]));
    assert_eq!(
        r.stats_args(&id),
        s(&["--namespace", "aero", "stats", "--no-stream", "--format", "json", "srv-1"])
    );
    assert_eq!(
        r.exec_args(&id, &s(&["ls", "-la"])),
        s(&["--namespace", "aero", "exec", "srv-1", "ls", "-la"])
    );
    assert_eq!(
        r.ip_args(&id),
        s(&[
            "--namespace", "aero", "inspect", "srv-1", "--format",
            "{{range .NetworkSettings.Networks}}{{.IPAddress}}{{end}}",
        ])
    );
    assert_eq!(r.exists_args(&id), s(&["--namespace", "aero", "inspect", "srv-1"]));
}

#[test]
fn trim_and_lines() {
    assert_eq!(trim_bytes(b"  abc \r\n"), b"abc".to_vec());
    assert_eq!(trim_bytes(b" \n\t "), Vec::<u8>::new());
    assert_eq!(
        split_content_lines(b"{\"a\":1}\n\n   \n{\"b\":2}\n"),
        vec![b"{\"a\":1}".to_vec(), b"{\"b\":2}".to_vec()]
    );
    assert_eq!(split_content_lines(b"x\ny"), vec![b"x".to_vec(), b"y".to_vec()]);
    assert_eq!(split_content_lines(b""), Vec::<Vec<u8>>::new());
}

#[test]
fn missing_tool_is_tool_missing() {
    let e = check_status(&CliOutcome::Missing).unwrap_err();
    assert_eq!(e.kind, RuntimeErrorKind::ToolMissing);
}

#[test]
fn failed_run_carries_stderr() {
    let o = finished(false, "", "Error: no such container: ghost\n");
    let e = check_status(&o).unwrap_err();
    assert_eq!(e.kind, RuntimeErrorKind::CommandFailed);
    assert!(e.text.contains("no such container"));
    let o = CliOutcome::SpawnFailed("permission denied".to_string());
    let e = check_status(&o).unwrap_err();
    assert_eq!(e.kind, RuntimeErrorKind::CommandFailed);
    assert_eq!(e.text, "permission denied");
    assert!(check_status(&finished(true, "", "")).is_ok());
}

#[test]
fn created_id_is_trimmed_stdout() {
    let o = finished(true, "4f9c2a7e1b\n", "");
    assert_eq!(read_created_id(&o).unwrap(), "4f9c2a7e1b");
    assert_eq!(read_ip(&finished(true, "10.0.0.7\n", "")).unwrap(), "10.0.0.7");
    assert_eq!(read_ip(&finished(true, "\n", "")).unwrap(), "");
    assert_eq!(read_text(&finished(true, "line1\nline2\n", "")).unwrap(), "line1\nline2\n");
    assert!(read_exists(&finished(true, "[]", "")));
    assert!(!read_exists(&finished(false, "", "no such object")));
    assert!(!read_exists(&CliOutcome::Missing));
}

#[test]
fn list_and_stats_records() {
    let o = finished(true, "{\"ID\":\"a\"}\n\n{\"ID\":\"b\"}\n", "");
    let recs = read_list_records(&o).unwrap();
    assert_eq!(recs, vec![b"{\"ID\":\"a\"}".to_vec(), b"{\"ID\":\"b\"}".to_vec()]);
    let o = finished(true, "\n{\"ID\":\"srv-1\"}\n", "");
    assert_eq!(read_stats_record(&o).unwrap(), b"{\"ID\":\"srv-1\"}".to_vec());
    let e = read_stats_record(&finished(true, "\n", "")).unwrap_err();
    assert_eq!(e.kind, RuntimeErrorKind::Decode);
    let e = read_list_records(&finished(false, "", "boom")).unwrap_err();
    assert_eq!(e.kind, RuntimeErrorKind::CommandFailed);
    assert_eq!(e.text, "boom");
}

fn info(id: &str) -> ContainerInfo {
    ContainerInfo {
        id: id.to_string(),
        names: id.to_string(),
        status: "Up".to_string(),
        command: String::new(),
        image: "alpine:3".to_string(),
    }
}

#[test]
fn collecting_decoded_records() {
    let ok = collect_containers(vec![Some(info("a")), Some(info("b"))]).unwrap();
    assert_eq!(ok.len(), 2);
    assert_eq!(ok[1].id, "b");
    let e = collect_containers(vec![Some(info("a")), None]).unwrap_err();
    assert_eq!(e.kind, RuntimeErrorKind::Decode);
    assert!(collect_containers(vec![]).unwrap().is_empty());
}

#[test]
fn firewall_ip_falls_back() {
    assert_eq!(firewall_ip(&Ok("10.1.2.3".to_string())), "10.1.2.3");
    let err: Result<String, RuntimeError> = Err(RuntimeError {
        kind: RuntimeErrorKind::CommandFailed,
        text: String::new(),
    });
    assert_eq!(firewall_ip(&err), "0.0.0.0");
}

#[test]
fn running_status() {
    let mut c = info("a");
    assert!(is_running(&c));
    c.status = "Exited (0) 3 minutes ago".to_string();
    assert!(!is_running(&c));
    c.status = "U".to_string();
    assert!(!is_running(&c));
}

#[test]
fn firewall_rule_for_port_and_ip() {
    let ip = "10.0.0.7".to_string();
    let first = firewall_args(25565, &ip);
    assert_eq!(
        first,
        s(&["allow", "proto", "tcp", "from", "any", "to", "10.0.0.7", "port", "25565"])
    );
    assert_eq!(firewall_args(25565, &ip), first);
}

#[test]
fn env_keys_must_be_unique() {
    let a = ("A".to_string(), "1".to_string());
    let b = ("B".to_string(), "2".to_string());
    assert!(env_keys_unique(&vec![]));
    assert!(env_keys_unique(&vec![a.clone(), b.clone()]));
    assert!(!env_keys_unique(&vec![a.clone(), b, a]));
}
