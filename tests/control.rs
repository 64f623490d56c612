use aero_agent::channel::{
    backoff_ceiling_ms, jittered_delay, Channel, ChannelAction, ChannelEvent, ChannelState,
};
use aero_agent::followers::{FollowerSet, LineBuffer, LogLine, LogStream};
use aero_agent::protocol::{
    decode_command, rejection, reply, Command, CommandKind, Correlator, DispatchError, ErrorKind, Field,
    FrameKind, Outcome, Payload, ReplyPayload,
};
use aero_agent::runtime::{check_status, CliOutcome, CliOutput, ContainerdRuntime};

fn text(k: &str, v: &str) -> (String, Field) {
    (k.to_string(), Field::Text(v.to_string()))
}

fn num(k: &str, v: u64) -> (String, Field) {
    (k.to_string(), Field::Num(v))
}

fn create_payload() -> Payload {
    Payload {
        entries: vec![
            text("container_id", "srv-1"),
            text("image", "alpine:3"),
            text("startup_command", ""),
            ("env".to_string(), Field::TextMap(vec![])),
            num("memory_mb", 512),
            num("cpu_cores", 1),
            text("data_dir", "/var/srv-1"),
            num("port", 25565),
            text("network_mode", "bridge"),
        ],
    }
}

#[test]
fn create_then_reply_with_full_id() {
    let cmd = decode_command(&"container.create".to_string(), &create_payload()).unwrap();
    let spec = match cmd {
        Command::Create(s) => s,
        other => panic!("unexpected {:?}", other),
    };
    assert_eq!(spec.container_id, "srv-1");
    assert_eq!(spec.memory_mb, 512);
    assert_eq!(spec.port, 25565);
    assert_eq!(spec.network_mode.as_deref(), Some("bridge"));
    let rt = ContainerdRuntime::new("/run/containerd.sock".to_string(), "aero".to_string());
    assert!(rt.create_args(&spec).contains(&"--memory=512m".to_string()));
    let frame = reply(
        "r1".to_string(),
        CommandKind::Create,
        Ok(Outcome::Created("9d2f0c1e".to_string())),
    );
    assert_eq!(frame.id, "r1");
    assert_eq!(frame.kind, FrameKind::Reply);
    match frame.payload {
        ReplyPayload::ContainerId(c) => assert_eq!(c, "9d2f0c1e"),
        other => panic!("unexpected {:?}", other),
    }
}

#[test]
fn unknown_kind_is_rejected() {
    let p = Payload { entries: vec![] };
    let e = decode_command(&"container.teleport".to_string(), &p).unwrap_err();
    assert_eq!(e, DispatchError::UnknownCommand);
    let frame = rejection("r2".to_string(), e);
    assert_eq!(frame.id, "r2");
    assert_eq!(frame.kind, FrameKind::Error);
    match frame.payload {
        ReplyPayload::Failure { kind, .. } => assert_eq!(kind, ErrorKind::UnknownCommand),
        other => panic!("unexpected {:?}", other),
    }
}

#[test]
fn malformed_payloads_are_bad_requests() {
    let empty = Payload { entries: vec![] };
    assert_eq!(
        decode_command(&"container.start".to_string(), &empty).unwrap_err(),
        DispatchError::BadRequest
    );
    let wrong = Payload { entries: vec![num("id", 3)] };
    assert_eq!(
        decode_command(&"log.start".to_string(), &wrong).unwrap_err(),
        DispatchError::BadRequest
    );
    let mut p = create_payload();
    p.entries[6] = text("data_dir", "relative/dir");
    assert_eq!(
        decode_command(&"container.create".to_string(), &p).unwrap_err(),
        DispatchError::BadRequest
    );
    let mut p = create_payload();
    p.entries[7] = num("port", 70000);
    assert_eq!(
        decode_command(&"container.create".to_string(), &p).unwrap_err(),
        DispatchError::BadRequest
    );
    let frame = rejection("r9".to_string(), DispatchError::BadRequest);
    match frame.payload {
        ReplyPayload::Failure { kind, .. } => assert_eq!(kind, ErrorKind::BadRequest),
        other => panic!("unexpected {:?}", other),
    }
}

#[test]
fn create_optional_members_default() {
    let p = Payload {
        entries: vec![
            text("container_id", "srv-2"),
            text("image", "alpine:3"),
            num("memory_mb", 256),
            num("cpu_cores", 2),
            text("data_dir", "/var/srv-2"),
            num("port", 25566),
        ],
    };
    match decode_command(&"container.create".to_string(), &p).unwrap() {
        Command::Create(s) => {
            assert_eq!(s.startup_command, "");
            assert!(s.env.is_empty());
            assert!(s.network_mode.is_none());
        }
        other => panic!("unexpected {:?}", other),
    }
}

#[test]
fn simple_commands_decode() {
    let p = Payload {
        entries: vec![
            text("id", "srv-1"),
            num("grace_secs", 10),
            text("signal", "SIGTERM"),
            ("argv".to_string(), Field::TextList(vec!["ls".to_string()])),
        ],
    };
    match decode_command(&"container.stop".to_string(), &p).unwrap() {
        Command::Stop { id, grace_secs } => {
            assert_eq!(id, "srv-1");
            assert_eq!(grace_secs, 10);
        }
        other => panic!("unexpected {:?}", other),
    }
    match decode_command(&"container.kill".to_string(), &p).unwrap() {
        Command::Kill { signal, .. } => assert_eq!(signal, "SIGTERM"),
        other => panic!("unexpected {:?}", other),
    }
    match decode_command(&"container.exec".to_string(), &p).unwrap() {
        Command::Exec { argv, .. } => assert_eq!(argv, vec!["ls".to_string()]),
        other => panic!("unexpected {:?}", other),
    }
    assert!(matches!(
        decode_command(&"container.list".to_string(), &p).unwrap(),
        Command::List
    ));
    assert!(matches!(decode_command(&"ping".to_string(), &p).unwrap(), Command::Ping));
}

#[test]
fn ping_is_answered_with_pong() {
    let frame = reply("hb-1".to_string(), CommandKind::Ping, Ok(Outcome::Done));
    assert_eq!(frame.id, "hb-1");
    assert_eq!(frame.kind, FrameKind::Pong);
}

#[test]
fn kill_missing_container_is_command_failed() {
    let p = Payload { entries: vec![text("id", "ghost"), text("signal", "SIGTERM")] };
    let cmd = decode_command(&"container.kill".to_string(), &p).unwrap();
    assert!(matches!(cmd, Command::Kill { .. }));
    let out = CliOutcome::Finished(CliOutput {
        success: false,
        stdout: vec![],
        stderr: b"FATA[0000] 1 errors:\nno such container: ghost\n".to_vec(),
    });
    let result = check_status(&out).map(|_| Outcome::Done);
    let frame = reply("r5".to_string(), CommandKind::Kill, result);
    assert_eq!(frame.kind, FrameKind::Error);
    match frame.payload {
        ReplyPayload::Failure { kind, text } => {
            assert_eq!(kind, ErrorKind::CommandFailed);
            assert!(text.contains("no such container"));
        }
        other => panic!("unexpected {:?}", other),
    }
}

#[test]
fn log_follow_then_stop() {
    let mut f = FollowerSet::new();
    assert!(f.start("srv-1".to_string()));
    assert!(f.accepts_line(&"srv-1".to_string()));
    assert!(f.stop(&"srv-1".to_string()));
    assert!(!f.accepts_line(&"srv-1".to_string()));
    assert_eq!(f.len(), 0);
}

#[test]
fn second_start_is_a_no_op() {
    let mut f = FollowerSet::new();
    assert!(f.start("srv-1".to_string()));
    assert!(!f.start("srv-1".to_string()));
    assert_eq!(f.len(), 1);
    assert!(f.start("srv-2".to_string()));
    assert_eq!(f.len(), 2);
    assert!(f.stop(&"srv-1".to_string()));
    assert!(!f.stop(&"srv-1".to_string()));
    assert!(!f.contains(&"srv-1".to_string()));
    assert!(f.contains(&"srv-2".to_string()));
    assert_eq!(f.drain(), vec!["srv-2".to_string()]);
    assert_eq!(f.len(), 0);
}

fn line(t: &str) -> LogLine {
    LogLine { stream: LogStream::Stdout, text: t.to_string() }
}

#[test]
fn full_buffer_drops_oldest() {
    let mut b = LineBuffer::new(2);
    b.offer(line("a"));
    b.offer(line("b"));
    b.offer(line("c"));
    assert_eq!(b.take_dropped(), 1);
    assert_eq!(b.take_dropped(), 0);
    assert_eq!(b.next_line().unwrap().text, "b");
    assert_eq!(b.next_line().unwrap().text, "c");
    assert!(b.next_line().is_none());
}

#[test]
fn backoff_schedule() {
    let expected = [1000u64, 2000, 4000, 8000, 16000, 32000, 60000, 60000];
    for (a, e) in expected.iter().enumerate() {
        assert_eq!(backoff_ceiling_ms(a as u32), *e);
    }
    assert_eq!(backoff_ceiling_ms(u32::MAX), 60000);
    assert_eq!(jittered_delay(1000, 123456), 123456 % 1001);
    assert!(jittered_delay(60000, u64::MAX) <= 60000);
}

#[test]
fn failed_connects_back_off_and_handshake_resets() {
    let mut c = Channel::new();
    assert_eq!(c.step(ChannelEvent::Start), ChannelAction::Connect);
    assert_eq!(c.step(ChannelEvent::ConnectFailed), ChannelAction::WaitRetry(1000));
    assert_eq!(c.step(ChannelEvent::RetryDue), ChannelAction::Connect);
    assert_eq!(c.step(ChannelEvent::ConnectFailed), ChannelAction::WaitRetry(2000));
    assert_eq!(c.step(ChannelEvent::RetryDue), ChannelAction::Connect);
    assert_eq!(c.step(ChannelEvent::ConnectOk), ChannelAction::SendHello);
    assert_eq!(c.step(ChannelEvent::HandshakeTimeout), ChannelAction::WaitRetry(4000));
    assert_eq!(c.step(ChannelEvent::RetryDue), ChannelAction::Connect);
    assert_eq!(c.step(ChannelEvent::ConnectOk), ChannelAction::SendHello);
    assert_eq!(c.step(ChannelEvent::BackendReady), ChannelAction::Nothing);
    assert_eq!(c.state, ChannelState::Connected);
    assert_eq!(c.attempt, 0);
}

#[test]
fn reconnect_after_socket_loss() {
    let mut c = Channel::new();
    c.step(ChannelEvent::Start);
    c.step(ChannelEvent::ConnectOk);
    c.step(ChannelEvent::BackendReady);
    assert_eq!(c.step(ChannelEvent::SocketClosed), ChannelAction::TearDown);
    assert_eq!(c.state, ChannelState::Closing);
    let wait = c.step(ChannelEvent::TeardownDone);
    assert_eq!(wait, ChannelAction::WaitRetry(1000));
    assert_eq!(c.step(ChannelEvent::RetryDue), ChannelAction::Connect);
    assert_eq!(c.step(ChannelEvent::ConnectOk), ChannelAction::SendHello);
}

#[test]
fn missed_heartbeats_close_the_channel() {
    let mut c = Channel::new();
    c.step(ChannelEvent::Start);
    c.step(ChannelEvent::ConnectOk);
    c.step(ChannelEvent::BackendReady);
    assert_eq!(c.step(ChannelEvent::HeartbeatTick), ChannelAction::SendPing);
    assert_eq!(c.step(ChannelEvent::Pong), ChannelAction::Nothing);
    assert_eq!(c.missed, 0);
    for _ in 0..3 {
        assert_eq!(c.step(ChannelEvent::HeartbeatTick), ChannelAction::SendPing);
    }
    assert_eq!(c.step(ChannelEvent::HeartbeatTick), ChannelAction::TearDown);
    assert_eq!(c.state, ChannelState::Closing);
}

#[test]
fn unrelated_events_change_nothing() {
    let mut c = Channel::new();
    assert_eq!(c.step(ChannelEvent::Pong), ChannelAction::Nothing);
    assert_eq!(c, Channel::new());
}

#[test]
fn each_request_gets_one_reply() {
    let mut ledger = Correlator::new();
    ledger.expect_reply("r1".to_string());
    let first = reply("r1".to_string(), CommandKind::List, Ok(Outcome::Done));
    let released = ledger.settle(first).expect("first reply is released");
    assert_eq!(released.id, "r1");
    let second = reply("r1".to_string(), CommandKind::List, Ok(Outcome::Done));
    assert!(ledger.settle(second).is_none());
    ledger.expect_reply("r2".to_string());
    ledger.reset();
    let late = rejection("r2".to_string(), DispatchError::BadRequest);
    assert!(ledger.settle(late).is_none());
}

#[test]
fn duplicate_env_keys_are_bad_requests() {
    let mut p = create_payload();
    p.entries[3] = (
        "env".to_string(),
        Field::TextMap(vec![
            ("A".to_string(), "1".to_string()),
            ("A".to_string(), "2".to_string()),
        ]),
    );
    assert_eq!(
        decode_command(&"container.create".to_string(), &p).unwrap_err(),
        DispatchError::BadRequest
    );
}
