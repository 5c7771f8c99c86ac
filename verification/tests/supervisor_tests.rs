use hypr_xdisplay::protocol::{protocol_command, ProtocolType, Role};
use hypr_xdisplay::supervisor::{ProtocolSupervisor, StartError, StartPlan, StopError};

fn spawn_plan_command(sup: &ProtocolSupervisor, p: ProtocolType, r: Role, port: Option<u16>) -> Option<(String, Vec<String>)> {
    match sup.plan_start(p, r, port, None) {
        StartPlan::AlreadyRunning => None,
        StartPlan::Spawn(c) => Some((c.program, c.args)),
    }
}

#[test]
fn fresh_supervisor_reports_unknown_status() {
    let sup = ProtocolSupervisor::new();
    let st = sup.get_protocol_status(ProtocolType::VNC, Role::Receiver);
    assert!(!st.running);
    assert_eq!(st.port, None);
    assert!(st.error.is_none());
    assert!(st.last_status_message.is_none());
}

#[test]
fn plan_start_hands_out_vnc_receiver_command() {
    let sup = ProtocolSupervisor::new();
    let (program, args) = spawn_plan_command(&sup, ProtocolType::VNC, Role::Receiver, Some(5900))
        .expect("fresh key must need a spawn");
    assert_eq!(program, "wayvnc");
    assert_eq!(args, vec!["0.0.0.0:5900".to_string()]);
}

#[test]
fn start_twice_spawns_only_once() {
    // Starting a key that already runs is a no-op success: the second start
    // plans no spawn and commits no change.
    let mut sup = ProtocolSupervisor::new();
    assert!(spawn_plan_command(&sup, ProtocolType::VNC, Role::Receiver, Some(5900)).is_some());
    sup.start_commit(ProtocolType::VNC, Role::Receiver, Some(5900), Ok(101))
        .expect("first start succeeds");
    assert!(spawn_plan_command(&sup, ProtocolType::VNC, Role::Receiver, Some(5900)).is_none());
    sup.start_commit(ProtocolType::VNC, Role::Receiver, Some(5901), Ok(202))
        .expect("second start is a silent success");
    let st = sup.get_protocol_status(ProtocolType::VNC, Role::Receiver);
    assert!(st.running);
    assert_eq!(st.port, Some(5900));
    assert_eq!(st.error, None);
    assert_eq!(
        st.last_status_message.as_deref(),
        Some("VNC Receiver started successfully.")
    );
}

#[test]
fn stop_then_status_reports_not_running() {
    let mut sup = ProtocolSupervisor::new();
    sup.start_commit(ProtocolType::AirPlay, Role::Sender, None, Ok(55)).unwrap();
    let token = sup.stop_begin(ProtocolType::AirPlay, Role::Sender);
    assert_eq!(token, Some(55));
    sup.stop_commit(ProtocolType::AirPlay, Role::Sender, Ok(())).unwrap();
    let st = sup.get_protocol_status(ProtocolType::AirPlay, Role::Sender);
    assert!(!st.running);
    assert_eq!(st.port, None);
    assert_eq!(st.error, None);
    assert_eq!(st.last_status_message.as_deref(), Some("AirPlay Sender stopped."));
}

#[test]
fn stop_without_entry_is_silent_noop() {
    let mut sup = ProtocolSupervisor::new();
    assert_eq!(sup.stop_begin(ProtocolType::Browser, Role::Receiver), None);
    let st = sup.get_protocol_status(ProtocolType::Browser, Role::Receiver);
    assert!(!st.running);
    assert!(st.last_status_message.is_none());
}

#[test]
fn stop_failure_is_recorded_and_returned() {
    let mut sup = ProtocolSupervisor::new();
    sup.start_commit(ProtocolType::Miracast, Role::Receiver, None, Ok(7)).unwrap();
    assert_eq!(sup.stop_begin(ProtocolType::Miracast, Role::Receiver), Some(7));
    let r = sup.stop_commit(
        ProtocolType::Miracast,
        Role::Receiver,
        Err("signal rejected".to_string()),
    );
    match r {
        Err(StopError::Kill(m)) => assert_eq!(m, "signal rejected"),
        _ => panic!("a failed termination must be returned"),
    }
    let st = sup.get_protocol_status(ProtocolType::Miracast, Role::Receiver);
    assert!(!st.running);
    assert_eq!(st.error.as_deref(), Some("Failed to stop: signal rejected"));
    assert_eq!(
        st.last_status_message.as_deref(),
        Some("Process may not have been running.")
    );
    // The entry is removed nonetheless: a new start plans a spawn.
    assert!(spawn_plan_command(&sup, ProtocolType::Miracast, Role::Receiver, None).is_some());
}

#[test]
fn distinct_keys_do_not_interfere() {
    // Two starts for distinct keys each spawn and neither disturbs the other.
    let mut sup = ProtocolSupervisor::new();
    assert!(spawn_plan_command(&sup, ProtocolType::VNC, Role::Receiver, Some(5900)).is_some());
    assert!(spawn_plan_command(&sup, ProtocolType::VNC, Role::Sender, Some(5901)).is_some());
    sup.start_commit(ProtocolType::VNC, Role::Receiver, Some(5900), Ok(11)).unwrap();
    sup.start_commit(ProtocolType::VNC, Role::Sender, Some(5901), Ok(22)).unwrap();
    let st_r = sup.get_protocol_status(ProtocolType::VNC, Role::Receiver);
    let st_s = sup.get_protocol_status(ProtocolType::VNC, Role::Sender);
    assert!(st_r.running && st_s.running);
    assert_eq!(st_r.port, Some(5900));
    assert_eq!(st_s.port, Some(5901));
    // Stopping one leaves the other running.
    assert_eq!(sup.stop_begin(ProtocolType::VNC, Role::Receiver), Some(11));
    sup.stop_commit(ProtocolType::VNC, Role::Receiver, Ok(())).unwrap();
    assert!(sup.get_protocol_status(ProtocolType::VNC, Role::Sender).running);
    assert!(!sup.get_protocol_status(ProtocolType::VNC, Role::Receiver).running);
}

#[test]
fn spawn_failure_leaves_no_entry_and_nonempty_error() {
    let mut sup = ProtocolSupervisor::new();
    let r = sup.start_commit(
        ProtocolType::Browser,
        Role::Sender,
        Some(8082),
        Err("No such file or directory".to_string()),
    );
    match r {
        Err(StartError::Spawn(m)) => assert_eq!(m, "No such file or directory"),
        _ => panic!("a spawn failure must be returned"),
    }
    let st = sup.get_protocol_status(ProtocolType::Browser, Role::Sender);
    assert!(!st.running);
    assert_eq!(st.port, Some(8082));
    let err = st.error.expect("the error must be recorded");
    assert!(!err.is_empty());
    assert_eq!(err, "Failed to start: No such file or directory");
    assert_eq!(
        st.last_status_message.as_deref(),
        Some("Check if required dependencies are installed and not already running.")
    );
    // No table entry exists: a retry plans a spawn again.
    assert!(spawn_plan_command(&sup, ProtocolType::Browser, Role::Sender, Some(8082)).is_some());
}

#[test]
fn command_templates_match_each_key() {
    let c = protocol_command(ProtocolType::AirPlay, Role::Receiver, None, None);
    assert_eq!(c.program, "miracle-sinkctl");
    assert_eq!(c.args, vec!["--daemon".to_string()]);

    let c = protocol_command(ProtocolType::Miracast, Role::Receiver, Some(99), None);
    assert_eq!(c.program, "miracle-sinkctl");
    assert_eq!(c.args, vec!["--daemon".to_string()]);

    let c = protocol_command(ProtocolType::VNC, Role::Receiver, None, None);
    assert_eq!(c.program, "wayvnc");
    assert!(c.args.is_empty());

    let c = protocol_command(ProtocolType::Browser, Role::Receiver, Some(8080), None);
    assert_eq!(c.program, "waypipe");
    assert_eq!(
        c.args,
        vec!["server".to_string(), "--websocket".to_string(), "--port".to_string(), "8080".to_string()]
    );

    let c = protocol_command(ProtocolType::Browser, Role::Receiver, None, None);
    assert_eq!(c.args, vec!["server".to_string(), "--websocket".to_string()]);

    let c = protocol_command(ProtocolType::AirPlay, Role::Sender, None, Some("192.168.1.20"));
    assert_eq!(c.program, "gst-launch-1.0");
    assert_eq!(
        c.args,
        vec![
            "ximagesrc".to_string(),
            "!".to_string(),
            "videoconvert".to_string(),
            "!".to_string(),
            "jpegenc".to_string(),
            "!".to_string(),
            "rtpjpegpay ! udpsink host=192.168.1.20 port=5000".to_string(),
        ]
    );

    let c = protocol_command(ProtocolType::Miracast, Role::Sender, None, None);
    assert_eq!(c.args[6], "rtpjpegpay ! udpsink host= port=5000");

    let c = protocol_command(ProtocolType::VNC, Role::Sender, Some(5902), None);
    assert_eq!(c.program, "x11vnc");
    assert_eq!(c.args, vec!["-rfbport".to_string(), "5902".to_string()]);

    let c = protocol_command(ProtocolType::Browser, Role::Sender, Some(9000), None);
    assert_eq!(c.program, "ffmpeg");
    assert_eq!(c.args.last().map(|s| s.as_str()), Some("ws://localhost:9000/"));

    let c = protocol_command(ProtocolType::Browser, Role::Sender, None, None);
    assert_eq!(c.args.last().map(|s| s.as_str()), Some("ws://localhost:8082/"));
}
