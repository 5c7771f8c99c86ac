use hypr_xdisplay::discovery::{
    fixed_sender_targets, parse_android_devices, parse_sender_targets, parse_wireless_displays,
};
use hypr_xdisplay::events::{parse_event, HyprlandEvent};
use hypr_xdisplay::protocol::ProtocolType;
use hypr_xdisplay::screenshot::focused_window_geometry;

#[test]
fn monitor_events_are_recognized_by_prefix() {
    assert!(matches!(parse_event("monitoradded>>eDP-1"), HyprlandEvent::MonitorAdded));
    assert!(matches!(parse_event("monitorremoved>>HDMI-A-1"), HyprlandEvent::MonitorRemoved));
    match parse_event("workspace>>3") {
        HyprlandEvent::Unknown(s) => assert_eq!(s, "workspace>>3"),
        _ => panic!("other lines pass through unchanged"),
    }
    match parse_event("") {
        HyprlandEvent::Unknown(s) => assert_eq!(s, ""),
        _ => panic!("the empty line is unknown"),
    }
}

#[test]
fn wireless_scan_lines_become_displays() {
    let output = "1  00:11:22:33:44:55  Wireless Display 1\nshort line\n2 AA:BB:CC:DD:EE:FF TV\n";
    let displays = parse_wireless_displays(output);
    assert_eq!(displays.len(), 2);
    assert_eq!(displays[0].name, "Wireless Display 1");
    assert_eq!(displays[0].address, "00:11:22:33:44:55");
    assert!(!displays[0].connected);
    assert_eq!(displays[1].name, "TV");
    assert_eq!(displays[1].address, "AA:BB:CC:DD:EE:FF");
}

#[test]
fn wireless_scan_of_empty_output_finds_nothing() {
    assert!(parse_wireless_displays("").is_empty());
}

#[test]
fn android_scan_skips_header_and_foreign_lines() {
    let output = "List of devices attached\nemulator-5554\tdevice\nabcd1234 offline\n";
    let devices = parse_android_devices(output);
    assert_eq!(devices.len(), 1);
    assert_eq!(devices[0].id, "emulator-5554");
    assert_eq!(devices[0].name, "emulator-5554");
    assert!(!devices[0].connected);
}

#[test]
fn airplay_scan_lines_become_targets() {
    let output = "=;eth0;IPv4;Apple TV;_airplay._tcp;local;host.local;192.168.1.10;7000;txt\n\
                  =;eth0;IPv6;Other;_airplay._tcp;local;host.local;fe80::1;7000;txt\n";
    let targets = parse_sender_targets(output);
    assert_eq!(targets.len(), 1);
    assert_eq!(targets[0].0, "Apple TV");
    assert_eq!(targets[0].1, "192.168.1.10");
}

#[test]
fn fixed_targets_cover_vnc_and_browser_only() {
    assert!(fixed_sender_targets(ProtocolType::AirPlay).is_none());
    assert!(fixed_sender_targets(ProtocolType::Miracast).is_none());

    let vnc = fixed_sender_targets(ProtocolType::VNC).unwrap();
    assert_eq!(vnc.len(), 11);
    assert_eq!(vnc[0].0, "VNC on 127.0.0.1:5900");
    assert_eq!(vnc[0].1, "127.0.0.1:5900");
    assert_eq!(vnc[10].1, "127.0.0.1:5910");

    let browser = fixed_sender_targets(ProtocolType::Browser).unwrap();
    assert_eq!(browser.len(), 1);
    assert_eq!(browser[0].0, "Local Browser (ws://localhost:8082/)");
    assert_eq!(browser[0].1, "ws://localhost:8082/");
}

#[test]
fn window_geometry_is_extracted_from_the_report() {
    let output = "Window 5a2f:\n\tat: 10,20\n\tsize: 800,600\n\tfloating: 0\n";
    assert_eq!(focused_window_geometry(output).as_deref(), Some("10,20,800x600"));
}

#[test]
fn window_geometry_without_size_is_rejected() {
    assert!(focused_window_geometry("Window 5a2f:\n\tat: 10,20\n").is_none());
    assert!(focused_window_geometry("\tsize: 800,600\n").is_none());
    assert!(focused_window_geometry("").is_none());
}
