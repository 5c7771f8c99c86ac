use hypr_xdisplay::layout::{
    brightness_command, layout_batch_command, layout_fits, rotation_command,
};
use hypr_xdisplay::monitor::{DeviceType, Monitor, MonitorMode, Orientation, Workspace};

fn ws() -> Workspace {
    Workspace { id: 1, name: "1".to_string() }
}

fn monitor(name: &str, width: i32, height: i32, refresh_millihz: u32) -> Monitor {
    Monitor {
        id: 0,
        name: name.to_string(),
        description: String::new(),
        make: String::new(),
        model: String::new(),
        serial: String::new(),
        width,
        height,
        refresh_millihz,
        x: 0,
        y: 0,
        active_workspace: ws(),
        special_workspace: ws(),
        reserved: [0, 0, 0, 0],
        scale_milli: 1000,
        transform: 0,
        focused: false,
        dpms_status: true,
        vrr: false,
        mode: None,
        orientation: None,
        scaling_milli: None,
        brightness_pct: None,
        device_type: Some(DeviceType::Physical),
    }
}

#[test]
fn copy_monitor_mirrors_first_extended() {
    // The mirroring monitor gets the Extended monitor's geometry at its
    // position, not its own 1280x720.
    let mut a = monitor("A", 1920, 1080, 60_000);
    a.mode = Some(MonitorMode::Extended);
    let mut b = monitor("B", 1280, 720, 30_000);
    b.mode = Some(MonitorMode::Copy);
    let monitors = vec![a, b];
    assert!(layout_fits(&monitors));
    let batch = layout_batch_command(&monitors).expect("two monitors yield a batch");
    assert_eq!(
        batch,
        "keyword monitor A,1920x1080@60,0x0; keyword monitor A scale 1;\
         keyword monitor B,1920x1080@60,0x0; keyword monitor B scale 1;"
    );
}

#[test]
fn extended_monitors_stack_at_running_width_offsets() {
    let mut a = monitor("A", 1920, 1080, 60_000);
    a.mode = Some(MonitorMode::Extended);
    let mut b = monitor("B", 1920, 1080, 60_000);
    b.mode = Some(MonitorMode::Extended);
    let mut c = monitor("C", 2560, 1440, 144_000);
    c.mode = Some(MonitorMode::Extended);
    let monitors = vec![a, b, c];
    assert!(layout_fits(&monitors));
    let batch = layout_batch_command(&monitors).unwrap();
    assert_eq!(
        batch,
        "keyword monitor A,1920x1080@60,0x0; keyword monitor A scale 1;\
         keyword monitor B,1920x1080@60,1920x0; keyword monitor B scale 1;\
         keyword monitor C,2560x1440@144,3840x0; keyword monitor C scale 1;"
    );
}

#[test]
fn copy_without_any_extended_keeps_own_geometry() {
    let mut c = monitor("C", 500, 400, 30_000);
    c.mode = Some(MonitorMode::Copy);
    c.y = 7;
    let monitors = vec![c];
    let batch = layout_batch_command(&monitors).unwrap();
    assert_eq!(batch, "keyword monitor C,500x400@30,0x7; keyword monitor C scale 1;");
}

#[test]
fn missing_mode_defaults_to_extended() {
    let a = monitor("A", 800, 600, 59_999);
    let mut b = monitor("B", 640, 480, 60_000);
    b.mode = Some(MonitorMode::Extended);
    let monitors = vec![a, b];
    let batch = layout_batch_command(&monitors).unwrap();
    assert_eq!(
        batch,
        "keyword monitor A,800x600@59.999,0x0; keyword monitor A scale 1;\
         keyword monitor B,640x480@60,800x0; keyword monitor B scale 1;"
    );
}

#[test]
fn scale_override_is_emitted_in_thousandths() {
    let mut a = monitor("A", 1000, 1000, 50_000);
    a.mode = Some(MonitorMode::Extended);
    a.scale_milli = 2000;
    a.scaling_milli = Some(1250);
    let monitors = vec![a];
    let batch = layout_batch_command(&monitors).unwrap();
    assert_eq!(batch, "keyword monitor A,1000x1000@50,0x0; keyword monitor A scale 1.25;");
}

#[test]
fn empty_layout_issues_no_compositor_call() {
    let monitors: Vec<Monitor> = Vec::new();
    assert!(layout_fits(&monitors));
    assert!(layout_batch_command(&monitors).is_none());
}

#[test]
fn oversized_widths_are_rejected_before_building() {
    let mut a = monitor("A", i32::MAX, 1080, 60_000);
    a.mode = Some(MonitorMode::Extended);
    let mut b = monitor("B", i32::MAX, 1080, 60_000);
    b.mode = Some(MonitorMode::Extended);
    let monitors = vec![a, b];
    assert!(!layout_fits(&monitors));
}

#[test]
fn brightness_on_non_physical_is_a_noop() {
    let mut m = monitor("W", 1920, 1080, 60_000);
    m.device_type = Some(DeviceType::Wireless);
    assert!(brightness_command(&m, 50).is_none());
    let mut m = monitor("N", 1920, 1080, 60_000);
    m.device_type = None;
    assert!(brightness_command(&m, 50).is_none());
}

#[test]
fn brightness_on_physical_builds_vendor_command() {
    let mut m = monitor("P", 1920, 1080, 60_000);
    m.serial = "SN1234".to_string();
    let c = brightness_command(&m, 73).expect("physical monitors get a command");
    assert_eq!(c.program, "ddcutil");
    assert_eq!(
        c.args,
        vec![
            "setvcp".to_string(),
            "10".to_string(),
            "73".to_string(),
            "--sn".to_string(),
            "SN1234".to_string(),
        ]
    );
}

#[test]
fn rotation_on_non_physical_is_a_noop() {
    let mut m = monitor("A", 1920, 1080, 60_000);
    m.device_type = Some(DeviceType::Android);
    assert!(rotation_command(&m, Orientation::Portrait).is_none());
}

#[test]
fn rotation_on_physical_emits_transform_directive() {
    let m = monitor("DP-1", 1920, 1080, 60_000);
    let c = rotation_command(&m, Orientation::Portrait).unwrap();
    assert_eq!(c.program, "hyprctl");
    assert_eq!(c.args, vec!["keyword monitor DP-1 transform 1".to_string()]);
    let c = rotation_command(&m, Orientation::Landscape).unwrap();
    assert_eq!(c.args, vec!["keyword monitor DP-1 transform 0".to_string()]);
}
