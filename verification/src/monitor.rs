//! The monitor data model.
//!
//! Geometry and rates are held as plain integers: refresh rates and scales in
//! thousandths (millihertz, milli-scale), brightness as a whole percentage.
//! The surrounding application converts from whatever the compositor reports.

use vstd::prelude::*;

verus! {

/// How a monitor participates in the layout: as distinct desktop real estate
/// at a computed offset, or as a mirror of the first Extended monitor.
#[derive(Clone, Copy, Debug, PartialEq, Eq, Structural)]
pub enum MonitorMode {
    Extended,
    Copy,
}

/// The desired orientation of a monitor.
#[derive(Clone, Copy, Debug, PartialEq, Eq, Structural)]
pub enum Orientation {
    Landscape,
    Portrait,
}

/// What kind of device backs a monitor. Only physical monitors accept
/// brightness and rotation commands.
#[derive(Clone, Copy, Debug, PartialEq, Eq, Structural)]
pub enum DeviceType {
    Physical,
    Wireless,
    Android,
    AirPlay,
    VNC,
}

/// A compositor workspace bound to a monitor.
#[derive(Debug, Clone)]
pub struct Workspace {
    pub id: i32,
    pub name: String,
}

/// One monitor as reported by the compositor, plus the user's desired layout
/// parameters. Sourced fresh from the compositor on every query.
#[derive(Debug, Clone)]
pub struct Monitor {
    pub id: i32,
    pub name: String,
    pub description: String,
    pub make: String,
    pub model: String,
    pub serial: String,
    pub width: i32,
    pub height: i32,
    /// Refresh rate in millihertz.
    pub refresh_millihz: u32,
    pub x: i32,
    pub y: i32,
    pub active_workspace: Workspace,
    pub special_workspace: Workspace,
    pub reserved: [i32; 4],
    /// Current scale in thousandths.
    pub scale_milli: u32,
    /// Current transform: 0 is landscape, 1 is portrait.
    pub transform: i32,
    pub focused: bool,
    pub dpms_status: bool,
    pub vrr: bool,
    /// Desired layout mode; absent means Extended.
    pub mode: Option<MonitorMode>,
    /// Desired orientation; absent means Landscape.
    pub orientation: Option<Orientation>,
    /// Desired scale override in thousandths.
    pub scaling_milli: Option<u32>,
    /// Brightness as a percentage (0..=100), physical monitors only.
    pub brightness_pct: Option<u8>,
    pub device_type: Option<DeviceType>,
}

impl Monitor {
    /// The monitor's effective layout mode: the desired mode, or Extended.
    pub open spec fn eff_mode(self) -> MonitorMode {
        match self.mode {
            Some(md) => md,
            None => MonitorMode::Extended,
        }
    }

    /// The monitor's effective orientation: the desired one, or Landscape.
    pub open spec fn eff_orientation(self) -> Orientation {
        match self.orientation {
            Some(o) => o,
            None => Orientation::Landscape,
        }
    }

    /// The scale submitted for the monitor: the override, or the current one.
    pub open spec fn eff_scale_milli(self) -> u32 {
        match self.scaling_milli {
            Some(s) => s,
            None => self.scale_milli,
        }
    }

    /// The monitor is backed by physical hardware.
    pub open spec fn is_physical(self) -> bool {
        self.device_type == Some(DeviceType::Physical)
    }

    pub fn mode_or_default(&self) -> (r: MonitorMode)
        ensures
            r == self.eff_mode(),
    {
        match self.mode {
            Some(md) => md,
            None => MonitorMode::Extended,
        }
    }

    pub fn orientation_or_default(&self) -> (r: Orientation)
        ensures
            r == self.eff_orientation(),
    {
        match self.orientation {
            Some(o) => o,
            None => Orientation::Landscape,
        }
    }

    pub fn scale_or_override(&self) -> (r: u32)
        ensures
            r == self.eff_scale_milli(),
    {
        match self.scaling_milli {
            Some(s) => s,
            None => self.scale_milli,
        }
    }

    pub fn physical(&self) -> (r: bool)
        ensures
            r == self.is_physical(),
    {
        match self.device_type {
            Some(DeviceType::Physical) => true,
            _ => false,
        }
    }
}

/// The compositor transform value of an orientation: 1 for portrait, 0 for
/// landscape.
pub open spec fn transform_of(o: Orientation) -> nat {
    match o {
        Orientation::Portrait => 1,
        Orientation::Landscape => 0,
    }
}

} // verus!
