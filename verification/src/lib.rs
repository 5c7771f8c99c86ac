//! Control-panel core for a Wayland compositor: a supervisor for long-running
//! casting and recording helper processes, and a monitor layout engine that
//! computes non-overlapping geometry (including mirrored "Copy" monitors) and
//! renders it as one atomic compositor command batch.
//!
//! The supervisor and the layout engine are pure state machines over plain
//! values; the surrounding application performs the actual process spawning,
//! signalling and compositor calls and feeds the outcomes back in.

pub mod discovery;
pub mod events;
pub mod layout;
pub mod monitor;
pub mod protocol;
pub mod recorder;
pub mod screenshot;
pub mod settings;
pub mod supervisor;
pub mod text;
