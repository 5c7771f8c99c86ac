//! Classification of the compositor's monitor event stream.

use vstd::prelude::*;
use crate::text::{chars_of, has_prefix, starts_with};

verus! {

/// One event read from the compositor's event stream.
#[derive(Debug)]
pub enum HyprlandEvent {
    MonitorAdded,
    MonitorRemoved,
    Unknown(String),
}

/// Classifies one line of the compositor's event stream: lines announcing an
/// added or removed monitor are recognized by their prefix, anything else is
/// passed through unchanged.
pub fn parse_event(line: &str) -> (e: HyprlandEvent)
    ensures
        e is MonitorAdded <==> starts_with(line@, "monitoradded>>"@),
        e is MonitorRemoved <==> !starts_with(line@, "monitoradded>>"@) && starts_with(
            line@,
            "monitorremoved>>"@,
        ),
        e matches HyprlandEvent::Unknown(s) ==> s@ == line@,
        !starts_with(line@, "monitoradded>>"@) && !starts_with(line@, "monitorremoved>>"@)
            ==> e is Unknown,
{
    let cs = chars_of(line);
    let added = chars_of("monitoradded>>");
    let removed = chars_of("monitorremoved>>");
    if has_prefix(cs.as_slice(), added.as_slice()) {
        HyprlandEvent::MonitorAdded
    } else if has_prefix(cs.as_slice(), removed.as_slice()) {
        HyprlandEvent::MonitorRemoved
    } else {
        HyprlandEvent::Unknown(line.to_owned())
    }
}

} // verus!
