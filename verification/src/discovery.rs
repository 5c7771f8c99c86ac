//! Parsers for the text output of the device discovery tools, and the fixed
//! target lists of the protocols that need no scan.
//!
//! The surrounding application runs the scanning tools and hands their output
//! here; the parsers say exactly which lines become devices and which fields
//! they get.

use vstd::prelude::*;
use vstd::string::*;
use crate::protocol::ProtocolType;
use crate::text::{
    chars_of, contains_seq, contains_sub, dec_str, ends_with, has_prefix, has_suffix, join_space,
    join_space_spec, lemma_deep_view_chars, lines_of, lines_spec, push_u64, split_char,
    split_char_spec, split_ws, split_ws_spec, starts_with, string_of, trim_chars, trimmed,
};

verus! {

/// A wireless display discovered by scanning.
#[derive(Debug, Clone)]
pub struct WirelessDisplay {
    pub name: String,
    pub address: String,
    pub connected: bool,
}

/// An Android device reachable through the debug bridge.
#[derive(Debug, Clone)]
pub struct AndroidDevice {
    pub id: String,
    pub name: String,
    pub connected: bool,
}

/// A scan line announces a wireless display when it has at least three
/// whitespace-separated fields: an index, the address, and the name.
pub open spec fn wireless_line_fields(l: Seq<char>) -> Seq<Seq<char>> {
    split_ws_spec(l)
}

/// The (name, address) pairs announced by the scan lines, in order: for each
/// line with at least three fields, the second field is the address and the
/// remaining fields joined with spaces are the name.
pub open spec fn wireless_entries(lines: Seq<Seq<char>>) -> Seq<(Seq<char>, Seq<char>)>
    decreases lines.len(),
{
    if lines.len() == 0 {
        Seq::<(Seq<char>, Seq<char>)>::empty()
    } else {
        let rest = wireless_entries(lines.drop_last());
        let parts = wireless_line_fields(lines.last());
        if parts.len() >= 3 {
            rest.push((join_space_spec(parts.skip(2)), parts[1]))
        } else {
            rest
        }
    }
}

/// The displays announced by a scan output: one per qualifying line, in
/// order, none of them marked connected.
pub fn parse_wireless_displays(output: &str) -> (r: Vec<WirelessDisplay>)
    ensures
        ({
            let es = wireless_entries(lines_spec(output@));
            &&& r@.len() == es.len()
            &&& forall|i: int|
                0 <= i < es.len() ==> (#[trigger] r@[i]).name@ == es[i].0 && r@[i].address@ == es[
                    i
                ].1 && !r@[i].connected
        }),
{
    let cs = chars_of(output);
    let ls = lines_of(cs.as_slice());
    proof {
        lemma_deep_view_chars(ls);
    }
    let ghost lv = ls.deep_view();
    let n = ls.len();
    let mut r: Vec<WirelessDisplay> = Vec::new();
    let mut i: usize = 0;
    while i < n
        invariant
            lv == ls.deep_view(),
            lv == lines_spec(output@),
            n == ls@.len(),
            lv.len() == n,
            forall|j: int| 0 <= j < n ==> lv[j] == ls@[j]@,
            i <= n,
            ({
                let es = wireless_entries(lv.take(i as int));
                &&& r@.len() == es.len()
                &&& forall|t: int|
                    0 <= t < es.len() ==> (#[trigger] r@[t]).name@ == es[t].0 && r@[t].address@
                        == es[t].1 && !r@[t].connected
            }),
        decreases n - i,
    {
        let ghost pre = lv.take(i as int);
        let parts = split_ws(ls[i].as_slice());
        proof {
            lemma_deep_view_chars(parts);
            assert(lv.take(i + 1).drop_last() =~= pre);
            assert(lv.take(i + 1).last() == lv[i as int]);
        }
        if parts.len() >= 3 {
            let name_chars = join_space(&parts, 2);
            proof {
                assert(parts.deep_view().skip(2) =~= wireless_line_fields(lv[i as int]).skip(2));
            }
            let name = string_of(name_chars.as_slice());
            let address = string_of(parts[1].as_slice());
            r.push(WirelessDisplay { name, address, connected: false });
        }
        i += 1;
    }
    assert(lv.take(n as int) =~= lv);
    r
}

/// A debug-bridge line announces a device when it ends with the ready marker,
/// is not the listing header, and has at least two whitespace-separated
/// fields; the first field is the device id.
pub open spec fn android_line_ok(l: Seq<char>) -> bool {
    ends_with(l, "device"@) && !starts_with(l, "List of devices"@) && split_ws_spec(l).len() >= 2
}

/// The device ids announced by the debug-bridge output lines, in order.
pub open spec fn android_ids(lines: Seq<Seq<char>>) -> Seq<Seq<char>>
    decreases lines.len(),
{
    if lines.len() == 0 {
        Seq::<Seq<char>>::empty()
    } else {
        let rest = android_ids(lines.drop_last());
        if android_line_ok(lines.last()) {
            rest.push(split_ws_spec(lines.last())[0])
        } else {
            rest
        }
    }
}

/// The devices announced by the debug-bridge output: one per qualifying
/// line, in order, named by their id and not marked connected.
pub fn parse_android_devices(output: &str) -> (r: Vec<AndroidDevice>)
    ensures
        ({
            let ids = android_ids(lines_spec(output@));
            &&& r@.len() == ids.len()
            &&& forall|i: int|
                0 <= i < ids.len() ==> (#[trigger] r@[i]).id@ == ids[i] && r@[i].name@ == ids[i]
                    && !r@[i].connected
        }),
{
    let cs = chars_of(output);
    let ls = lines_of(cs.as_slice());
    proof {
        lemma_deep_view_chars(ls);
    }
    let ghost lv = ls.deep_view();
    let n = ls.len();
    let device_marker = chars_of("device");
    let header_marker = chars_of("List of devices");
    let mut r: Vec<AndroidDevice> = Vec::new();
    let mut i: usize = 0;
    while i < n
        invariant
            lv == ls.deep_view(),
            lv == lines_spec(output@),
            n == ls@.len(),
            lv.len() == n,
            forall|j: int| 0 <= j < n ==> lv[j] == ls@[j]@,
            device_marker@ == "device"@,
            header_marker@ == "List of devices"@,
            i <= n,
            ({
                let ids = android_ids(lv.take(i as int));
                &&& r@.len() == ids.len()
                &&& forall|t: int|
                    0 <= t < ids.len() ==> (#[trigger] r@[t]).id@ == ids[t] && r@[t].name@ == ids[
                        t
                    ] && !r@[t].connected
            }),
        decreases n - i,
    {
        let ghost pre = lv.take(i as int);
        proof {
            assert(lv.take(i + 1).drop_last() =~= pre);
            assert(lv.take(i + 1).last() == lv[i as int]);
        }
        let line = ls[i].as_slice();
        if has_suffix(line, device_marker.as_slice()) && !has_prefix(
            line,
            header_marker.as_slice(),
        ) {
            let parts = split_ws(line);
            proof {
                lemma_deep_view_chars(parts);
            }
            if parts.len() >= 2 {
                let id = string_of(parts[0].as_slice());
                let name = string_of(parts[0].as_slice());
                r.push(AndroidDevice { id, name, connected: false });
            }
        }
        i += 1;
    }
    assert(lv.take(n as int) =~= lv);
    r
}

/// A service-browser line announces an AirPlay target when it mentions an
/// IPv4 record of the AirPlay service and has more than eight
/// semicolon-separated fields; the fourth field is the name and the eighth
/// the address, both trimmed.
pub open spec fn airplay_line_ok(l: Seq<char>) -> bool {
    contains_seq(l, "IPv4"@) && contains_seq(l, "_airplay._tcp"@) && split_char_spec(l, ';').len()
        > 7
}

/// The (name, address) pairs announced by the service-browser output lines,
/// in order.
pub open spec fn airplay_entries(lines: Seq<Seq<char>>) -> Seq<(Seq<char>, Seq<char>)>
    decreases lines.len(),
{
    if lines.len() == 0 {
        Seq::<(Seq<char>, Seq<char>)>::empty()
    } else {
        let rest = airplay_entries(lines.drop_last());
        if airplay_line_ok(lines.last()) {
            let parts = split_char_spec(lines.last(), ';');
            rest.push((trimmed(parts[3]), trimmed(parts[7])))
        } else {
            rest
        }
    }
}

/// The (name, address) targets announced by a service-browser scan output:
/// one per qualifying line, in order.
pub fn parse_sender_targets(output: &str) -> (r: Vec<(String, String)>)
    ensures
        ({
            let es = airplay_entries(lines_spec(output@));
            &&& r@.len() == es.len()
            &&& forall|i: int|
                0 <= i < es.len() ==> (#[trigger] r@[i]).0@ == es[i].0 && r@[i].1@ == es[i].1
        }),
{
    let cs = chars_of(output);
    let ls = lines_of(cs.as_slice());
    proof {
        lemma_deep_view_chars(ls);
    }
    let ghost lv = ls.deep_view();
    let n = ls.len();
    let ipv4_marker = chars_of("IPv4");
    let service_marker = chars_of("_airplay._tcp");
    let mut r: Vec<(String, String)> = Vec::new();
    let mut i: usize = 0;
    while i < n
        invariant
            lv == ls.deep_view(),
            lv == lines_spec(output@),
            n == ls@.len(),
            lv.len() == n,
            forall|j: int| 0 <= j < n ==> lv[j] == ls@[j]@,
            ipv4_marker@ == "IPv4"@,
            service_marker@ == "_airplay._tcp"@,
            i <= n,
            ({
                let es = airplay_entries(lv.take(i as int));
                &&& r@.len() == es.len()
                &&& forall|t: int|
                    0 <= t < es.len() ==> (#[trigger] r@[t]).0@ == es[t].0 && r@[t].1@ == es[t].1
            }),
        decreases n - i,
    {
        let ghost pre = lv.take(i as int);
        proof {
            assert(lv.take(i + 1).drop_last() =~= pre);
            assert(lv.take(i + 1).last() == lv[i as int]);
        }
        let line = ls[i].as_slice();
        if contains_sub(line, ipv4_marker.as_slice()) && contains_sub(
            line,
            service_marker.as_slice(),
        ) {
            let parts = split_char(line, ';');
            proof {
                lemma_deep_view_chars(parts);
            }
            if parts.len() > 7 {
                let name_chars = trim_chars(parts[3].as_slice());
                let addr_chars = trim_chars(parts[7].as_slice());
                let name = string_of(name_chars.as_slice());
                let address = string_of(addr_chars.as_slice());
                r.push((name, address));
            }
        }
        i += 1;
    }
    assert(lv.take(n as int) =~= lv);
    r
}

/// The address of the candidate local VNC target number `i`: the loopback
/// address at port 5900 + `i`.
pub open spec fn vnc_target_addr(i: int) -> Seq<char> {
    "127.0.0.1:"@ + dec_str((5900 + i) as nat)
}

/// The label of the candidate local VNC target number `i`.
pub open spec fn vnc_target_name(i: int) -> Seq<char> {
    "VNC on "@ + vnc_target_addr(i)
}

/// The sender targets of the protocols that are discovered without a scan:
/// the eleven local VNC ports, and the local browser endpoint. AirPlay and
/// Miracast targets come from a scan instead (`parse_sender_targets`), so
/// those protocols yield nothing here.
pub fn fixed_sender_targets(protocol: ProtocolType) -> (r: Option<Vec<(String, String)>>)
    ensures
        r is None <==> protocol == ProtocolType::AirPlay || protocol == ProtocolType::Miracast,
        protocol == ProtocolType::VNC ==> (r matches Some(v) && v@.len() == 11 && forall|i: int|
            0 <= i < 11 ==> (#[trigger] v@[i]).0@ == vnc_target_name(i) && v@[i].1@
                == vnc_target_addr(i)),
        protocol == ProtocolType::Browser ==> (r matches Some(v) && v@.len() == 1 && v@[0].0@
            == "Local Browser (ws://localhost:8082/)"@ && v@[0].1@ == "ws://localhost:8082/"@),
{
    match protocol {
        ProtocolType::AirPlay => None,
        ProtocolType::Miracast => None,
        ProtocolType::VNC => {
            let mut v: Vec<(String, String)> = Vec::new();
            let mut i: usize = 0;
            while i < 11
                invariant
                    i <= 11,
                    v@.len() == i,
                    forall|t: int|
                        0 <= t < i ==> (#[trigger] v@[t]).0@ == vnc_target_name(t) && v@[t].1@
                            == vnc_target_addr(t),
                decreases 11 - i,
            {
                let mut addr = String::from_str("127.0.0.1:");
                push_u64(&mut addr, 5900 + i as u64);
                let mut name = String::from_str("VNC on ");
                name.append(addr.as_str());
                v.push((name, addr));
                i += 1;
            }
            Some(v)
        },
        ProtocolType::Browser => {
            let mut v: Vec<(String, String)> = Vec::new();
            v.push(
                (
                    String::from_str("Local Browser (ws://localhost:8082/)"),
                    String::from_str("ws://localhost:8082/"),
                ),
            );
            Some(v)
        },
    }
}

} // verus!
