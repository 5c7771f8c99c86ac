//! Casting protocols, session roles, per-key status snapshots, and the
//! external command template bound to each (protocol, role) key.

use vstd::prelude::*;
use vstd::string::*;
use crate::text::dec_str;
use crate::text::push_u64;

verus! {

/// A casting protocol supported by the control panel.
#[derive(Clone, Copy, Debug, PartialEq, Eq, Hash, Structural)]
pub enum ProtocolType {
    AirPlay,
    Miracast,
    VNC,
    Browser,
}

/// Whether the local machine acts as the receiving or the sending end.
#[derive(Clone, Copy, Debug, PartialEq, Eq, Hash, Structural)]
pub enum Role {
    Receiver,
    Sender,
}

/// Number of distinct (protocol, role) keys.
pub const KEY_COUNT: usize = 8;

impl ProtocolType {
    /// Dense numbering of the protocols, used to index the supervisor tables.
    pub open spec fn index_spec(self) -> int {
        match self {
            ProtocolType::AirPlay => 0,
            ProtocolType::Miracast => 1,
            ProtocolType::VNC => 2,
            ProtocolType::Browser => 3,
        }
    }

    pub fn index(self) -> (i: usize)
        ensures
            i == self.index_spec(),
    {
        match self {
            ProtocolType::AirPlay => 0,
            ProtocolType::Miracast => 1,
            ProtocolType::VNC => 2,
            ProtocolType::Browser => 3,
        }
    }
}

impl Role {
    pub open spec fn index_spec(self) -> int {
        match self {
            Role::Receiver => 0,
            Role::Sender => 1,
        }
    }

    pub fn index(self) -> (i: usize)
        ensures
            i == self.index_spec(),
    {
        match self {
            Role::Receiver => 0,
            Role::Sender => 1,
        }
    }
}

/// Dense numbering of the (protocol, role) key space.
pub open spec fn key_index_spec(protocol: ProtocolType, role: Role) -> int {
    protocol.index_spec() * 2 + role.index_spec()
}

/// The key index fits the supervisor tables and identifies the key uniquely.
pub proof fn lemma_key_index_bounds(protocol: ProtocolType, role: Role)
    ensures
        0 <= key_index_spec(protocol, role) < KEY_COUNT,
{
}

/// Distinct keys have distinct indices.
pub proof fn lemma_key_index_injective(p1: ProtocolType, r1: Role, p2: ProtocolType, r2: Role)
    ensures
        key_index_spec(p1, r1) == key_index_spec(p2, r2) ==> p1 == p2 && r1 == r2,
{
}

pub fn key_index(protocol: ProtocolType, role: Role) -> (i: usize)
    ensures
        i == key_index_spec(protocol, role),
        i < KEY_COUNT,
{
    protocol.index() * 2 + role.index()
}

/// Last-known state of one supervised (protocol, role) key: a plain snapshot,
/// written by the supervisor in the same step as the table change it reports.
#[derive(Debug)]
pub struct ProtocolStatus {
    pub running: bool,
    pub port: Option<u16>,
    pub error: Option<String>,
    pub last_status_message: Option<String>,
}

impl ProtocolStatus {
    /// The "unknown/stopped" snapshot reported for keys never written to.
    pub fn unknown() -> (s: ProtocolStatus)
        ensures
            !s.running,
            s.port is None,
            s.error is None,
            s.last_status_message is None,
    {
        ProtocolStatus { running: false, port: None, error: None, last_status_message: None }
    }
}

/// The display name of a protocol, as used in status messages.
pub open spec fn protocol_label(p: ProtocolType) -> Seq<char> {
    match p {
        ProtocolType::AirPlay => "AirPlay"@,
        ProtocolType::Miracast => "Miracast"@,
        ProtocolType::VNC => "VNC"@,
        ProtocolType::Browser => "Browser"@,
    }
}

/// The display name of a role, as used in status messages.
pub open spec fn role_label(r: Role) -> Seq<char> {
    match r {
        Role::Receiver => "Receiver"@,
        Role::Sender => "Sender"@,
    }
}

pub fn protocol_label_str(p: ProtocolType) -> (s: &'static str)
    ensures
        s@ == protocol_label(p),
{
    match p {
        ProtocolType::AirPlay => "AirPlay",
        ProtocolType::Miracast => "Miracast",
        ProtocolType::VNC => "VNC",
        ProtocolType::Browser => "Browser",
    }
}

pub fn role_label_str(r: Role) -> (s: &'static str)
    ensures
        s@ == role_label(r),
{
    match r {
        Role::Receiver => "Receiver",
        Role::Sender => "Sender",
    }
}

/// An external command to be spawned: a program name and its arguments.
#[derive(Debug)]
pub struct CommandSpec {
    pub program: String,
    pub args: Vec<String>,
}

/// The characters of an optional extra parameter, empty when absent.
pub open spec fn extra_chars(extra: Option<&str>) -> Seq<char> {
    match extra {
        Some(s) => s@,
        None => Seq::<char>::empty(),
    }
}

/// The program spawned for a (protocol, role) key.
pub open spec fn protocol_program(p: ProtocolType, r: Role) -> Seq<char> {
    match r {
        Role::Receiver => match p {
            ProtocolType::AirPlay => "miracle-sinkctl"@,
            ProtocolType::Miracast => "miracle-sinkctl"@,
            ProtocolType::VNC => "wayvnc"@,
            ProtocolType::Browser => "waypipe"@,
        },
        Role::Sender => match p {
            ProtocolType::AirPlay => "gst-launch-1.0"@,
            ProtocolType::Miracast => "gst-launch-1.0"@,
            ProtocolType::VNC => "x11vnc"@,
            ProtocolType::Browser => "ffmpeg"@,
        },
    }
}

/// The argument list of the sender pipeline shared by AirPlay and Miracast:
/// a capture-convert-encode chain streamed to the destination address.
pub open spec fn stream_sender_args(extra: Seq<char>) -> Seq<Seq<char>> {
    seq![
        "ximagesrc"@,
        "!"@,
        "videoconvert"@,
        "!"@,
        "jpegenc"@,
        "!"@,
        "rtpjpegpay ! udpsink host="@ + extra + " port=5000"@,
    ]
}

/// The arguments spawned for a (protocol, role) key, given the optional
/// listen port and extra parameter (the destination address for senders).
pub open spec fn protocol_args(p: ProtocolType, r: Role, port: Option<u16>, extra: Seq<char>)
    -> Seq<Seq<char>> {
    match r {
        Role::Receiver => match p {
            ProtocolType::AirPlay => seq!["--daemon"@],
            ProtocolType::Miracast => seq!["--daemon"@],
            ProtocolType::VNC => match port {
                Some(pt) => seq!["0.0.0.0:"@ + dec_str(pt as nat)],
                None => Seq::<Seq<char>>::empty(),
            },
            ProtocolType::Browser => seq!["server"@, "--websocket"@] + (match port {
                Some(pt) => seq!["--port"@, dec_str(pt as nat)],
                None => Seq::<Seq<char>>::empty(),
            }),
        },
        Role::Sender => match p {
            ProtocolType::AirPlay => stream_sender_args(extra),
            ProtocolType::Miracast => stream_sender_args(extra),
            ProtocolType::VNC => match port {
                Some(pt) => seq!["-rfbport"@, dec_str(pt as nat)],
                None => Seq::<Seq<char>>::empty(),
            },
            ProtocolType::Browser => seq![
                "-f"@,
                "x11grab"@,
                "-i"@,
                ":0"@,
                "-f"@,
                "mpeg1video"@,
                "-b"@,
                "800k"@,
                "-r"@,
                "30"@,
                match port {
                    Some(pt) => "ws://localhost:"@ + dec_str(pt as nat) + "/"@,
                    None => "ws://localhost:8082/"@,
                },
            ],
        },
    }
}

fn push_arg(args: &mut Vec<String>, a: &str)
    ensures
        final(args).deep_view() == old(args).deep_view().push(a@),
{
    let ghost before = args.deep_view();
    args.push(a.to_owned());
    assert(args.deep_view() =~~= before.push(a@));
}

fn push_arg_string(args: &mut Vec<String>, a: String)
    ensures
        final(args).deep_view() == old(args).deep_view().push(a@),
{
    let ghost before = args.deep_view();
    let ghost av = a@;
    args.push(a);
    assert(args.deep_view() =~~= before.push(av));
}

/// The external command template bound to a (protocol, role) key,
/// parameterized by the optional port and extra parameter.
pub fn protocol_command(p: ProtocolType, r: Role, port: Option<u16>, extra: Option<&str>) -> (c:
    CommandSpec)
    ensures
        c.program@ == protocol_program(p, r),
        c.args.deep_view() == protocol_args(p, r, port, extra_chars(extra)),
{
    let program = String::from_str(protocol_label_cmd(p, r));
    let mut args: Vec<String> = Vec::new();
    match r {
        Role::Receiver => match p {
            ProtocolType::AirPlay => {
                push_arg(&mut args, "--daemon");
            },
            ProtocolType::Miracast => {
                push_arg(&mut args, "--daemon");
            },
            ProtocolType::VNC => {
                if let Some(pt) = port {
                    let mut s = String::from_str("0.0.0.0:");
                    push_u64(&mut s, pt as u64);
                    push_arg_string(&mut args, s);
                }
            },
            ProtocolType::Browser => {
                push_arg(&mut args, "server");
                push_arg(&mut args, "--websocket");
                if let Some(pt) = port {
                    push_arg(&mut args, "--port");
                    let mut s = String::new();
                    push_u64(&mut s, pt as u64);
                    push_arg_string(&mut args, s);
                }
            },
        },
        Role::Sender => match p {
            ProtocolType::AirPlay => {
                push_stream_sender_args(&mut args, extra);
            },
            ProtocolType::Miracast => {
                push_stream_sender_args(&mut args, extra);
            },
            ProtocolType::VNC => {
                if let Some(pt) = port {
                    push_arg(&mut args, "-rfbport");
                    let mut s = String::new();
                    push_u64(&mut s, pt as u64);
                    push_arg_string(&mut args, s);
                }
            },
            ProtocolType::Browser => {
                push_arg(&mut args, "-f");
                push_arg(&mut args, "x11grab");
                push_arg(&mut args, "-i");
                push_arg(&mut args, ":0");
                push_arg(&mut args, "-f");
                push_arg(&mut args, "mpeg1video");
                push_arg(&mut args, "-b");
                push_arg(&mut args, "800k");
                push_arg(&mut args, "-r");
                push_arg(&mut args, "30");
                match port {
                    Some(pt) => {
                        let mut s = String::from_str("ws://localhost:");
                        push_u64(&mut s, pt as u64);
                        s.append("/");
                        push_arg_string(&mut args, s);
                    },
                    None => {
                        push_arg(&mut args, "ws://localhost:8082/");
                    },
                }
            },
        },
    }
    assert(args.deep_view() =~~= protocol_args(p, r, port, extra_chars(extra)));
    CommandSpec { program, args }
}

fn protocol_label_cmd(p: ProtocolType, r: Role) -> (s: &'static str)
    ensures
        s@ == protocol_program(p, r),
{
    match r {
        Role::Receiver => match p {
            ProtocolType::AirPlay => "miracle-sinkctl",
            ProtocolType::Miracast => "miracle-sinkctl",
            ProtocolType::VNC => "wayvnc",
            ProtocolType::Browser => "waypipe",
        },
        Role::Sender => match p {
            ProtocolType::AirPlay => "gst-launch-1.0",
            ProtocolType::Miracast => "gst-launch-1.0",
            ProtocolType::VNC => "x11vnc",
            ProtocolType::Browser => "ffmpeg",
        },
    }
}

fn push_stream_sender_args(args: &mut Vec<String>, extra: Option<&str>)
    ensures
        final(args).deep_view() == old(args).deep_view() + stream_sender_args(
            extra_chars(extra),
        ),
{
    push_arg(args, "ximagesrc");
    push_arg(args, "!");
    push_arg(args, "videoconvert");
    push_arg(args, "!");
    push_arg(args, "jpegenc");
    push_arg(args, "!");
    let mut sink = String::from_str("rtpjpegpay ! udpsink host=");
    if let Some(e) = extra {
        sink.append(e);
    }
    sink.append(" port=5000");
    push_arg_string(args, sink);
    assert(final(args).deep_view() =~~= old(args).deep_view() + stream_sender_args(
        extra_chars(extra),
    ));
}

} // verus!
