//! The screen-recorder supervisor: a single-slot analog of the protocol
//! supervisor, plus the recorder command line built from the settings.
//!
//! Spawning and killing the recorder process is the caller's job; the
//! supervisor records the outcome. Pause and resume, by contrast, are plain
//! signals to the recorded process id and are performed here.

use vstd::prelude::*;
use vstd::pervasive::VecAdditionalExecFns;
use vstd::string::*;
use crate::protocol::CommandSpec;
use crate::settings::Settings;
use crate::supervisor::StartError;
use crate::text::{chars_eq, chars_of, dec_str, push_u64, split_ws, split_ws_spec, string_of,
    lemma_deep_view_chars};

verus! {

/// Why a pause or resume request failed.
#[derive(Debug)]
pub enum RecorderError {
    /// No recording session exists.
    NotRunning,
    /// The control signal could not be delivered.
    Signal(String),
}

/// One in-flight recording session: the recorder's OS process id and the
/// caller-supplied start timestamp in milliseconds, used to compute the
/// elapsed recording time.
#[derive(Clone, Copy, Debug, PartialEq, Eq, Structural)]
pub struct RecorderSession {
    pub pid: u32,
    pub started_ms: u64,
}

/// The single-slot supervisor for the screen recorder. At most one session
/// exists process-wide.
pub struct RecorderSupervisor {
    session: Option<RecorderSession>,
}

/// Relies on nix's `sys::signal::kill`: sends SIGUSR1 (pause) or SIGUSR2
/// (resume) to the process with the given id and reports the OS outcome.
#[verifier::external_body]
fn send_control_signal(pid: u32, resume: bool) -> (r: Result<(), String>)
    requires
        1 <= pid <= 0x7fff_ffff,
{
    let signal = if resume {
        nix::sys::signal::Signal::SIGUSR2
    } else {
        nix::sys::signal::Signal::SIGUSR1
    };
    match nix::sys::signal::kill(nix::unistd::Pid::from_raw(pid as i32), signal) {
        Ok(()) => Ok(()),
        Err(e) => Err(e.desc().to_owned()),
    }
}

impl RecorderSupervisor {
    /// The recorded process id is a valid OS process id.
    pub closed spec fn inv(self) -> bool {
        match self.session {
            Some(s) => 1 <= s.pid <= 0x7fff_ffff,
            None => true,
        }
    }

    /// The current session, if one is recording.
    pub closed spec fn session_of(self) -> Option<RecorderSession> {
        self.session
    }

    /// A fresh supervisor with no session.
    pub fn new() -> (r: RecorderSupervisor)
        ensures
            r.inv(),
            r.session_of() is None,
    {
        RecorderSupervisor { session: None }
    }

    /// A recording session exists. A start request must spawn only when this
    /// is false.
    pub fn is_recording(&self) -> (r: bool)
        ensures
            r == self.session_of() is Some,
    {
        self.session.is_some()
    }

    /// Records the outcome of spawning the recorder. When a session already
    /// exists the call changes nothing and succeeds (starting twice is not an
    /// error). Otherwise a successful spawn of process `pid` at time
    /// `started_ms` opens the session; a spawn failure leaves no session and
    /// returns the error.
    pub fn start_commit(&mut self, outcome: Result<RecorderSession, String>) -> (r: Result<
        (),
        StartError,
    >)
        requires
            old(self).inv(),
            outcome matches Ok(s) ==> 1 <= s.pid <= 0x7fff_ffff,
        ensures
            final(self).inv(),
            old(self).session_of() is Some ==> *final(self) == *old(self) && r is Ok,
            old(self).session_of() is None ==> match outcome {
                Ok(s) => final(self).session_of() == Some(s) && r is Ok,
                Err(e) => final(self).session_of() is None && (r matches Err(StartError::Spawn(m))
                    && m@ == e@),
            },
    {
        if self.session.is_some() {
            return Ok(());
        }
        match outcome {
            Ok(s) => {
                self.session = Some(s);
                Ok(())
            },
            Err(e) => Err(StartError::Spawn(e)),
        }
    }

    /// Closes the session, if any, handing back the session whose process the
    /// caller must now terminate. Without a session this is a silent no-op.
    pub fn stop_begin(&mut self) -> (t: Option<RecorderSession>)
        requires
            old(self).inv(),
        ensures
            final(self).inv(),
            t == old(self).session_of(),
            final(self).session_of() is None,
    {
        let t = self.session;
        self.session = None;
        t
    }

    /// Sends the pause signal to the running recorder, failing with
    /// `NotRunning` if no session exists. With a session, the outcome is that
    /// of delivering the signal.
    pub fn pause_recording(&self) -> (r: Result<(), RecorderError>)
        requires
            self.inv(),
        ensures
            self.session_of() is None <==> r matches Err(RecorderError::NotRunning),
            self.session_of() is Some ==> r is Ok || r matches Err(RecorderError::Signal(_)),
    {
        match &self.session {
            Some(s) => match send_control_signal(s.pid, false) {
                Ok(()) => Ok(()),
                Err(e) => Err(RecorderError::Signal(e)),
            },
            None => Err(RecorderError::NotRunning),
        }
    }

    /// Sends the resume signal to the running recorder, failing with
    /// `NotRunning` if no session exists. With a session, the outcome is that
    /// of delivering the signal.
    pub fn resume_recording(&self) -> (r: Result<(), RecorderError>)
        requires
            self.inv(),
        ensures
            self.session_of() is None <==> r matches Err(RecorderError::NotRunning),
            self.session_of() is Some ==> r is Ok || r matches Err(RecorderError::Signal(_)),
    {
        match &self.session {
            Some(s) => match send_control_signal(s.pid, true) {
                Ok(()) => Ok(()),
                Err(e) => Err(RecorderError::Signal(e)),
            },
            None => Err(RecorderError::NotRunning),
        }
    }

    /// The elapsed recording time in milliseconds at time `now_ms`, or `None`
    /// when nothing is recording. A clock that went backwards reads as zero.
    pub fn elapsed_ms(&self, now_ms: u64) -> (r: Option<u64>)
        ensures
            match self.session_of() {
                Some(s) => r == Some(if now_ms >= s.started_ms {
                    (now_ms - s.started_ms) as u64
                } else {
                    0u64
                }),
                None => r is None,
            },
    {
        match &self.session {
            Some(s) => {
                if now_ms >= s.started_ms {
                    Some(now_ms - s.started_ms)
                } else {
                    Some(0)
                }
            },
            None => None,
        }
    }
}

/// The recorder's argument list, assembled from the settings: output path and
/// codec always; framerate, capture geometry, hardware acceleration, audio
/// device and audio source when configured ("None" suppresses audio, and
/// "Default" selects the default source); then the free-form extra arguments,
/// split on whitespace.
pub open spec fn recorder_args(s: Settings, path: Seq<char>) -> Seq<Seq<char>> {
    seq!["-f"@, path, "-c"@, s.recorder_codec@] + (match s.recorder_framerate {
        Some(fps) => seq!["-r"@, dec_str(fps as nat)],
        None => Seq::<Seq<char>>::empty(),
    }) + (match s.recorder_resolution {
        Some(res) => seq!["-g"@, res@],
        None => Seq::<Seq<char>>::empty(),
    }) + (if s.recorder_hardware_accel == Some(true) {
        seq!["--hwaccel"@]
    } else {
        Seq::<Seq<char>>::empty()
    }) + (match s.recorder_audio_device {
        Some(dev) => seq!["--audio"@, dev@],
        None => Seq::<Seq<char>>::empty(),
    }) + (match s.recorder_audio_source {
        Some(src) => if src@ == "None"@ {
            Seq::<Seq<char>>::empty()
        } else if src@ == "Default"@ {
            seq!["--audio"@]
        } else {
            seq!["--audio"@, src@]
        },
        None => Seq::<Seq<char>>::empty(),
    }) + (match s.recorder_advanced_args {
        Some(adv) => split_ws_spec(adv@),
        None => Seq::<Seq<char>>::empty(),
    })
}

fn push_arg(args: &mut Vec<String>, a: &str)
    ensures
        final(args).deep_view() == old(args).deep_view().push(a@),
{
    let ghost before = args.deep_view();
    args.push(a.to_owned());
    assert(args.deep_view() =~~= before.push(a@));
}

fn push_arg_string(args: &mut Vec<String>, a: String)
    ensures
        final(args).deep_view() == old(args).deep_view().push(a@),
{
    let ghost before = args.deep_view();
    let ghost av = a@;
    args.push(a);
    assert(args.deep_view() =~~= before.push(av));
}

/// The external command that starts the recorder, writing to `output_path`
/// with the encode parameters of `settings`.
#[verifier::rlimit(80)]
pub fn recorder_command(settings: &Settings, output_path: &str) -> (c: CommandSpec)
    ensures
        c.program@ == "wf-recorder"@,
        c.args.deep_view() == recorder_args(*settings, output_path@),
{
    let mut args: Vec<String> = Vec::new();
    push_arg(&mut args, "-f");
    push_arg(&mut args, output_path);
    push_arg(&mut args, "-c");
    push_arg_string(&mut args, settings.recorder_codec.clone());
    if let Some(fps) = settings.recorder_framerate {
        push_arg(&mut args, "-r");
        let mut f = String::new();
        push_u64(&mut f, fps as u64);
        push_arg_string(&mut args, f);
    }
    if let Some(res) = &settings.recorder_resolution {
        push_arg(&mut args, "-g");
        push_arg_string(&mut args, res.clone());
    }
    let hwaccel = match settings.recorder_hardware_accel {
        Some(b) => b,
        None => false,
    };
    if hwaccel {
        push_arg(&mut args, "--hwaccel");
    }
    if let Some(dev) = &settings.recorder_audio_device {
        push_arg(&mut args, "--audio");
        push_arg_string(&mut args, dev.clone());
    }
    if let Some(src) = &settings.recorder_audio_source {
        let src_chars = chars_of(src.as_str());
        let none_chars = chars_of("None");
        let default_chars = chars_of("Default");
        if !chars_eq(src_chars.as_slice(), none_chars.as_slice()) {
            push_arg(&mut args, "--audio");
            if !chars_eq(src_chars.as_slice(), default_chars.as_slice()) {
                push_arg_string(&mut args, src.clone());
            }
        }
    }
    let ghost base = args.deep_view();
    if let Some(adv) = &settings.recorder_advanced_args {
        let adv_chars = chars_of(adv.as_str());
        let tokens = split_ws(adv_chars.as_slice());
        proof {
            lemma_deep_view_chars(tokens);
        }
        let mut i: usize = 0;
        while i < tokens.len()
            invariant
                i <= tokens@.len(),
                tokens.deep_view().len() == tokens@.len(),
                forall|j: int| 0 <= j < tokens@.len() ==> tokens.deep_view()[j] == tokens@[j]@,
                tokens.deep_view() == split_ws_spec(adv_chars@),
                adv_chars@ == adv@,
                args.deep_view() == base + tokens.deep_view().take(i as int),
            decreases tokens@.len() - i,
        {
            let t = string_of(tokens[i].as_slice());
            push_arg_string(&mut args, t);
            i += 1;
            assert(args.deep_view() =~~= base + tokens.deep_view().take(i as int));
        }
        assert(tokens.deep_view().take(tokens@.len() as int) =~= tokens.deep_view());
    }
    assert(args.deep_view() =~~= recorder_args(*settings, output_path@));
    CommandSpec { program: String::from_str("wf-recorder"), args }
}

} // verus!
