//! The process supervisor: a keyed table of live casting processes and a
//! parallel table of last-known status per key.
//!
//! The supervisor itself is a pure state machine. Spawning and terminating the
//! operating-system processes is the caller's job: `plan_start` decides
//! whether a spawn is due and hands out the command template, and
//! `start_commit` / `stop_begin` / `stop_commit` record the outcome, so that
//! the table never holds two processes for one key. The caller must run each
//! plan/commit pair for a key under one critical section per key.

use vstd::prelude::*;
use vstd::pervasive::VecAdditionalExecFns;
use vstd::string::*;
use crate::protocol::{
    CommandSpec, KEY_COUNT, ProtocolStatus, ProtocolType, Role, extra_chars, key_index,
    key_index_spec, lemma_key_index_injective, protocol_args, protocol_command, protocol_label,
    protocol_program, role_label,
};

verus! {

/// A start request failed: the spawn of the external command failed with the
/// given diagnostic text.
#[derive(Debug)]
pub enum StartError {
    Spawn(String),
}

/// A stop request failed: terminating the external process failed with the
/// given diagnostic text. The table entry is removed nonetheless.
#[derive(Debug)]
pub enum StopError {
    Kill(String),
}

/// What a start request requires of the caller.
#[derive(Debug)]
pub enum StartPlan {
    /// A process already exists for the key; nothing is to be spawned.
    AlreadyRunning,
    /// No process exists: spawn this command and report the outcome through
    /// `start_commit`.
    Spawn(CommandSpec),
}

/// Ghost snapshot of one key's status.
#[verifier::ext_equal]
pub struct StatusView {
    pub running: bool,
    pub port: Option<u16>,
    pub error: Option<Seq<char>>,
    pub message: Option<Seq<char>>,
}

/// Ghost state of the supervisor: per key index, the token of the live
/// process (if any) and the last written status snapshot (if any).
#[verifier::ext_equal]
pub struct SupervisorView {
    pub procs: Seq<Option<u32>>,
    pub statuses: Seq<Option<StatusView>>,
}

impl SupervisorView {
    /// Both tables cover exactly the key space, and a key's status reports
    /// `running` exactly when the key holds a live process.
    pub open spec fn inv(self) -> bool {
        &&& self.procs.len() == KEY_COUNT
        &&& self.statuses.len() == KEY_COUNT
        &&& forall|k: int|
            0 <= k < KEY_COUNT ==> ((#[trigger] self.procs[k]) is Some <==> match self.statuses[k] {
                Some(st) => st.running,
                None => false,
            })
    }

    /// The live process token recorded for a key.
    pub open spec fn entry_of(self, p: ProtocolType, r: Role) -> Option<u32> {
        self.procs[key_index_spec(p, r)]
    }

    /// A live process is recorded for the key.
    pub open spec fn has_entry(self, p: ProtocolType, r: Role) -> bool {
        self.entry_of(p, r) is Some
    }

    /// The last status snapshot written for a key.
    pub open spec fn status_of(self, p: ProtocolType, r: Role) -> Option<StatusView> {
        self.statuses[key_index_spec(p, r)]
    }

    /// What a status poll reports as `running` for the key.
    pub open spec fn reported_running(self, p: ProtocolType, r: Role) -> bool {
        match self.status_of(p, r) {
            Some(st) => st.running,
            None => false,
        }
    }
}

/// The human-readable confirmation written when a key's process starts.
pub open spec fn start_ok_message(p: ProtocolType, r: Role) -> Seq<char> {
    protocol_label(p) + " "@ + role_label(r) + " started successfully."@
}

/// The human-readable confirmation written when a key's process is stopped.
pub open spec fn stop_ok_message(p: ProtocolType, r: Role) -> Seq<char> {
    protocol_label(p) + " "@ + role_label(r) + " stopped."@
}

/// The error text recorded verbatim when a spawn fails.
pub open spec fn start_fail_error(e: Seq<char>) -> Seq<char> {
    "Failed to start: "@ + e
}

/// The error text recorded verbatim when a termination fails.
pub open spec fn stop_fail_error(e: Seq<char>) -> Seq<char> {
    "Failed to stop: "@ + e
}

/// The remediation hint written beside a spawn failure.
pub open spec fn start_fail_hint() -> Seq<char> {
    "Check if required dependencies are installed and not already running."@
}

/// The hint written beside a termination failure.
pub open spec fn stop_fail_hint() -> Seq<char> {
    "Process may not have been running."@
}

/// The status written for a successful start.
pub open spec fn started_status(p: ProtocolType, r: Role, port: Option<u16>) -> StatusView {
    StatusView { running: true, port, error: None, message: Some(start_ok_message(p, r)) }
}

/// The status written for a failed spawn.
pub open spec fn spawn_failed_status(p: ProtocolType, r: Role, port: Option<u16>, e: Seq<char>)
    -> StatusView {
    StatusView {
        running: false,
        port,
        error: Some(start_fail_error(e)),
        message: Some(start_fail_hint()),
    }
}

/// The status written for an orderly stop.
pub open spec fn stopped_status(p: ProtocolType, r: Role) -> StatusView {
    StatusView { running: false, port: None, error: None, message: Some(stop_ok_message(p, r)) }
}

/// The status written when terminating the process failed.
pub open spec fn stop_failed_status(e: Seq<char>) -> StatusView {
    StatusView {
        running: false,
        port: None,
        error: Some(stop_fail_error(e)),
        message: Some(stop_fail_hint()),
    }
}

/// The state after recording a start outcome for a key: if the key already
/// held a process nothing changes; otherwise a successful spawn inserts the
/// process and a running status, and a failed spawn inserts no entry and a
/// failure status.
pub open spec fn start_transition(
    v: SupervisorView,
    p: ProtocolType,
    r: Role,
    port: Option<u16>,
    outcome: Result<u32, Seq<char>>,
) -> SupervisorView {
    let k = key_index_spec(p, r);
    if v.has_entry(p, r) {
        v
    } else {
        match outcome {
            Ok(pid) => SupervisorView {
                procs: v.procs.update(k, Some(pid)),
                statuses: v.statuses.update(k, Some(started_status(p, r, port))),
            },
            Err(e) => SupervisorView {
                procs: v.procs,
                statuses: v.statuses.update(k, Some(spawn_failed_status(p, r, port, e))),
            },
        }
    }
}

/// The state after removing a key's entry on a stop request: the entry is
/// gone and, when one existed, the status reports the orderly stop.
pub open spec fn stop_begin_transition(v: SupervisorView, p: ProtocolType, r: Role)
    -> SupervisorView {
    let k = key_index_spec(p, r);
    if v.has_entry(p, r) {
        SupervisorView {
            procs: v.procs.update(k, None),
            statuses: v.statuses.update(k, Some(stopped_status(p, r))),
        }
    } else {
        v
    }
}

/// The state after recording the termination outcome for a stopped key: the
/// entry stays removed, and a failed termination is recorded in the status.
pub open spec fn stop_commit_transition(
    v: SupervisorView,
    p: ProtocolType,
    r: Role,
    kill_result: Result<(), Seq<char>>,
) -> SupervisorView {
    let k = key_index_spec(p, r);
    match kill_result {
        Ok(u) => SupervisorView {
            procs: v.procs.update(k, None),
            statuses: v.statuses.update(k, Some(stopped_status(p, r))),
        },
        Err(e) => SupervisorView {
            procs: v.procs.update(k, None),
            statuses: v.statuses.update(k, Some(stop_failed_status(e))),
        },
    }
}

/// The keyed table of live casting processes and their status snapshots.
pub struct ProtocolSupervisor {
    procs: Vec<Option<u32>>,
    statuses: Vec<Option<ProtocolStatus>>,
}

/// The ghost view of one status snapshot.
pub open spec fn status_view(s: ProtocolStatus) -> StatusView {
    StatusView {
        running: s.running,
        port: s.port,
        error: match s.error {
            Some(e) => Some(e@),
            None => None,
        },
        message: match s.last_status_message {
            Some(m) => Some(m@),
            None => None,
        },
    }
}

impl View for ProtocolSupervisor {
    type V = SupervisorView;

    closed spec fn view(&self) -> SupervisorView {
        SupervisorView {
            procs: self.procs@,
            statuses: self.statuses@.map_values(
                |s: Option<ProtocolStatus>|
                    match s {
                        Some(st) => Some(status_view(st)),
                        None => None,
                    },
            ),
        }
    }
}

fn clone_opt_string(o: &Option<String>) -> (r: Option<String>)
    ensures
        r == o,
{
    match o {
        Some(s) => Some(s.clone()),
        None => None,
    }
}

/// A status message of the form "<protocol> <role><suffix>".
fn key_message(p: ProtocolType, r: Role, suffix: &str) -> (s: String)
    ensures
        s@ == protocol_label(p) + " "@ + role_label(r) + suffix@,
{
    let mut s = String::from_str(crate::protocol::protocol_label_str(p));
    s.append(" ");
    s.append(crate::protocol::role_label_str(r));
    s.append(suffix);
    assert(s@ =~= protocol_label(p) + " "@ + role_label(r) + suffix@);
    s
}

/// The concatenation of a fixed prefix and a diagnostic text.
fn prefixed_message(prefix: &str, rest: &str) -> (s: String)
    ensures
        s@ == prefix@ + rest@,
{
    let mut s = String::from_str(prefix);
    s.append(rest);
    s
}

impl ProtocolSupervisor {
    /// The supervisor is well-formed.
    pub open spec fn inv(self) -> bool {
        self@.inv()
    }

    /// A fresh supervisor: no processes, no statuses.
    pub fn new() -> (s: ProtocolSupervisor)
        ensures
            s.inv(),
            forall|p: ProtocolType, r: Role| !(#[trigger] s@.has_entry(p, r)),
            forall|p: ProtocolType, r: Role| (#[trigger] s@.status_of(p, r)) is None,
    {
        let mut procs: Vec<Option<u32>> = Vec::new();
        let mut statuses: Vec<Option<ProtocolStatus>> = Vec::new();
        let mut i: usize = 0;
        while i < KEY_COUNT
            invariant
                i <= KEY_COUNT,
                procs@.len() == i,
                statuses@.len() == i,
                forall|k: int| 0 <= k < i ==> (#[trigger] procs@[k]) is None,
                forall|k: int| 0 <= k < i ==> (#[trigger] statuses@[k]) is None,
            decreases KEY_COUNT - i,
        {
            procs.push(None);
            statuses.push(None);
            i += 1;
        }
        let s = ProtocolSupervisor { procs, statuses };
        proof {
            assert forall|p: ProtocolType, r: Role| !(#[trigger] s@.has_entry(p, r)) by {
                crate::protocol::lemma_key_index_bounds(p, r);
            }
            assert forall|p: ProtocolType, r: Role| (#[trigger] s@.status_of(p, r)) is None by {
                crate::protocol::lemma_key_index_bounds(p, r);
            }
        }
        s
    }

    /// Decides a start request: if a process already exists for the key, the
    /// request is a no-op; otherwise the caller is handed the command template
    /// bound to the key, parameterized by `port` and `extra`.
    pub fn plan_start(
        &self,
        protocol: ProtocolType,
        role: Role,
        port: Option<u16>,
        extra: Option<&str>,
    ) -> (plan: StartPlan)
        requires
            self.inv(),
        ensures
            plan is AlreadyRunning <==> self@.has_entry(protocol, role),
            plan matches StartPlan::Spawn(c) ==> c.program@ == protocol_program(protocol, role)
                && c.args.deep_view() == protocol_args(protocol, role, port, extra_chars(extra)),
    {
        let k = key_index(protocol, role);
        if self.procs[k].is_some() {
            StartPlan::AlreadyRunning
        } else {
            StartPlan::Spawn(protocol_command(protocol, role, port, extra))
        }
    }

    /// Records the outcome of the spawn requested by `plan_start`. When the
    /// key already holds a process the call changes nothing and succeeds (a
    /// second start is not an error). Otherwise a successful spawn inserts the
    /// process token with a running status; a failed spawn inserts nothing,
    /// records the error in the status, and returns it.
    pub fn start_commit(
        &mut self,
        protocol: ProtocolType,
        role: Role,
        port: Option<u16>,
        outcome: Result<u32, String>,
    ) -> (r: Result<(), StartError>)
        requires
            old(self).inv(),
        ensures
            final(self).inv(),
            final(self)@ == start_transition(
                old(self)@,
                protocol,
                role,
                port,
                match outcome {
                    Ok(pid) => Ok(pid),
                    Err(e) => Err(e@),
                },
            ),
            r is Ok <==> (old(self)@.has_entry(protocol, role) || outcome is Ok),
            r matches Err(StartError::Spawn(m)) ==> outcome matches Err(e) && m@ == e@,
    {
        let k = key_index(protocol, role);
        proof {
            crate::protocol::lemma_key_index_bounds(protocol, role);
        }
        if self.procs[k].is_some() {
            return Ok(());
        }
        let ghost pre = self@;
        match outcome {
            Ok(pid) => {
                self.procs.set(k, Some(pid));
                let message = key_message(protocol, role, " started successfully.");
                self.statuses.set(
                    k,
                    Some(
                        ProtocolStatus {
                            running: true,
                            port,
                            error: None,
                            last_status_message: Some(message),
                        },
                    ),
                );
                proof {
                    assert(self@ =~~= start_transition(pre, protocol, role, port, Ok(pid)));
                    lemma_transition_inv(pre, self@, k as int);
                }
                Ok(())
            },
            Err(e) => {
                let error_text = prefixed_message("Failed to start: ", e.as_str());
                self.statuses.set(
                    k,
                    Some(
                        ProtocolStatus {
                            running: false,
                            port,
                            error: Some(error_text),
                            last_status_message: Some(
                                String::from_str(
                                    "Check if required dependencies are installed and not already running.",
                                ),
                            ),
                        },
                    ),
                );
                proof {
                    assert(self@ =~~= start_transition(pre, protocol, role, port, Err(e@)));
                    lemma_transition_inv(pre, self@, k as int);
                }
                Err(StartError::Spawn(e))
            },
        }
    }

    /// Begins a stop request: removes the key's entry, if any, and hands back
    /// the token of the process the caller must now terminate (reporting the
    /// outcome through `stop_commit`). Without an entry this is a silent
    /// no-op. Afterwards the key's status never reports `running`.
    pub fn stop_begin(&mut self, protocol: ProtocolType, role: Role) -> (t: Option<u32>)
        requires
            old(self).inv(),
        ensures
            final(self).inv(),
            t == old(self)@.entry_of(protocol, role),
            final(self)@ == stop_begin_transition(old(self)@, protocol, role),
            !final(self)@.reported_running(protocol, role),
    {
        let k = key_index(protocol, role);
        proof {
            crate::protocol::lemma_key_index_bounds(protocol, role);
        }
        let entry = self.procs[k];
        if entry.is_some() {
            let ghost pre = self@;
            self.procs.set(k, None);
            let message = key_message(protocol, role, " stopped.");
            self.statuses.set(
                k,
                Some(
                    ProtocolStatus {
                        running: false,
                        port: None,
                        error: None,
                        last_status_message: Some(message),
                    },
                ),
            );
            proof {
                assert(self@ =~~= stop_begin_transition(pre, protocol, role));
                lemma_transition_inv(pre, self@, k as int);
            }
        }
        entry
    }

    /// Records the outcome of terminating a stopped key's process. The entry
    /// stays removed either way; a termination failure is recorded in the
    /// status and returned.
    pub fn stop_commit(
        &mut self,
        protocol: ProtocolType,
        role: Role,
        kill_result: Result<(), String>,
    ) -> (r: Result<(), StopError>)
        requires
            old(self).inv(),
        ensures
            final(self).inv(),
            final(self)@ == stop_commit_transition(
                old(self)@,
                protocol,
                role,
                match kill_result {
                    Ok(u) => Ok(u),
                    Err(e) => Err(e@),
                },
            ),
            r is Ok <==> kill_result is Ok,
            r matches Err(StopError::Kill(m)) ==> kill_result matches Err(e) && m@ == e@,
            !final(self)@.has_entry(protocol, role),
            !final(self)@.reported_running(protocol, role),
    {
        let k = key_index(protocol, role);
        proof {
            crate::protocol::lemma_key_index_bounds(protocol, role);
        }
        let ghost pre = self@;
        self.procs.set(k, None);
        match kill_result {
            Ok(()) => {
                let message = key_message(protocol, role, " stopped.");
                self.statuses.set(
                    k,
                    Some(
                        ProtocolStatus {
                            running: false,
                            port: None,
                            error: None,
                            last_status_message: Some(message),
                        },
                    ),
                );
                proof {
                    assert(self@ =~~= stop_commit_transition(pre, protocol, role, Ok(())));
                    lemma_transition_inv(pre, self@, k as int);
                }
                Ok(())
            },
            Err(e) => {
                let error_text = prefixed_message("Failed to stop: ", e.as_str());
                self.statuses.set(
                    k,
                    Some(
                        ProtocolStatus {
                            running: false,
                            port: None,
                            error: Some(error_text),
                            last_status_message: Some(
                                String::from_str("Process may not have been running."),
                            ),
                        },
                    ),
                );
                proof {
                    assert(self@ =~~= stop_commit_transition(pre, protocol, role, Err(e@)));
                    lemma_transition_inv(pre, self@, k as int);
                }
                Err(StopError::Kill(e))
            },
        }
    }

    /// The last recorded snapshot for the key, or the all-default
    /// "unknown/stopped" value if none was ever written. Never blocks and
    /// never touches the process itself.
    pub fn get_protocol_status(&self, protocol: ProtocolType, role: Role) -> (st: ProtocolStatus)
        requires
            self.inv(),
        ensures
            match self@.status_of(protocol, role) {
                Some(v) => status_view(st) == v,
                None => st == (ProtocolStatus {
                    running: false,
                    port: None,
                    error: None,
                    last_status_message: None,
                }),
            },
            st.running == self@.reported_running(protocol, role),
    {
        let k = key_index(protocol, role);
        proof {
            crate::protocol::lemma_key_index_bounds(protocol, role);
        }
        match &self.statuses[k] {
            Some(s) => {
                let st = ProtocolStatus {
                    running: s.running,
                    port: s.port,
                    error: clone_opt_string(&s.error),
                    last_status_message: clone_opt_string(&s.last_status_message),
                };
                st
            },
            None => ProtocolStatus {
                running: false,
                port: None,
                error: None,
                last_status_message: None,
            },
        }
    }
}

/// A view whose slots agree with a well-formed view everywhere but at one
/// consistent slot is well-formed.
proof fn lemma_transition_inv(pre: SupervisorView, post: SupervisorView, k: int)
    requires
        pre.inv(),
        post.procs.len() == KEY_COUNT,
        post.statuses.len() == KEY_COUNT,
        0 <= k < KEY_COUNT,
        forall|j: int| 0 <= j < KEY_COUNT && j != k ==> post.procs[j] == pre.procs[j],
        forall|j: int| 0 <= j < KEY_COUNT && j != k ==> post.statuses[j] == pre.statuses[j],
        (post.procs[k] is Some <==> match post.statuses[k] {
            Some(st) => st.running,
            None => false,
        }),
    ensures
        post.inv(),
{
}

/// Starting a key twice in sequence without an intervening stop leaves
/// exactly the one process of the first start: the second start changes
/// nothing, whatever its outcome.
pub proof fn lemma_start_idempotent(
    v: SupervisorView,
    p: ProtocolType,
    r: Role,
    port1: Option<u16>,
    port2: Option<u16>,
    pid: u32,
    second: Result<u32, Seq<char>>,
)
    requires
        v.inv(),
        !v.has_entry(p, r),
    ensures
        ({
            let v1 = start_transition(v, p, r, port1, Ok(pid));
            &&& v1.entry_of(p, r) == Some(pid)
            &&& start_transition(v1, p, r, port2, second) == v1
        }),
{
    crate::protocol::lemma_key_index_bounds(p, r);
}

/// After a stop, a status poll for the key reports `running == false`,
/// whether or not a process existed and whatever the termination outcome.
pub proof fn lemma_stop_then_status(
    v: SupervisorView,
    p: ProtocolType,
    r: Role,
    kill_result: Result<(), Seq<char>>,
)
    requires
        v.inv(),
    ensures
        !stop_begin_transition(v, p, r).reported_running(p, r),
        !stop_commit_transition(stop_begin_transition(v, p, r), p, r, kill_result)
            .reported_running(p, r),
{
    crate::protocol::lemma_key_index_bounds(p, r);
}

/// Operations on distinct keys are independent: a start recorded for one key
/// leaves the other key's entry and status untouched, and two starts for
/// distinct keys commute.
pub proof fn lemma_distinct_keys_independent(
    v: SupervisorView,
    p1: ProtocolType,
    r1: Role,
    port1: Option<u16>,
    o1: Result<u32, Seq<char>>,
    p2: ProtocolType,
    r2: Role,
    port2: Option<u16>,
    o2: Result<u32, Seq<char>>,
)
    requires
        v.inv(),
        !(p1 == p2 && r1 == r2),
    ensures
        start_transition(v, p1, r1, port1, o1).entry_of(p2, r2) == v.entry_of(p2, r2),
        start_transition(v, p1, r1, port1, o1).status_of(p2, r2) == v.status_of(p2, r2),
        start_transition(start_transition(v, p1, r1, port1, o1), p2, r2, port2, o2)
            == start_transition(start_transition(v, p2, r2, port2, o2), p1, r1, port1, o1),
{
    crate::protocol::lemma_key_index_bounds(p1, r1);
    crate::protocol::lemma_key_index_bounds(p2, r2);
    lemma_key_index_injective(p1, r1, p2, r2);
    let a = start_transition(start_transition(v, p1, r1, port1, o1), p2, r2, port2, o2);
    let b = start_transition(start_transition(v, p2, r2, port2, o2), p1, r1, port1, o1);
    assert(a =~~= b);
}

/// A spawn failure leaves no table entry for the key and records a non-empty
/// error text in its status.
pub proof fn lemma_spawn_failure_status(
    v: SupervisorView,
    p: ProtocolType,
    r: Role,
    port: Option<u16>,
    e: Seq<char>,
)
    requires
        v.inv(),
        !v.has_entry(p, r),
    ensures
        ({
            let v1 = start_transition(v, p, r, port, Err(e));
            &&& !v1.has_entry(p, r)
            &&& v1.status_of(p, r) matches Some(st) && st.error matches Some(msg) && msg.len() > 0
        }),
{
    crate::protocol::lemma_key_index_bounds(p, r);
    reveal_strlit("Failed to start: ");
}

} // verus!
