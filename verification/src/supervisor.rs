//! The connectivity state machine.
//!
//! The supervisor owns the radio: every radio-mutating operation
//! (configure, start, connect, scan) is issued by it and by nothing else.
//! It is written as a step function from the current phase and one event
//! to the next phase and a single action. The surrounding program performs
//! the action — a radio call, a timer, an event wait — and feeds the
//! outcome back in as the next event. One operation is in flight at a
//! time: while one is, every unrelated event leaves the machine where it
//! is and asks for nothing. A connect attempt resolves only when the
//! radio reports success or failure: the machine sets no timeout of its
//! own on it.

use vstd::prelude::*;
use crate::config::{AccessPointConfig, StationConfig};
use crate::scan::{ScanEntry, ScanList};

verus! {

/// Fixed backoff before a retry, and after a disconnect or stop event.
pub const BACKOFF_MS: u64 = 5000;

/// Settle delay after a successful connection.
pub const SETTLE_MS: u64 = 1000;

/// Idle wait between supervision cycles when both roles are up.
pub const IDLE_MS: u64 = 5000;

/// Radio operating state as observed from the radio.
#[derive(Clone, Copy, PartialEq, Eq, Structural, Debug)]
pub enum RadioState {
    Idle,
    StaConnected,
    StaDisconnected,
    ApStarted,
    ApStopped,
}

/// Where the supervisor stands in its cycle. Each phase names the one
/// action whose outcome the supervisor is waiting for.
#[derive(Clone, Copy, PartialEq, Eq, Structural, Debug)]
pub enum Phase {
    /// A radio-state query is out.
    Inspect,
    /// Suspended until the station disconnects.
    AwaitStaDisconnect,
    /// Suspended until the access point stops.
    AwaitApStop,
    /// Pausing for the fixed backoff after an event woke the cycle.
    PostEventPause,
    /// An is-started query is out.
    EnsureStarted,
    /// The access-point configuration and radio start are in flight.
    Starting,
    /// An is-connected query is out.
    CheckConnected,
    /// Pausing for the fixed backoff before a scan.
    PreScanBackoff,
    /// A bounded scan is in flight.
    Scanning,
    /// The station configuration and connect attempt are in flight.
    Connecting,
    /// Pausing for the settle delay after a successful connection.
    Settling,
    /// Pausing for the fixed backoff after a failed connection.
    ConnectBackoff,
    /// Pausing for the idle wait; both roles were found up.
    IdlePause,
}

/// Outcome of the pending action, handed back by the surrounding program.
pub enum Event {
    /// Reply to a radio-state query.
    RadioStateIs(RadioState),
    /// The awaited station disconnect happened.
    StaDisconnected,
    /// The awaited access-point stop happened.
    ApStopped,
    /// A requested delay elapsed.
    TimerElapsed,
    /// Reply to an is-started query.
    StartedIs(bool),
    /// The configure-and-start operation finished; true on success.
    StartDone(bool),
    /// Reply to an is-connected query.
    ConnectedIs(bool),
    /// The scan finished: its bounded result list, or `None` on a scan
    /// failure.
    ScanDone(Option<ScanList>),
    /// The connect attempt finished; true on success.
    ConnectDone(bool),
}

/// The one action the surrounding program is asked to perform next.
#[derive(Clone, Copy, PartialEq, Eq, Structural, Debug)]
pub enum Action {
    /// Nothing new: keep waiting for the pending outcome.
    Idle,
    /// Ask the radio for its operating state.
    QueryRadioState,
    /// Suspend until the station disconnects.
    WaitStaDisconnect,
    /// Suspend until the access point stops.
    WaitApStop,
    /// Wait the given number of milliseconds.
    Delay(u64),
    /// Ask the radio whether it is started.
    QueryStarted,
    /// Apply the supervisor's access-point configuration and start the
    /// radio.
    ApplyApConfigAndStart,
    /// Ask the radio whether the station is connected.
    QueryConnected,
    /// Issue a bounded scan.
    Scan,
    /// Apply the supervisor's station configuration and attempt to
    /// connect.
    ApplyStaConfigAndConnect,
}

/// A condition worth reporting on the diagnostic channel.
#[derive(Clone, Copy, PartialEq, Eq, Structural, Debug)]
pub enum Report {
    /// The radio started; the access point is up.
    RadioStarted,
    /// The radio refused to start: fatal for this attempt, surfaced, and
    /// the cycle continues.
    RadioStartFailed,
    /// The scan failed; treated as no match found this cycle.
    ScanFailed,
    /// No scan entry carried the desired SSID.
    NetworkNotFound,
    /// The desired network was found; a connect attempt follows.
    NetworkFound,
    /// The station connected.
    Connected,
    /// The connect attempt failed; retried after the backoff.
    ConnectFailed,
}

/// What one step hands back: the next action, and at most one report.
pub struct StepOutput {
    pub action: Action,
    pub report: Option<Report>,
}

/// The connectivity state machine. Constructed once with the radio's
/// exclusive handle held by its driver; the configurations are fixed for
/// the supervisor's lifetime.
pub struct Supervisor {
    pub phase: Phase,
    pub ap: AccessPointConfig,
    pub desired: StationConfig,
}

/// First entry of `entries`, in order, whose SSID equals `ssid`.
pub open spec fn spec_select(entries: Seq<ScanEntry>, ssid: Seq<char>) -> Option<int>
    decreases entries.len(),
{
    if entries.len() == 0 {
        None
    } else if entries[0].ssid@ == ssid {
        Some(0int)
    } else {
        match spec_select(entries.drop_first(), ssid) {
            Some(i) => Some(i + 1),
            None => None,
        }
    }
}

/// `spec_select` returns the least matching index, and `None` exactly
/// when no entry matches.
pub proof fn lemma_spec_select_props(entries: Seq<ScanEntry>, ssid: Seq<char>)
    ensures
        match spec_select(entries, ssid) {
            Some(i) => {
                &&& 0 <= i < entries.len()
                &&& entries[i].ssid@ == ssid
                &&& forall|j: int| 0 <= j < i ==> entries[j].ssid@ != ssid
            },
            None => forall|j: int| 0 <= j < entries.len() ==> entries[j].ssid@ != ssid,
        },
    decreases entries.len(),
{
    if entries.len() > 0 && entries[0].ssid@ != ssid {
        lemma_spec_select_props(entries.drop_first(), ssid);
        let rest = entries.drop_first();
        assert(forall|j: int| 1 <= j < entries.len() ==> entries[j] == rest[j - 1]);
    }
}

/// True of the `(phase, event)` pairs in which the event is the outcome
/// the phase waits for.
pub open spec fn expected(p: Phase, e: Event) -> bool {
    match (p, e) {
        (Phase::Inspect, Event::RadioStateIs(_)) => true,
        (Phase::AwaitStaDisconnect, Event::StaDisconnected) => true,
        (Phase::AwaitApStop, Event::ApStopped) => true,
        (Phase::PostEventPause, Event::TimerElapsed) => true,
        (Phase::EnsureStarted, Event::StartedIs(_)) => true,
        (Phase::Starting, Event::StartDone(_)) => true,
        (Phase::CheckConnected, Event::ConnectedIs(_)) => true,
        (Phase::PreScanBackoff, Event::TimerElapsed) => true,
        (Phase::Scanning, Event::ScanDone(_)) => true,
        (Phase::Connecting, Event::ConnectDone(_)) => true,
        (Phase::Settling, Event::TimerElapsed) => true,
        (Phase::ConnectBackoff, Event::TimerElapsed) => true,
        (Phase::IdlePause, Event::TimerElapsed) => true,
        _ => false,
    }
}

/// The phase after handling `e` in `pre`. An event a phase does not wait
/// for leaves the phase unchanged.
pub open spec fn next_phase(pre: Supervisor, e: Event) -> Phase {
    match (pre.phase, e) {
        (Phase::Inspect, Event::RadioStateIs(rs)) => match rs {
            RadioState::StaConnected => Phase::AwaitStaDisconnect,
            RadioState::ApStarted => Phase::AwaitApStop,
            _ => Phase::EnsureStarted,
        },
        (Phase::AwaitStaDisconnect, Event::StaDisconnected) => Phase::PostEventPause,
        (Phase::AwaitApStop, Event::ApStopped) => Phase::PostEventPause,
        (Phase::PostEventPause, Event::TimerElapsed) => Phase::EnsureStarted,
        (Phase::EnsureStarted, Event::StartedIs(b)) => if b {
            Phase::CheckConnected
        } else {
            Phase::Starting
        },
        (Phase::Starting, Event::StartDone(ok)) => if ok {
            Phase::CheckConnected
        } else {
            Phase::Inspect
        },
        (Phase::CheckConnected, Event::ConnectedIs(b)) => if b {
            Phase::IdlePause
        } else {
            Phase::PreScanBackoff
        },
        (Phase::PreScanBackoff, Event::TimerElapsed) => Phase::Scanning,
        (Phase::Scanning, Event::ScanDone(r)) => match r {
            Some(list) => if spec_select(list@, pre.desired.ssid@) is Some {
                Phase::Connecting
            } else {
                Phase::Inspect
            },
            None => Phase::Inspect,
        },
        (Phase::Connecting, Event::ConnectDone(ok)) => if ok {
            Phase::Settling
        } else {
            Phase::ConnectBackoff
        },
        (Phase::Settling, Event::TimerElapsed) => Phase::Inspect,
        (Phase::ConnectBackoff, Event::TimerElapsed) => Phase::Inspect,
        (Phase::IdlePause, Event::TimerElapsed) => Phase::Inspect,
        _ => pre.phase,
    }
}

/// The action issued on entering a phase.
pub open spec fn entry_action(p: Phase) -> Action {
    match p {
        Phase::Inspect => Action::QueryRadioState,
        Phase::AwaitStaDisconnect => Action::WaitStaDisconnect,
        Phase::AwaitApStop => Action::WaitApStop,
        Phase::PostEventPause => Action::Delay(BACKOFF_MS),
        Phase::EnsureStarted => Action::QueryStarted,
        Phase::Starting => Action::ApplyApConfigAndStart,
        Phase::CheckConnected => Action::QueryConnected,
        Phase::PreScanBackoff => Action::Delay(BACKOFF_MS),
        Phase::Scanning => Action::Scan,
        Phase::Connecting => Action::ApplyStaConfigAndConnect,
        Phase::Settling => Action::Delay(SETTLE_MS),
        Phase::ConnectBackoff => Action::Delay(BACKOFF_MS),
        Phase::IdlePause => Action::Delay(IDLE_MS),
    }
}

/// The action a step asks for: the entry action of the phase it moves
/// to, or nothing when the event is not the one awaited.
pub open spec fn next_action(pre: Supervisor, e: Event) -> Action {
    if expected(pre.phase, e) {
        entry_action(next_phase(pre, e))
    } else {
        Action::Idle
    }
}

/// The report a step makes, if any.
pub open spec fn next_report(pre: Supervisor, e: Event) -> Option<Report> {
    match (pre.phase, e) {
        (Phase::Starting, Event::StartDone(ok)) => if ok {
            Some(Report::RadioStarted)
        } else {
            Some(Report::RadioStartFailed)
        },
        (Phase::Scanning, Event::ScanDone(r)) => match r {
            Some(list) => if spec_select(list@, pre.desired.ssid@) is Some {
                Some(Report::NetworkFound)
            } else {
                Some(Report::NetworkNotFound)
            },
            None => Some(Report::ScanFailed),
        },
        (Phase::Connecting, Event::ConnectDone(ok)) => if ok {
            Some(Report::Connected)
        } else {
            Some(Report::ConnectFailed)
        },
        _ => None,
    }
}

impl Supervisor {
    /// A fresh supervisor, holding the two fixed role configurations,
    /// about to inspect the radio for the first time.
    pub fn new(ap: AccessPointConfig, desired: StationConfig) -> (s: Supervisor)
        ensures
            s.phase == Phase::Inspect,
            s.ap == ap,
            s.desired == desired,
    {
        Supervisor { phase: Phase::Inspect, ap, desired }
    }

    /// The access-point configuration the driver applies on
    /// `ApplyApConfigAndStart`.
    pub fn ap_config(&self) -> (c: &AccessPointConfig)
        ensures
            c == &self.ap,
    {
        &self.ap
    }

    /// The station configuration the driver applies on
    /// `ApplyStaConfigAndConnect`.
    pub fn station_config(&self) -> (c: &StationConfig)
        ensures
            c == &self.desired,
    {
        &self.desired
    }

    /// Handle one event: move to the next phase and say what to do next.
    /// The transition is exactly `next_phase` / `next_action` /
    /// `next_report`; the configurations never change.
    pub fn step(&mut self, event: Event) -> (out: StepOutput)
        ensures
            final(self).phase == next_phase(*old(self), event),
            final(self).ap == old(self).ap,
            final(self).desired == old(self).desired,
            out.action == next_action(*old(self), event),
            out.report == next_report(*old(self), event),
    {
        match (self.phase, event) {
            (Phase::Inspect, Event::RadioStateIs(rs)) => {
                match rs {
                    RadioState::StaConnected => {
                        self.phase = Phase::AwaitStaDisconnect;
                        StepOutput { action: Action::WaitStaDisconnect, report: None }
                    },
                    RadioState::ApStarted => {
                        self.phase = Phase::AwaitApStop;
                        StepOutput { action: Action::WaitApStop, report: None }
                    },
                    _ => {
                        self.phase = Phase::EnsureStarted;
                        StepOutput { action: Action::QueryStarted, report: None }
                    },
                }
            },
            (Phase::AwaitStaDisconnect, Event::StaDisconnected) => {
                self.phase = Phase::PostEventPause;
                StepOutput { action: Action::Delay(BACKOFF_MS), report: None }
            },
            (Phase::AwaitApStop, Event::ApStopped) => {
                self.phase = Phase::PostEventPause;
                StepOutput { action: Action::Delay(BACKOFF_MS), report: None }
            },
            (Phase::PostEventPause, Event::TimerElapsed) => {
                self.phase = Phase::EnsureStarted;
                StepOutput { action: Action::QueryStarted, report: None }
            },
            (Phase::EnsureStarted, Event::StartedIs(b)) => {
                if b {
                    self.phase = Phase::CheckConnected;
                    StepOutput { action: Action::QueryConnected, report: None }
                } else {
                    self.phase = Phase::Starting;
                    StepOutput { action: Action::ApplyApConfigAndStart, report: None }
                }
            },
            (Phase::Starting, Event::StartDone(ok)) => {
                if ok {
                    self.phase = Phase::CheckConnected;
                    StepOutput {
                        action: Action::QueryConnected,
                        report: Some(Report::RadioStarted),
                    }
                } else {
                    self.phase = Phase::Inspect;
                    StepOutput {
                        action: Action::QueryRadioState,
                        report: Some(Report::RadioStartFailed),
                    }
                }
            },
            (Phase::CheckConnected, Event::ConnectedIs(b)) => {
                if b {
                    self.phase = Phase::IdlePause;
                    StepOutput { action: Action::Delay(IDLE_MS), report: None }
                } else {
                    self.phase = Phase::PreScanBackoff;
                    StepOutput { action: Action::Delay(BACKOFF_MS), report: None }
                }
            },
            (Phase::PreScanBackoff, Event::TimerElapsed) => {
                self.phase = Phase::Scanning;
                StepOutput { action: Action::Scan, report: None }
            },
            (Phase::Scanning, Event::ScanDone(r)) => {
                match r {
                    Some(list) => {
                        let sel = list.select_network(&self.desired.ssid);
                        proof {
                            lemma_spec_select_props(list@, self.desired.ssid@);
                        }
                        match sel {
                            Some(_) => {
                                self.phase = Phase::Connecting;
                                StepOutput {
                                    action: Action::ApplyStaConfigAndConnect,
                                    report: Some(Report::NetworkFound),
                                }
                            },
                            None => {
                                self.phase = Phase::Inspect;
                                StepOutput {
                                    action: Action::QueryRadioState,
                                    report: Some(Report::NetworkNotFound),
                                }
                            },
                        }
                    },
                    None => {
                        self.phase = Phase::Inspect;
                        StepOutput {
                            action: Action::QueryRadioState,
                            report: Some(Report::ScanFailed),
                        }
                    },
                }
            },
            (Phase::Connecting, Event::ConnectDone(ok)) => {
                if ok {
                    self.phase = Phase::Settling;
                    StepOutput { action: Action::Delay(SETTLE_MS), report: Some(Report::Connected) }
                } else {
                    self.phase = Phase::ConnectBackoff;
                    StepOutput {
                        action: Action::Delay(BACKOFF_MS),
                        report: Some(Report::ConnectFailed),
                    }
                }
            },
            (Phase::Settling, Event::TimerElapsed) => {
                self.phase = Phase::Inspect;
                StepOutput { action: Action::QueryRadioState, report: None }
            },
            (Phase::ConnectBackoff, Event::TimerElapsed) => {
                self.phase = Phase::Inspect;
                StepOutput { action: Action::QueryRadioState, report: None }
            },
            (Phase::IdlePause, Event::TimerElapsed) => {
                self.phase = Phase::Inspect;
                StepOutput { action: Action::QueryRadioState, report: None }
            },
            _ => StepOutput { action: Action::Idle, report: None },
        }
    }
}

/// True while a radio-mutating operation is in flight.
pub open spec fn radio_op_in_flight(p: Phase) -> bool {
    p is Starting || p is Scanning || p is Connecting
}

/// True of the actions that mutate the radio: configure-and-start,
/// scan, configure-and-connect.
pub open spec fn is_radio_mutating(a: Action) -> bool {
    a is ApplyApConfigAndStart || a is Scan || a is ApplyStaConfigAndConnect
}

/// True when `e` is the completion of the radio operation `p` waits for.
pub open spec fn completes_radio_op(p: Phase, e: Event) -> bool {
    match (p, e) {
        (Phase::Starting, Event::StartDone(_)) => true,
        (Phase::Scanning, Event::ScanDone(_)) => true,
        (Phase::Connecting, Event::ConnectDone(_)) => true,
        _ => false,
    }
}

/// The state after one step, as a value.
pub open spec fn after(pre: Supervisor, e: Event) -> Supervisor {
    Supervisor { phase: next_phase(pre, e), ..pre }
}

/// Exclusive radio mutation: the supervisor never asks for a second
/// radio-mutating operation while one is in flight. A step issues a
/// mutating action only when none is pending or the event just resolved
/// the pending one; a mutating action puts the machine into an in-flight
/// phase; and any other event arriving during an in-flight phase — an
/// access-point stop notification during a connect attempt among them —
/// changes nothing and asks for nothing. Since the driver performs one
/// action per step, at most one radio-mutating operation is ever in
/// flight.
pub proof fn lemma_exclusive_radio_mutation(pre: Supervisor, e: Event)
    ensures
        is_radio_mutating(next_action(pre, e)) ==> !radio_op_in_flight(pre.phase)
            || completes_radio_op(pre.phase, e),
        is_radio_mutating(next_action(pre, e)) ==> radio_op_in_flight(next_phase(pre, e)),
        radio_op_in_flight(pre.phase) && !completes_radio_op(pre.phase, e) ==> next_phase(pre, e)
            == pre.phase && next_action(pre, e) == Action::Idle,
{
}

/// Supervision liveness under a never-matching SSID: from the start of a
/// cycle with the radio neither station-connected nor reporting the
/// access point started, the machine queries, backs off for the fixed
/// interval, scans, finds no match, reports it, and stands again exactly
/// where it began — so, the step function being deterministic, it issues
/// scan attempts indefinitely at the fixed backoff. The access-point
/// branch stays serviced: at the start of every cycle an
/// access-point-started observation still turns into a wait for the stop
/// event.
pub proof fn lemma_supervision_liveness(s0: Supervisor, rs: RadioState, list: ScanList)
    requires
        s0.phase == Phase::Inspect,
        !(rs is StaConnected),
        !(rs is ApStarted),
        spec_select(list@, s0.desired.ssid@) is None,
    ensures
        ({
            let s1 = after(s0, Event::RadioStateIs(rs));
            let s2 = after(s1, Event::StartedIs(true));
            let s3 = after(s2, Event::ConnectedIs(false));
            let s4 = after(s3, Event::TimerElapsed);
            let s5 = after(s4, Event::ScanDone(Some(list)));
            &&& s1.phase == Phase::EnsureStarted
            &&& s2.phase == Phase::CheckConnected
            &&& s3.phase == Phase::PreScanBackoff
            &&& next_action(s2, Event::ConnectedIs(false)) == Action::Delay(BACKOFF_MS)
            &&& s4.phase == Phase::Scanning
            &&& next_action(s3, Event::TimerElapsed) == Action::Scan
            &&& next_report(s4, Event::ScanDone(Some(list))) == Some(Report::NetworkNotFound)
            &&& s5 == s0
        }),
        next_phase(s0, Event::RadioStateIs(RadioState::ApStarted)) == Phase::AwaitApStop,
        next_action(s0, Event::RadioStateIs(RadioState::ApStarted)) == Action::WaitApStop,
{
}

} // verus!
