//! One scan as a state machine.
//!
//! The session decides; a driver acts. The driver asks the session what is
//! pending, does it (creates the daemon, subscribes, polls, releases the
//! daemon), reports what came of it, and goes on until the session hands out
//! its report. The session itself touches neither network nor clock.

use crate::error::{DiscoveryError, ErrorModel};
use crate::event::{DiscoveryEvent, EventModel};
use crate::record::{RecordModel, ServiceRecord};
use crate::roster::{absorb, record_views, Roster};
use vstd::prelude::*;
use vstd::string::StringExecFns;

verus! {

/// The service type that the application browses for.
pub fn default_service_type() -> (service_type: String)
    ensures
        service_type@ == "_aaxion._tcp.local."@,
{
    String::from_str("_aaxion._tcp.local.")
}

/// The time budget of a scan where the caller names none, in milliseconds.
pub const SCAN_BUDGET_MILLIS: u64 = 1500;

/// The longest that one poll of the event stream may wait, in milliseconds.
pub const POLL_TIMEOUT_MILLIS: u64 = 100;

/// Where a scan stands.
#[derive(Clone, Copy, Debug, PartialEq, Eq, Structural)]
pub enum Phase {
    /// The daemon has to be created.
    AcquiringDaemon,
    /// The daemon is there; the subscription has to be opened.
    Subscribing,
    /// The subscription is open and the budget is not used up.
    Polling,
    /// The daemon has to be released.
    Releasing,
}

/// A session, as mathematical values.
pub struct SessionModel {
    pub service_type: Seq<char>,
    pub budget_millis: u64,
    pub phase: Phase,
    pub records: Seq<RecordModel>,
    pub failure: Option<ErrorModel>,
}

/// What the driver is asked to do, as mathematical values.
pub enum CommandModel {
    AcquireDaemon,
    Subscribe { service_type: Seq<char> },
    Poll { timeout_millis: u64 },
    ReleaseDaemon,
}

/// What the driver reports, as mathematical values.
pub enum OutcomeModel {
    DaemonAcquired,
    DaemonFailed { cause: Seq<char> },
    Subscribed,
    SubscribeFailed { cause: Seq<char> },
    Polled { event: Option<EventModel>, elapsed_millis: u128 },
    Released,
    ReleaseFailed { cause: Seq<char> },
}

/// The report of a finished scan, as mathematical values.
pub struct ReportModel {
    pub result: Result<Seq<RecordModel>, ErrorModel>,
    pub release_warning: Option<Seq<char>>,
}

/// One step of a scan, as mathematical values.
pub enum StepModel {
    Continue { session: SessionModel },
    Finished { report: ReportModel },
}

/// The session with which a scan begins.
pub open spec fn initial(service_type: Seq<char>, budget_millis: u64) -> SessionModel {
    SessionModel {
        service_type,
        budget_millis,
        phase: Phase::AcquiringDaemon,
        records: Seq::empty(),
        failure: None,
    }
}

/// What the session in this state asks of the driver.
pub open spec fn pending(session: SessionModel) -> CommandModel {
    match session.phase {
        Phase::AcquiringDaemon => CommandModel::AcquireDaemon,
        Phase::Subscribing => CommandModel::Subscribe { service_type: session.service_type },
        Phase::Polling => CommandModel::Poll { timeout_millis: POLL_TIMEOUT_MILLIS },
        Phase::Releasing => CommandModel::ReleaseDaemon,
    }
}

/// The session once the clock has been read at `elapsed_millis` after the
/// subscription was opened: it polls while the budget is not used up, and
/// releases the daemon from then on.
pub open spec fn at_time(session: SessionModel, elapsed_millis: u128) -> SessionModel {
    if elapsed_millis < session.budget_millis {
        SessionModel { phase: Phase::Polling, ..session }
    } else {
        SessionModel { phase: Phase::Releasing, ..session }
    }
}

/// The report of a session whose daemon has been released.
pub open spec fn report_of(session: SessionModel, release_warning: Option<Seq<char>>) -> ReportModel {
    ReportModel {
        result: match session.failure {
            Some(error) => Err(error),
            None => Ok(session.records),
        },
        release_warning,
    }
}

/// The step that a session takes when the driver reports an outcome.
///
/// A failure to create the daemon ends the scan at once. A failure to
/// subscribe is kept, and the daemon is released before the scan ends with
/// it. A poll hands in the event that it received, if any, and the time that
/// has passed since the subscription was opened. A failure to release the
/// daemon is a warning beside the result. An outcome that does not answer
/// what is pending changes nothing.
pub open spec fn next(session: SessionModel, outcome: OutcomeModel) -> StepModel {
    match (session.phase, outcome) {
        (Phase::AcquiringDaemon, OutcomeModel::DaemonAcquired) => StepModel::Continue {
            session: SessionModel { phase: Phase::Subscribing, ..session },
        },
        (Phase::AcquiringDaemon, OutcomeModel::DaemonFailed { cause }) => StepModel::Finished {
            report: ReportModel {
                result: Err(ErrorModel::DaemonUnavailable { cause }),
                release_warning: None,
            },
        },
        (Phase::Subscribing, OutcomeModel::Subscribed) => StepModel::Continue {
            session: at_time(session, 0),
        },
        (Phase::Subscribing, OutcomeModel::SubscribeFailed { cause }) => StepModel::Continue {
            session: SessionModel {
                phase: Phase::Releasing,
                failure: Some(ErrorModel::SubscriptionFailed { cause }),
                ..session
            },
        },
        (Phase::Polling, OutcomeModel::Polled { event, elapsed_millis }) => StepModel::Continue {
            session: at_time(
                SessionModel {
                    records: match event {
                        Some(event) => absorb(session.records, event),
                        None => session.records,
                    },
                    ..session
                },
                elapsed_millis,
            ),
        },
        (Phase::Releasing, OutcomeModel::Released) => StepModel::Finished {
            report: report_of(session, None),
        },
        (Phase::Releasing, OutcomeModel::ReleaseFailed { cause }) => StepModel::Finished {
            report: report_of(session, Some(cause)),
        },
        _ => StepModel::Continue { session },
    }
}

/// Where a scan stands after the driver has reported `outcomes` one after
/// another: a scan that is over takes nothing more in.
pub open spec fn run(session: SessionModel, outcomes: Seq<OutcomeModel>) -> StepModel
    decreases outcomes.len(),
{
    if outcomes.len() == 0 {
        StepModel::Continue { session }
    } else {
        match run(session, outcomes.drop_last()) {
            StepModel::Continue { session: reached } => next(reached, outcomes.last()),
            finished => finished,
        }
    }
}

/// A scan that is over stays as it is, whatever is reported after.
pub proof fn lemma_finished_run_stays(session: SessionModel, outcomes: Seq<OutcomeModel>, n: int)
    requires
        0 <= n <= outcomes.len(),
        run(session, outcomes.take(n)) is Finished,
    ensures
        run(session, outcomes) == run(session, outcomes.take(n)),
    decreases outcomes.len() - n,
{
    if n < outcomes.len() {
        assert(outcomes.take(n + 1).drop_last() =~= outcomes.take(n));
        lemma_finished_run_stays(session, outcomes, n + 1);
    } else {
        assert(outcomes.take(n) =~= outcomes);
    }
}

/// What the driver is asked to do.
#[derive(Clone, Debug, PartialEq, Eq)]
pub enum Command {
    /// Create the discovery daemon.
    AcquireDaemon,
    /// Open the event stream for the service type.
    Subscribe { service_type: String },
    /// Wait for one event, no longer than the timeout, then read the clock.
    Poll { timeout_millis: u64 },
    /// Release the daemon.
    ReleaseDaemon,
}

impl View for Command {
    type V = CommandModel;

    open spec fn view(&self) -> CommandModel {
        match self {
            Command::AcquireDaemon => CommandModel::AcquireDaemon,
            Command::Subscribe { service_type } => CommandModel::Subscribe {
                service_type: service_type@,
            },
            Command::Poll { timeout_millis } => CommandModel::Poll {
                timeout_millis: *timeout_millis,
            },
            Command::ReleaseDaemon => CommandModel::ReleaseDaemon,
        }
    }
}

/// What the driver reports of the command that it carried out.
#[derive(Clone, Debug)]
pub enum Outcome {
    /// The daemon was created.
    DaemonAcquired,
    /// The daemon could not be created.
    DaemonFailed { cause: String },
    /// The event stream is open; the clock of the scan starts here.
    Subscribed,
    /// The event stream could not be opened.
    SubscribeFailed { cause: String },
    /// A poll has returned, with the event that it received, if any, and the
    /// time since the event stream was opened, read after the poll.
    Polled { event: Option<DiscoveryEvent>, elapsed_millis: u128 },
    /// The daemon was released.
    Released,
    /// The daemon could not be released cleanly.
    ReleaseFailed { cause: String },
}

impl View for Outcome {
    type V = OutcomeModel;

    open spec fn view(&self) -> OutcomeModel {
        match self {
            Outcome::DaemonAcquired => OutcomeModel::DaemonAcquired,
            Outcome::DaemonFailed { cause } => OutcomeModel::DaemonFailed { cause: cause@ },
            Outcome::Subscribed => OutcomeModel::Subscribed,
            Outcome::SubscribeFailed { cause } => OutcomeModel::SubscribeFailed { cause: cause@ },
            Outcome::Polled { event, elapsed_millis } => OutcomeModel::Polled {
                event: match event {
                    Some(event) => Some(event@),
                    None => None,
                },
                elapsed_millis: *elapsed_millis,
            },
            Outcome::Released => OutcomeModel::Released,
            Outcome::ReleaseFailed { cause } => OutcomeModel::ReleaseFailed { cause: cause@ },
        }
    }
}

/// What a finished scan hands to its caller.
#[derive(Debug)]
pub struct ScanReport {
    /// The records in the order in which they were resolved, or the failure
    /// that kept the scan from polling.
    pub result: Result<Vec<ServiceRecord>, DiscoveryError>,
    /// Why the daemon could not be released cleanly, if it could not.
    pub release_warning: Option<String>,
}

impl View for ScanReport {
    type V = ReportModel;

    open spec fn view(&self) -> ReportModel {
        ReportModel {
            result: match self.result {
                Ok(records) => Ok(record_views(records@)),
                Err(error) => Err(error@),
            },
            release_warning: match self.release_warning {
                Some(cause) => Some(cause@),
                None => None,
            },
        }
    }
}

/// The state of one scan.
pub struct ScanSession {
    service_type: String,
    budget_millis: u64,
    phase: Phase,
    roster: Roster,
    failure: Option<DiscoveryError>,
}

impl View for ScanSession {
    type V = SessionModel;

    closed spec fn view(&self) -> SessionModel {
        SessionModel {
            service_type: self.service_type@,
            budget_millis: self.budget_millis,
            phase: self.phase,
            records: self.roster@,
            failure: match self.failure {
                Some(error) => Some(error@),
                None => None,
            },
        }
    }
}

/// What a session becomes when an outcome is reported to it.
pub enum Step {
    /// The scan goes on: the driver carries out what the session has pending.
    Continue(ScanSession),
    /// The scan is over.
    Finished(ScanReport),
}

impl View for Step {
    type V = StepModel;

    open spec fn view(&self) -> StepModel {
        match self {
            Step::Continue(session) => StepModel::Continue { session: session@ },
            Step::Finished(report) => StepModel::Finished { report: report@ },
        }
    }
}

/// The outcomes as mathematical values.
pub open spec fn outcome_views(outcomes: Seq<Outcome>) -> Seq<OutcomeModel> {
    outcomes.map_values(|outcome: Outcome| outcome@)
}

/// Runs a scan on a script: the session meets the outcomes that a driver
/// would have reported, one after another, until the scan is over or the
/// script is used up.
pub fn replay(service_type: String, budget_millis: u64, outcomes: Vec<Outcome>) -> (step: Step)
    ensures
        step@ == run(initial(service_type@, budget_millis), outcome_views(outcomes@)),
{
    let ghost start = initial(service_type@, budget_millis);
    let ghost script = outcome_views(outcomes@);
    let mut session = ScanSession::new(service_type, budget_millis);
    for outcome in iter: outcomes
        invariant
            start == initial(service_type@, budget_millis),
            script == outcome_views(outcomes@),
            script == outcome_views(iter.seq()),
            run(start, script.take(iter.index() as int)) == (StepModel::Continue {
                session: session@,
            }),
    {
        let ghost n = iter.index() as int;
        assert(script.take(n + 1).drop_last() =~= script.take(n));
        match session.advance(outcome) {
            Step::Continue(next) => {
                session = next;
            },
            Step::Finished(report) => {
                proof {
                    lemma_finished_run_stays(start, script, n + 1);
                }
                return Step::Finished(report);
            },
        }
    }
    assert(script.take(script.len() as int) =~= script);
    Step::Continue(session)
}

impl ScanSession {
    /// A session for one scan of `service_type` that polls for `budget_millis`.
    pub fn new(service_type: String, budget_millis: u64) -> (session: Self)
        ensures
            session@ == initial(service_type@, budget_millis),
    {
        ScanSession {
            service_type,
            budget_millis,
            phase: Phase::AcquiringDaemon,
            roster: Roster::new(),
            failure: None,
        }
    }

    /// Where the scan stands.
    pub fn phase(&self) -> (phase: Phase)
        ensures
            phase == self@.phase,
    {
        self.phase
    }

    /// The number of instances recorded so far.
    pub fn found(&self) -> (n: usize)
        ensures
            n == self@.records.len(),
    {
        self.roster.len()
    }

    /// What the driver has to do now.
    pub fn pending(&self) -> (command: Command)
        ensures
            command@ == pending(self@),
    {
        match self.phase {
            Phase::AcquiringDaemon => Command::AcquireDaemon,
            Phase::Subscribing => Command::Subscribe { service_type: self.service_type.clone() },
            Phase::Polling => Command::Poll { timeout_millis: POLL_TIMEOUT_MILLIS },
            Phase::Releasing => Command::ReleaseDaemon,
        }
    }

    /// Takes the outcome of the pending command and makes the next step.
    pub fn advance(self, outcome: Outcome) -> (step: Step)
        ensures
            step@ == next(self@, outcome@),
    {
        let ScanSession { service_type, budget_millis, phase, roster, failure } = self;
        match phase {
            Phase::AcquiringDaemon => match outcome {
                Outcome::DaemonAcquired => Step::Continue(
                    ScanSession { service_type, budget_millis, phase: Phase::Subscribing, roster, failure },
                ),
                Outcome::DaemonFailed { cause } => Step::Finished(
                    ScanReport {
                        result: Err(DiscoveryError::DaemonUnavailable { cause }),
                        release_warning: None,
                    },
                ),
                _ => Step::Continue(
                    ScanSession { service_type, budget_millis, phase, roster, failure },
                ),
            },
            Phase::Subscribing => match outcome {
                Outcome::Subscribed => {
                    let phase = if 0 < budget_millis {
                        Phase::Polling
                    } else {
                        Phase::Releasing
                    };
                    Step::Continue(
                        ScanSession { service_type, budget_millis, phase, roster, failure },
                    )
                },
                Outcome::SubscribeFailed { cause } => Step::Continue(
                    ScanSession {
                        service_type,
                        budget_millis,
                        phase: Phase::Releasing,
                        roster,
                        failure: Some(DiscoveryError::SubscriptionFailed { cause }),
                    },
                ),
                _ => Step::Continue(
                    ScanSession { service_type, budget_millis, phase, roster, failure },
                ),
            },
            Phase::Polling => match outcome {
                Outcome::Polled { event, elapsed_millis } => {
                    let mut roster = roster;
                    match event {
                        Some(event) => {
                            roster.absorb(event);
                        },
                        None => {},
                    }
                    let phase = if elapsed_millis < budget_millis as u128 {
                        Phase::Polling
                    } else {
                        Phase::Releasing
                    };
                    Step::Continue(
                        ScanSession { service_type, budget_millis, phase, roster, failure },
                    )
                },
                _ => Step::Continue(
                    ScanSession { service_type, budget_millis, phase, roster, failure },
                ),
            },
            Phase::Releasing => {
                let release_warning = match outcome {
                    Outcome::Released => None,
                    Outcome::ReleaseFailed { cause } => Some(cause),
                    _ => {
                        return Step::Continue(
                            ScanSession { service_type, budget_millis, phase, roster, failure },
                        );
                    },
                };
                let result = match failure {
                    Some(error) => Err(error),
                    None => Ok(roster.into_records()),
                };
                Step::Finished(ScanReport { result, release_warning })
            },
        }
    }
}

} // verus!
