//! What holds of a scan, whatever its driver reports.

use crate::error::ErrorModel;
use crate::event::EventModel;
use crate::laws::lists::{
    kept_from_first, lemma_first_resolution_is_kept, lemma_same_instances_same_names,
    resolved_names,
};
use crate::record::RecordModel;
use crate::roster::{absorb, collect, fullnames};
use crate::session::{
    initial, lemma_finished_run_stays, next, pending, run, CommandModel, OutcomeModel, Phase,
    ReportModel, SessionModel, StepModel, POLL_TIMEOUT_MILLIS,
};
use vstd::prelude::*;

verus! {

/// A scan whose daemon cannot be created ends at once with
/// `DaemonUnavailable` and the cause. The one thing that the driver was asked
/// for was the daemon, so nothing was polled; and whatever the driver may
/// report after the failure, the scan takes none of it in.
pub proof fn lemma_daemon_failure_ends_scan(
    service_type: Seq<char>,
    budget_millis: u64,
    cause: Seq<char>,
    later: Seq<OutcomeModel>,
)
    ensures
        pending(initial(service_type, budget_millis)) == CommandModel::AcquireDaemon,
        next(initial(service_type, budget_millis), OutcomeModel::DaemonFailed { cause })
            == (StepModel::Finished {
            report: ReportModel {
                result: Err(ErrorModel::DaemonUnavailable { cause }),
                release_warning: None,
            },
        }),
        run(
            initial(service_type, budget_millis),
            seq![OutcomeModel::DaemonFailed { cause }] + later,
        ) == next(initial(service_type, budget_millis), OutcomeModel::DaemonFailed { cause }),
{
    let start = initial(service_type, budget_millis);
    let first = seq![OutcomeModel::DaemonFailed { cause }];
    assert(first.drop_last() =~= Seq::<OutcomeModel>::empty());
    assert(run(start, first.drop_last()) == StepModel::Continue { session: start });
    assert(run(start, first) == next(start, first.last()));
    assert((first + later).take(1) =~= first);
    lemma_finished_run_stays(start, first + later, 1);
}

/// A scan whose subscription cannot be opened asks for the release of the
/// daemon and then ends with `SubscriptionFailed` and the cause, whether or
/// not the release went well.
pub proof fn lemma_subscription_failure_releases_daemon(
    session: SessionModel,
    cause: Seq<char>,
    release: OutcomeModel,
)
    requires
        session.phase == Phase::Subscribing,
        release is Released || release is ReleaseFailed,
    ensures
        next(session, OutcomeModel::SubscribeFailed { cause }) is Continue,
        pending(next(session, OutcomeModel::SubscribeFailed { cause })->session)
            == CommandModel::ReleaseDaemon,
        next(next(session, OutcomeModel::SubscribeFailed { cause })->session, release) is Finished,
        next(
            next(session, OutcomeModel::SubscribeFailed { cause })->session,
            release,
        )->report.result == Err::<Seq<RecordModel>, ErrorModel>(
            ErrorModel::SubscriptionFailed { cause },
        ),
{
}

/// A release that fails is a warning and no more: the scan ends with the
/// result that it would have had after a clean release.
pub proof fn lemma_release_failure_keeps_result(session: SessionModel, cause: Seq<char>)
    requires
        session.phase == Phase::Releasing,
    ensures
        next(session, OutcomeModel::ReleaseFailed { cause }) is Finished,
        next(session, OutcomeModel::Released) is Finished,
        next(session, OutcomeModel::ReleaseFailed { cause })->report.result == next(
            session,
            OutcomeModel::Released,
        )->report.result,
        next(session, OutcomeModel::ReleaseFailed { cause })->report.release_warning == Some(cause),
        next(session, OutcomeModel::Released)->report.release_warning.is_none(),
{
}

/// While it polls, a session asks for one poll of `POLL_TIMEOUT_MILLIS` after
/// another, as long as the time reported is below the budget, and asks for
/// the release of the daemon as soon as it is not. If the poll was asked for
/// at `earlier` and kept its timeout, the release is asked for less than one
/// timeout after the budget has run out.
pub proof fn lemma_polling_ends_with_budget(
    session: SessionModel,
    event: Option<EventModel>,
    earlier: u128,
    elapsed_millis: u128,
)
    requires
        session.phase == Phase::Polling,
        earlier < session.budget_millis,
        earlier <= elapsed_millis <= earlier + POLL_TIMEOUT_MILLIS,
    ensures
        pending(session) == (CommandModel::Poll { timeout_millis: POLL_TIMEOUT_MILLIS }),
        next(session, OutcomeModel::Polled { event, elapsed_millis }) is Continue,
        next(session, OutcomeModel::Polled { event, elapsed_millis })->session.phase == (
        if elapsed_millis < session.budget_millis {
            Phase::Polling
        } else {
            Phase::Releasing
        }),
        next(session, OutcomeModel::Polled { event, elapsed_millis })->session.phase
            == Phase::Releasing ==> session.budget_millis <= elapsed_millis
            < session.budget_millis + POLL_TIMEOUT_MILLIS,
{
}

/// The events that a scan takes in while the driver reports `outcomes`:
/// those that come with a poll that is reported while the session polls.
pub open spec fn taken_in(session: SessionModel, outcomes: Seq<OutcomeModel>) -> Seq<EventModel>
    decreases outcomes.len(),
{
    if outcomes.len() == 0 {
        Seq::empty()
    } else {
        let earlier = taken_in(session, outcomes.drop_last());
        match (run(session, outcomes.drop_last()), outcomes.last()) {
            (
                StepModel::Continue { session: reached },
                OutcomeModel::Polled { event: Some(event), elapsed_millis },
            ) => if reached.phase == Phase::Polling {
                earlier.push(event)
            } else {
                earlier
            },
            _ => earlier,
        }
    }
}

/// Whatever the driver reports, and in whatever order: the list that a scan
/// holds, and the list that it hands out, is the one that the events taken
/// in leave behind. So what holds of every such list holds of these: each
/// instance once, with the record of its first resolution, in the order of
/// discovery.
pub proof fn lemma_scan_lists_what_it_took_in(
    service_type: Seq<char>,
    budget_millis: u64,
    outcomes: Seq<OutcomeModel>,
)
    ensures
        match run(initial(service_type, budget_millis), outcomes) {
            StepModel::Continue { session } => session.records == collect(
                taken_in(initial(service_type, budget_millis), outcomes),
            ),
            StepModel::Finished { report } => report.result matches Ok(records) ==> records
                == collect(taken_in(initial(service_type, budget_millis), outcomes)),
        },
    decreases outcomes.len(),
{
    if outcomes.len() > 0 {
        let start = initial(service_type, budget_millis);
        let front = outcomes.drop_last();
        lemma_scan_lists_what_it_took_in(service_type, budget_millis, front);
        if let StepModel::Continue { session: reached } = run(start, front) {
            if let OutcomeModel::Polled { event: Some(event), elapsed_millis } = outcomes.last() {
                if reached.phase == Phase::Polling {
                    assert(taken_in(start, outcomes).drop_last() =~= taken_in(start, front));
                }
            }
        }
    }
}

/// The list has each instance at most once, and has of each instance the
/// record of the first of the `events` that resolves it.
pub open spec fn keeps_first_resolutions(events: Seq<EventModel>, records: Seq<RecordModel>) -> bool {
    &&& fullnames(records).no_duplicates()
    &&& forall|j: int| 0 <= j < records.len() ==> kept_from_first(events, #[trigger] records[j])
}

/// Whatever the driver reports: the list that a scan holds, and the list that
/// it hands out, has each instance at most once, with the record of the first
/// resolution that the scan took in.
pub proof fn lemma_scan_keeps_first_resolutions(
    service_type: Seq<char>,
    budget_millis: u64,
    outcomes: Seq<OutcomeModel>,
)
    ensures
        match run(initial(service_type, budget_millis), outcomes) {
            StepModel::Continue { session } => keeps_first_resolutions(
                taken_in(initial(service_type, budget_millis), outcomes),
                session.records,
            ),
            StepModel::Finished { report } => report.result matches Ok(records)
                ==> keeps_first_resolutions(
                taken_in(initial(service_type, budget_millis), outcomes),
                records,
            ),
        },
{
    lemma_scan_lists_what_it_took_in(service_type, budget_millis, outcomes);
    lemma_first_resolution_is_kept(taken_in(initial(service_type, budget_millis), outcomes));
}

/// Two scans that take in resolutions of the same instances, in whatever
/// order and number, hand out lists that name the same instances.
pub proof fn lemma_scans_of_same_instances_agree(
    service_type: Seq<char>,
    budget_millis: u64,
    first: Seq<OutcomeModel>,
    second: Seq<OutcomeModel>,
)
    requires
        run(initial(service_type, budget_millis), first) is Finished,
        run(initial(service_type, budget_millis), second) is Finished,
        run(initial(service_type, budget_millis), first)->report.result is Ok,
        run(initial(service_type, budget_millis), second)->report.result is Ok,
        resolved_names(taken_in(initial(service_type, budget_millis), first)) == resolved_names(
            taken_in(initial(service_type, budget_millis), second),
        ),
    ensures
        fullnames(
            run(initial(service_type, budget_millis), first)->report.result->Ok_0,
        ).to_set() == fullnames(
            run(initial(service_type, budget_millis), second)->report.result->Ok_0,
        ).to_set(),
{
    let start = initial(service_type, budget_millis);
    lemma_scan_lists_what_it_took_in(service_type, budget_millis, first);
    lemma_scan_lists_what_it_took_in(service_type, budget_millis, second);
    lemma_same_instances_same_names(taken_in(start, first), taken_in(start, second));
}

/// The polls as the driver reports them: of each the event that it received,
/// if any, and the time read after it.
pub open spec fn polled(polls: Seq<(Option<EventModel>, u128)>) -> Seq<OutcomeModel> {
    polls.map_values(
        |poll: (Option<EventModel>, u128)|
            OutcomeModel::Polled { event: poll.0, elapsed_millis: poll.1 },
    )
}

/// The events that the polls received, in their order.
pub open spec fn heard(polls: Seq<(Option<EventModel>, u128)>) -> Seq<EventModel>
    decreases polls.len(),
{
    if polls.len() == 0 {
        Seq::empty()
    } else {
        match polls.last().0 {
            Some(event) => heard(polls.drop_last()).push(event),
            None => heard(polls.drop_last()),
        }
    }
}

/// Every poll but the last returned before the budget was used up.
pub open spec fn within_budget(polls: Seq<(Option<EventModel>, u128)>, budget_millis: u64) -> bool {
    forall|k: int| 0 <= k < polls.len() - 1 ==> (#[trigger] polls[k]).1 < budget_millis
}

/// What a driver reports that meets no failure up to the end of its polls.
pub open spec fn polling_script(polls: Seq<(Option<EventModel>, u128)>) -> Seq<OutcomeModel> {
    seq![OutcomeModel::DaemonAcquired, OutcomeModel::Subscribed] + polled(polls)
}

/// As long as the polls return within the budget, the session holds the list
/// that the events heard so far leave behind, and goes on polling until a
/// poll returns with the budget used up.
pub proof fn lemma_polling_collects(
    service_type: Seq<char>,
    budget_millis: u64,
    polls: Seq<(Option<EventModel>, u128)>,
)
    requires
        budget_millis > 0,
        within_budget(polls, budget_millis),
    ensures
        run(initial(service_type, budget_millis), polling_script(polls)) == (StepModel::Continue {
            session: SessionModel {
                service_type,
                budget_millis,
                phase: if polls.len() == 0 || polls.last().1 < budget_millis {
                    Phase::Polling
                } else {
                    Phase::Releasing
                },
                records: collect(heard(polls)),
                failure: None,
            },
        }),
    decreases polls.len(),
{
    let start = initial(service_type, budget_millis);
    let script = polling_script(polls);
    if polls.len() == 0 {
        // The daemon is created and the subscription opened: two steps.
        let first = seq![OutcomeModel::DaemonAcquired];
        assert(script.drop_last() =~= first);
        assert(run(start, first.drop_last()) == StepModel::Continue { session: start });
        assert(run(start, first) == next(start, OutcomeModel::DaemonAcquired));
    } else {
        // Every poll before the last returned within the budget, so the
        // session was polling when the last one was reported.
        let front = polls.drop_last();
        assert(within_budget(front, budget_millis)) by {
            assert forall|k: int| 0 <= k < front.len() - 1 implies (#[trigger] front[k]).1
                < budget_millis by {
                assert(front[k] == polls[k]);
            }
        }
        assert(front.len() > 0 ==> front.last() == polls[front.len() - 1]);
        lemma_polling_collects(service_type, budget_millis, front);
        assert(script.drop_last() =~= polling_script(front));
        if polls.last().0 is Some {
            assert(heard(polls).drop_last() =~= heard(front));
        }
    }
}

/// A scan that meets no failure hands out the list that the events heard
/// during its polls leave behind, whether or not the daemon is released
/// cleanly in the end.
pub proof fn lemma_scan_returns_what_was_heard(
    service_type: Seq<char>,
    budget_millis: u64,
    polls: Seq<(Option<EventModel>, u128)>,
    release: OutcomeModel,
)
    requires
        budget_millis > 0,
        polls.len() > 0,
        within_budget(polls, budget_millis),
        polls.last().1 >= budget_millis,
        release is Released || release is ReleaseFailed,
    ensures
        run(initial(service_type, budget_millis), polling_script(polls).push(release)) is Finished,
        run(
            initial(service_type, budget_millis),
            polling_script(polls).push(release),
        )->report.result == Ok::<Seq<RecordModel>, ErrorModel>(collect(heard(polls))),
{
    lemma_polling_collects(service_type, budget_millis, polls);
    assert(polling_script(polls).push(release).drop_last() =~= polling_script(polls));
}

/// What holds of a session wherever a scan stands: no instance is named
/// twice, nothing is recorded before the subscription is open, and a failure
/// is kept only of a subscription that could not be opened, on the way to the
/// release of the daemon and with nothing recorded.
pub open spec fn sound(session: SessionModel) -> bool {
    &&& fullnames(session.records).no_duplicates()
    &&& (session.phase == Phase::AcquiringDaemon || session.phase == Phase::Subscribing)
        ==> session.records.len() == 0
    &&& session.failure matches Some(error) ==> {
        &&& error is SubscriptionFailed
        &&& session.phase == Phase::Releasing
        &&& session.records.len() == 0
    }
}

/// How far a scan has come.
pub open spec fn progress(phase: Phase) -> int {
    match phase {
        Phase::AcquiringDaemon => 0,
        Phase::Subscribing => 1,
        Phase::Polling => 2,
        Phase::Releasing => 3,
    }
}

/// A step that does not end the scan leaves a sound session sound. It never
/// moves the scan back, keeps service type and budget, and keeps the records
/// that were there, in their places, with one more at most behind them.
pub proof fn lemma_step_goes_forward(session: SessionModel, outcome: OutcomeModel)
    requires
        sound(session),
        next(session, outcome) is Continue,
    ensures
        sound(next(session, outcome)->session),
        next(session, outcome)->session.service_type == session.service_type,
        next(session, outcome)->session.budget_millis == session.budget_millis,
        progress(next(session, outcome)->session.phase) >= progress(session.phase),
        session.records.is_prefix_of(next(session, outcome)->session.records),
        next(session, outcome)->session.records.len() <= session.records.len() + 1,
{
    if session.phase == Phase::Polling {
        if let OutcomeModel::Polled { event: Some(event), elapsed_millis } = outcome {
            if let EventModel::ServiceResolved { instance } = event {
                if !fullnames(session.records).contains(instance.fullname) {
                    assert(fullnames(absorb(session.records, event)) =~= fullnames(
                        session.records,
                    ).push(instance.fullname));
                }
            }
        }
    }
}

/// A scan ends in two places only: where the daemon could not be created,
/// and where the driver reports on the release of the daemon. So no scan
/// that had a daemon ends without having asked for its release. The list
/// that a sound session hands out names no instance twice, and a scan that
/// ends with a failure has recorded nothing.
pub proof fn lemma_scan_ends_after_release(session: SessionModel, outcome: OutcomeModel)
    requires
        sound(session),
        next(session, outcome) is Finished,
    ensures
        session.phase == Phase::AcquiringDaemon || session.phase == Phase::Releasing,
        session.phase == Phase::AcquiringDaemon ==> outcome is DaemonFailed,
        session.phase == Phase::Releasing ==> pending(session) == CommandModel::ReleaseDaemon && (
        outcome is Released || outcome is ReleaseFailed),
        match next(session, outcome)->report.result {
            Ok(records) => records == session.records && fullnames(records).no_duplicates(),
            Err(error) => session.records.len() == 0,
        },
{
}

/// Whatever the driver reports, and in whatever order: the session of a scan
/// is sound, it keeps the service type and the budget that it began with,
/// and the list that the scan hands out names no instance twice.
pub proof fn lemma_scan_stays_sound(
    service_type: Seq<char>,
    budget_millis: u64,
    outcomes: Seq<OutcomeModel>,
)
    ensures
        match run(initial(service_type, budget_millis), outcomes) {
            StepModel::Continue { session } => {
                &&& sound(session)
                &&& session.service_type == service_type
                &&& session.budget_millis == budget_millis
            },
            StepModel::Finished { report } => report.result matches Ok(records) ==> fullnames(
                records,
            ).no_duplicates(),
        },
    decreases outcomes.len(),
{
    if outcomes.len() > 0 {
        lemma_scan_stays_sound(service_type, budget_millis, outcomes.drop_last());
        if let StepModel::Continue { session } = run(
            initial(service_type, budget_millis),
            outcomes.drop_last(),
        ) {
            if next(session, outcomes.last()) is Continue {
                lemma_step_goes_forward(session, outcomes.last());
            } else {
                lemma_scan_ends_after_release(session, outcomes.last());
            }
        }
    }
}

} // verus!
