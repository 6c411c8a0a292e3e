//! The control loop: sleep, refresh the pool's bookkeeping, evaluate, and
//! dispatch at most one increase; then sleep again, for ever.
//!
//! The loop itself sleeps, reads and submits nothing. [`turn`] says what is
//! to be done next, and is told how it went. A failure ends the iteration it
//! happened in, never the loop.

use crate::address::Address;
use crate::candidate::ValidatorCandidate;
use crate::chain::{Query, QueryKind, Reply};
use crate::config::Settings;
use crate::decision::{NoActionReason, RebalanceDecision, Severity};
use crate::engine::{next, step, CycleOutcome, Pending, Progress};
use vstd::prelude::*;

verus! {

/// Where the loop stands.
#[derive(Clone, Copy, Debug, PartialEq, Eq)]
pub enum Phase {
    /// Between iterations.
    Sleeping,
    /// The refresh of the pool's bookkeeping has been requested.
    Refreshing,
    /// An evaluation is under way and waits for a reply.
    Evaluating { pending: Pending },
    /// An increase has been handed to the dispatcher.
    Dispatching,
}

/// What the loop is told.
#[derive(Clone, Copy, Debug, PartialEq, Eq)]
pub enum Event {
    /// The sleep is over.
    Woke,
    /// The refresh was attempted.
    Refreshed { succeeded: bool },
    /// A query was answered.
    Answered { reply: Reply },
    /// The increase was attempted.
    Dispatched { succeeded: bool },
}

/// What the loop wants done.
#[derive(Clone, Copy, Debug, PartialEq, Eq)]
pub enum Action {
    Sleep { seconds: u64 },
    RefreshPool { pool_address: Address, dry_run: bool },
    Ask { query: Query },
    SubmitIncrease { pool_address: Address, vote_account_address: Address, amount: u64, dry_run: bool },
}

/// What happened, for whoever watches the loop.
#[derive(Clone, Copy, Debug, PartialEq, Eq)]
pub enum Report {
    RefreshFailed,
    NoAction { reason: NoActionReason },
    Increase { target_validator: ValidatorCandidate, amount: u64 },
    QueryFailed { query: QueryKind },
    DispatchFailed,
    /// The loop was told of something it was not waiting for.
    UnexpectedEvent,
}

impl Report {
    /// Failures are errors; a decision is as loud as its reason.
    pub open spec fn severity_of(self) -> Severity {
        match self {
            Report::NoAction { reason } => reason.severity_of(),
            Report::Increase { .. } => Severity::Info,
            _ => Severity::Error,
        }
    }

    /// How loudly the report is to be made.
    pub fn severity(&self) -> (r: Severity)
        ensures
            r == self.severity_of(),
    {
        match self {
            Report::NoAction { reason } => reason.severity(),
            Report::Increase { .. } => Severity::Info,
            _ => Severity::Error,
        }
    }
}

/// One turn of the loop: where it stands now, what is to be done, and what
/// there is to report.
#[derive(Clone, Copy, Debug, PartialEq, Eq)]
pub struct Turn {
    pub phase: Phase,
    pub action: Action,
    pub report: Option<Report>,
}

/// Ends the iteration: back to sleep for the configured interval.
pub open spec fn rest(settings: Settings, report: Option<Report>) -> Turn {
    Turn {
        phase: Phase::Sleeping,
        action: Action::Sleep { seconds: settings.loop_interval_seconds },
        report,
    }
}

/// The turn that follows from an engine's progress.
pub open spec fn follow(settings: Settings, progress: Progress) -> Turn {
    match progress {
        Progress::Ask { pending, query } => Turn {
            phase: Phase::Evaluating { pending },
            action: Action::Ask { query },
            report: None,
        },
        Progress::Finish { outcome } => match outcome {
            CycleOutcome::Failed { query } => rest(settings, Some(Report::QueryFailed { query })),
            CycleOutcome::Decided { decision } => match decision {
                RebalanceDecision::NoAction { reason } => rest(
                    settings,
                    Some(Report::NoAction { reason }),
                ),
                RebalanceDecision::Increase { target_validator, amount } => Turn {
                    phase: Phase::Dispatching,
                    action: Action::SubmitIncrease {
                        pool_address: settings.pool_address,
                        vote_account_address: target_validator.vote_account_address,
                        amount,
                        dry_run: settings.dry_run,
                    },
                    report: Some(Report::Increase { target_validator, amount }),
                },
            },
        },
    }
}

/// The loop's transition.
///
/// Waking up always leads to the refresh. After the refresh, failed or not,
/// the evaluation starts unless rebalancing is disabled. The evaluation goes
/// query by query; it ends the iteration unless it decides on an increase,
/// which is dispatched once. Whatever comes of the dispatch, the iteration
/// is over. An event that the loop was not waiting for ends the iteration
/// too.
pub open spec fn turn_of(settings: Settings, phase: Phase, event: Event) -> Turn {
    match (phase, event) {
        (Phase::Sleeping, Event::Woke) => Turn {
            phase: Phase::Refreshing,
            action: Action::RefreshPool {
                pool_address: settings.pool_address,
                dry_run: settings.dry_run,
            },
            report: None,
        },
        (Phase::Refreshing, Event::Refreshed { succeeded }) => {
            let report = if succeeded {
                None
            } else {
                Some(Report::RefreshFailed)
            };
            if settings.disable_rebalance {
                rest(settings, report)
            } else {
                Turn {
                    phase: Phase::Evaluating { pending: Pending::Epoch },
                    action: Action::Ask { query: Query::EpochProgress },
                    report,
                }
            }
        },
        (Phase::Evaluating { pending }, Event::Answered { reply }) => follow(
            settings,
            next(settings, pending, reply),
        ),
        (Phase::Dispatching, Event::Dispatched { succeeded }) => rest(
            settings,
            if succeeded {
                None
            } else {
                Some(Report::DispatchFailed)
            },
        ),
        _ => rest(settings, Some(Report::UnexpectedEvent)),
    }
}

/// The loop's first turn: it starts by sleeping.
pub fn start(settings: &Settings) -> (t: Turn)
    ensures
        t == rest(*settings, None),
{
    Turn {
        phase: Phase::Sleeping,
        action: Action::Sleep { seconds: settings.loop_interval_seconds },
        report: None,
    }
}

/// Ends the iteration.
fn rest_turn(settings: &Settings, report: Option<Report>) -> (t: Turn)
    ensures
        t == rest(*settings, report),
{
    Turn {
        phase: Phase::Sleeping,
        action: Action::Sleep { seconds: settings.loop_interval_seconds },
        report,
    }
}

/// Takes the loop one turn further.
pub fn turn(settings: &Settings, phase: Phase, event: Event) -> (t: Turn)
    ensures
        t == turn_of(*settings, phase, event),
{
    match (phase, event) {
        (Phase::Sleeping, Event::Woke) => Turn {
            phase: Phase::Refreshing,
            action: Action::RefreshPool {
                pool_address: settings.pool_address,
                dry_run: settings.dry_run,
            },
            report: None,
        },
        (Phase::Refreshing, Event::Refreshed { succeeded }) => {
            let report = if succeeded {
                None
            } else {
                Some(Report::RefreshFailed)
            };
            if settings.disable_rebalance {
                rest_turn(settings, report)
            } else {
                Turn {
                    phase: Phase::Evaluating { pending: Pending::Epoch },
                    action: Action::Ask { query: Query::EpochProgress },
                    report,
                }
            }
        },
        (Phase::Evaluating { pending }, Event::Answered { reply }) => {
            match step(settings, pending, reply) {
                Progress::Ask { pending, query } => Turn {
                    phase: Phase::Evaluating { pending },
                    action: Action::Ask { query },
                    report: None,
                },
                Progress::Finish { outcome } => match outcome {
                    CycleOutcome::Failed { query } => rest_turn(
                        settings,
                        Some(Report::QueryFailed { query }),
                    ),
                    CycleOutcome::Decided { decision } => match decision {
                        RebalanceDecision::NoAction { reason } => rest_turn(
                            settings,
                            Some(Report::NoAction { reason }),
                        ),
                        RebalanceDecision::Increase { target_validator, amount } => Turn {
                            phase: Phase::Dispatching,
                            action: Action::SubmitIncrease {
                                pool_address: settings.pool_address,
                                vote_account_address: target_validator.vote_account_address,
                                amount,
                                dry_run: settings.dry_run,
                            },
                            report: Some(Report::Increase { target_validator, amount }),
                        },
                    },
                },
            }
        },
        (Phase::Dispatching, Event::Dispatched { succeeded }) => rest_turn(
            settings,
            if succeeded {
                None
            } else {
                Some(Report::DispatchFailed)
            },
        ),
        _ => rest_turn(settings, Some(Report::UnexpectedEvent)),
    }
}

/// Where the loop stands after the events `events`, told one by one to a
/// loop that stood at `from`.
pub open spec fn phase_after(settings: Settings, from: Phase, events: Seq<Event>) -> Phase
    decreases events.len(),
{
    if events.len() == 0 {
        from
    } else {
        turn_of(settings, phase_after(settings, from, events.drop_last()), events.last()).phase
    }
}

/// The actions that the loop asked for in response to `events`, in order.
pub open spec fn actions_after(settings: Settings, from: Phase, events: Seq<Event>) -> Seq<Action>
    decreases events.len(),
{
    if events.len() == 0 {
        Seq::empty()
    } else {
        actions_after(settings, from, events.drop_last()).push(
            turn_of(settings, phase_after(settings, from, events.drop_last()), events.last()).action,
        )
    }
}

/// The number of increases submitted since the last sleep.
pub open spec fn increases_since_sleep(actions: Seq<Action>) -> nat
    decreases actions.len(),
{
    if actions.len() == 0 {
        0
    } else {
        match actions.last() {
            Action::Sleep { .. } => 0,
            Action::SubmitIncrease { .. } => 1 + increases_since_sleep(actions.drop_last()),
            _ => increases_since_sleep(actions.drop_last()),
        }
    }
}

/// The loop goes on whatever happens: a failed refresh is followed by the
/// same action as a successful one, and a failed read or a failed dispatch
/// by the next sleep.
pub proof fn lemma_failures_end_the_iteration_only(settings: Settings, pending: Pending)
    ensures
        turn_of(settings, Phase::Refreshing, Event::Refreshed { succeeded: false }).phase == turn_of(
            settings,
            Phase::Refreshing,
            Event::Refreshed { succeeded: true },
        ).phase,
        turn_of(settings, Phase::Refreshing, Event::Refreshed { succeeded: false }).action
            == turn_of(settings, Phase::Refreshing, Event::Refreshed { succeeded: true }).action,
        turn_of(settings, Phase::Evaluating { pending }, Event::Answered { reply: Reply::Failed })
            == rest(
            settings,
            Some(Report::QueryFailed { query: awaited_kind(settings, pending) }),
        ),
        turn_of(settings, Phase::Dispatching, Event::Dispatched { succeeded: false }) == rest(
            settings,
            Some(Report::DispatchFailed),
        ),
{
}

/// The kind of the query that an evaluation standing at `pending` awaits.
pub open spec fn awaited_kind(settings: Settings, pending: Pending) -> QueryKind {
    crate::engine::awaited(settings, pending).kind_of()
}

/// Every iteration starts with the refresh, and an increase is dispatched
/// only as the last step of an evaluation: after a sleep the loop asks for
/// the refresh whatever the settings say, and only a reply to an
/// evaluation's query leads to an increase.
pub proof fn lemma_increase_only_from_evaluation(settings: Settings, phase: Phase, event: Event)
    ensures
        turn_of(settings, Phase::Sleeping, Event::Woke).action is RefreshPool,
        turn_of(settings, phase, event).action is SubmitIncrease ==> {
            &&& phase matches Phase::Evaluating { pending }
            &&& event matches Event::Answered { reply }
            &&& next(settings, pending, reply) matches Progress::Finish {
                outcome: CycleOutcome::Decided {
                    decision: RebalanceDecision::Increase { target_validator, amount },
                },
            }
            &&& turn_of(settings, phase, event).action == (Action::SubmitIncrease {
                pool_address: settings.pool_address,
                vote_account_address: target_validator.vote_account_address,
                amount,
                dry_run: settings.dry_run,
            })
            &&& turn_of(settings, phase, event).phase is Dispatching
        },
        turn_of(settings, phase, event).phase is Dispatching ==> turn_of(
            settings,
            phase,
            event,
        ).action is SubmitIncrease,
        phase is Dispatching ==> turn_of(settings, phase, event).action is Sleep,
{
}

/// The invariant behind the law below: the loop stands at `Dispatching`
/// exactly when one increase has been submitted since the last sleep, and
/// otherwise none has.
pub proof fn lemma_increases_follow_phase(settings: Settings, events: Seq<Event>)
    ensures
        increases_since_sleep(actions_after(settings, Phase::Sleeping, events)) == (if phase_after(
            settings,
            Phase::Sleeping,
            events,
        ) is Dispatching {
            1nat
        } else {
            0nat
        }),
    decreases events.len(),
{
    if events.len() > 0 {
        let before = events.drop_last();
        lemma_increases_follow_phase(settings, before);
        let phase = phase_after(settings, Phase::Sleeping, before);
        let actions = actions_after(settings, Phase::Sleeping, before);
        let t = turn_of(settings, phase, events.last());
        lemma_increase_only_from_evaluation(settings, phase, events.last());
        assert(actions.push(t.action).drop_last() =~= actions);
        assert(actions.push(t.action).last() == t.action);
    }
}

/// At most one increase per iteration: however the loop's sleeps, reads and
/// dispatches go, and however many candidates are free, no more than one
/// increase is submitted between one sleep and the next.
pub proof fn lemma_at_most_one_increase_per_iteration(settings: Settings, events: Seq<Event>)
    ensures
        increases_since_sleep(actions_after(settings, Phase::Sleeping, events)) <= 1,
{
    lemma_increases_follow_phase(settings, events);
}

/// With rebalancing disabled the loop only sleeps and refreshes.
pub proof fn lemma_disabled_loop_only_refreshes(settings: Settings, events: Seq<Event>)
    requires
        settings.disable_rebalance,
    ensures
        phase_after(settings, Phase::Sleeping, events) is Sleeping || phase_after(
            settings,
            Phase::Sleeping,
            events,
        ) is Refreshing,
        forall|i: int|
            0 <= i < actions_after(settings, Phase::Sleeping, events).len() ==> {
                let action = #[trigger] actions_after(settings, Phase::Sleeping, events)[i];
                action is Sleep || action is RefreshPool
            },
    decreases events.len(),
{
    if events.len() > 0 {
        lemma_disabled_loop_only_refreshes(settings, events.drop_last());
    }
}

} // verus!
