//! The run of one operation as a state machine: fetch state, run the
//! maintenance plan, plan the operation, run its plan. The caller performs
//! each action and reports what came of it.
use vstd::prelude::*;

verus! {

/// Where a run stands.
#[derive(Clone, Copy, Debug, PartialEq, Eq)]
pub enum Phase {
    /// The pool and validator list are being read.
    FetchState,
    /// Batch `next` of the `total` maintenance batches is in flight.
    Maintenance { next: usize, total: usize },
    /// The operation's plan is being built from fresh state.
    BuildOperation,
    /// Batch `next` of the `total` batches of the operation is in flight.
    Operation { next: usize, total: usize },
    /// Every batch landed.
    Done,
    /// A precondition failed or a batch did not land.
    Failed,
}

/// What the caller reports after performing an action.
#[derive(Clone, Copy, Debug, PartialEq, Eq)]
pub enum Event {
    /// State was read and the maintenance plan has this many batches.
    StateFetched { maintenance_batches: usize },
    /// The batch in flight landed, confirmed where it had to be.
    BatchLanded,
    /// The operation's plan was built with this many batches.
    OperationPlanned { batches: usize },
    /// A read, a plan or a submission failed.
    Failure,
}

/// What the caller is to do next.
#[derive(Clone, Copy, Debug, PartialEq, Eq)]
pub enum Action {
    Fetch,
    SubmitMaintenance { index: usize },
    Plan,
    SubmitOperation { index: usize },
    Stop,
}

/// A phase whose batch index lies within its plan.
pub open spec fn phase_wf(p: Phase) -> bool {
    match p {
        Phase::Maintenance { next, total } => next < total,
        Phase::Operation { next, total } => next < total,
        _ => true,
    }
}

/// Whether a run has ended.
pub open spec fn is_terminal(p: Phase) -> bool {
    p is Done || p is Failed
}

/// Entering the maintenance stage with `total` batches.
pub open spec fn enter_maintenance(total: usize) -> (Phase, Action) {
    if total > 0 {
        (Phase::Maintenance { next: 0, total }, Action::SubmitMaintenance { index: 0 })
    } else {
        (Phase::BuildOperation, Action::Plan)
    }
}

/// Entering the operation stage with `total` batches.
pub open spec fn enter_operation(total: usize) -> (Phase, Action) {
    if total > 0 {
        (Phase::Operation { next: 0, total }, Action::SubmitOperation { index: 0 })
    } else {
        (Phase::Done, Action::Stop)
    }
}

/// One step of a run: batches of each plan go out one at a time and in order,
/// the next only after the one before landed; any failure ends the run.
pub open spec fn transition(p: Phase, e: Event) -> (Phase, Action) {
    if is_terminal(p) {
        (p, Action::Stop)
    } else {
        match (p, e) {
            (_, Event::Failure) => (Phase::Failed, Action::Stop),
            (Phase::FetchState, Event::StateFetched { maintenance_batches }) =>
                enter_maintenance(maintenance_batches),
            (Phase::Maintenance { next, total }, Event::BatchLanded) => if next + 1 < total {
                (
                    Phase::Maintenance { next: (next + 1) as usize, total },
                    Action::SubmitMaintenance { index: (next + 1) as usize },
                )
            } else {
                (Phase::BuildOperation, Action::Plan)
            },
            (Phase::BuildOperation, Event::OperationPlanned { batches }) => enter_operation(batches),
            (Phase::Operation { next, total }, Event::BatchLanded) => if next + 1 < total {
                (
                    Phase::Operation { next: (next + 1) as usize, total },
                    Action::SubmitOperation { index: (next + 1) as usize },
                )
            } else {
                (Phase::Done, Action::Stop)
            },
            _ => (Phase::Failed, Action::Stop),
        }
    }
}

/// The first phase of a run, and its action.
pub fn start() -> (r: (Phase, Action))
    ensures
        r == (Phase::FetchState, Action::Fetch),
{
    (Phase::FetchState, Action::Fetch)
}

/// The phase and action that follow `phase` on `event`.
pub fn step(phase: Phase, event: Event) -> (r: (Phase, Action))
    requires
        phase_wf(phase),
    ensures
        r == transition(phase, event),
        phase_wf(r.0),
{
    match phase {
        Phase::Done | Phase::Failed => (phase, Action::Stop),
        _ => match (phase, event) {
            (_, Event::Failure) => (Phase::Failed, Action::Stop),
            (Phase::FetchState, Event::StateFetched { maintenance_batches }) => {
                if maintenance_batches > 0 {
                    (
                        Phase::Maintenance { next: 0, total: maintenance_batches },
                        Action::SubmitMaintenance { index: 0 },
                    )
                } else {
                    (Phase::BuildOperation, Action::Plan)
                }
            },
            (Phase::Maintenance { next, total }, Event::BatchLanded) => {
                if next + 1 < total {
                    (Phase::Maintenance { next: next + 1, total }, Action::SubmitMaintenance { index: next + 1 })
                } else {
                    (Phase::BuildOperation, Action::Plan)
                }
            },
            (Phase::BuildOperation, Event::OperationPlanned { batches }) => {
                if batches > 0 {
                    (Phase::Operation { next: 0, total: batches }, Action::SubmitOperation { index: 0 })
                } else {
                    (Phase::Done, Action::Stop)
                }
            },
            (Phase::Operation { next, total }, Event::BatchLanded) => {
                if next + 1 < total {
                    (Phase::Operation { next: next + 1, total }, Action::SubmitOperation { index: next + 1 })
                } else {
                    (Phase::Done, Action::Stop)
                }
            },
            _ => (Phase::Failed, Action::Stop),
        },
    }
}

/// A failure in any running phase ends the run as failed, and an ended run
/// stays as it is whatever is reported.
pub proof fn failure_aborts_and_ends_stay(p: Phase, e: Event)
    ensures
        !is_terminal(p) ==> transition(p, Event::Failure) == (Phase::Failed, Action::Stop),
        is_terminal(p) ==> transition(p, e) == (p, Action::Stop),
{
}

/// Batches go out in order: after batch `next` of a plan lands, the only batch
/// submitted is batch `next + 1` of the same plan, and only when there is one;
/// the operation is planned only after the last maintenance batch landed, and
/// the run is done only after the last operation batch landed.
pub proof fn batches_go_out_in_order(p: Phase)
    requires
        phase_wf(p),
    ensures
        match (p, transition(p, Event::BatchLanded)) {
            (Phase::Maintenance { next, total }, (q, Action::SubmitMaintenance { index })) =>
                index == next + 1 && index < total && q == Phase::Maintenance { next: index, total },
            (Phase::Maintenance { next, total }, (q, Action::Plan)) =>
                next + 1 == total && q == Phase::BuildOperation,
            (Phase::Maintenance { .. }, _) => false,
            (Phase::Operation { next, total }, (q, Action::SubmitOperation { index })) =>
                index == next + 1 && index < total && q == Phase::Operation { next: index, total },
            (Phase::Operation { next, total }, (q, Action::Stop)) => next + 1 == total && q == Phase::Done,
            (Phase::Operation { .. }, _) => false,
            _ => true,
        },
{
}

} // verus!
