//! The course of an operation that needs the chain data service.
//!
//! The engine does not reach the network. Whoever does asks the engine what
//! to do, does it, and comes back with what happened; the engine says what
//! comes next. So the order of the steps, and what a failure means for the
//! rest, is decided here.

use crate::client::{broadcast_fault, BroadcastReport};
use crate::error::WalletError;
use crate::sync::{after_sync, after_sync_spec, Operation, SyncOutcome};
use vstd::prelude::*;

verus! {

/// What an operation waits for.
#[derive(Clone, Copy, Debug, PartialEq, Eq, Structural)]
pub enum Stage {
    /// The wallet is being synchronised with the chain.
    Syncing,
    /// The transaction is being built and signed, at the fee rate that the
    /// service estimates.
    Signing,
    /// The transaction is being sent.
    Broadcasting,
    /// The operation is over.
    Done,
}

/// What happened outside.
#[derive(Clone, Copy, Debug, PartialEq, Eq, Structural)]
pub enum Event {
    /// The synchronisation ended.
    Synced(SyncOutcome),
    /// The transaction is signed.
    Signed,
    /// No signed transaction could be made.
    NotSigned(WalletError),
    /// The service answered to the transaction, or did not.
    Sent(BroadcastReport),
}

/// What to do next.
#[derive(Clone, Copy, Debug, PartialEq, Eq, Structural)]
pub enum Action {
    /// Synchronise the wallet with the chain.
    Sync,
    /// Read from the wallet what was asked for, and hand it out.
    Read,
    /// Ask for a fee estimate, then build and sign the transaction.
    Sign,
    /// Send the signed transaction.
    Broadcast,
    /// Hand out the transaction that was sent.
    Return,
    /// Give up with an error.
    Fail(WalletError),
}

/// A stage and the action that leads out of it.
#[derive(Clone, Copy, Debug, PartialEq, Eq, Structural)]
pub struct Step {
    pub stage: Stage,
    pub action: Action,
}

/// Every operation begins with a synchronisation.
pub open spec fn first_step() -> Step {
    Step { stage: Stage::Syncing, action: Action::Sync }
}

/// What follows an event.
///
/// - After a synchronisation a reading reads, whether the service failed or
///   not: it may show a view that is not the newest. A sending goes on to
///   sign only if the synchronisation succeeded.
/// - A signed transaction is sent; without one the operation fails with the
///   error that kept it from being signed.
/// - A transaction that the service took is handed out; one that it
///   refused, or that may not have reached it, is an error.
/// - An event that the stage does not wait for ends the operation.
pub open spec fn next_step(operation: Operation, stage: Stage, event: Event) -> Step {
    match (stage, event) {
        (Stage::Syncing, Event::Synced(outcome)) => match after_sync_spec(operation, outcome) {
            Err(fault) => Step { stage: Stage::Done, action: Action::Fail(fault) },
            Ok(_) => match operation {
                Operation::Read => Step { stage: Stage::Done, action: Action::Read },
                Operation::Send => Step { stage: Stage::Signing, action: Action::Sign },
            },
        },
        (Stage::Signing, Event::Signed) => Step {
            stage: Stage::Broadcasting,
            action: Action::Broadcast,
        },
        (Stage::Signing, Event::NotSigned(fault)) => Step {
            stage: Stage::Done,
            action: Action::Fail(fault),
        },
        (Stage::Broadcasting, Event::Sent(report)) => match broadcast_fault(report) {
            None => Step { stage: Stage::Done, action: Action::Return },
            Some(fault) => Step { stage: Stage::Done, action: Action::Fail(fault) },
        },
        _ => Step { stage: Stage::Done, action: Action::Fail(WalletError::ChainClientError) },
    }
}

/// The first step of an operation.
pub fn start() -> (step: Step)
    ensures
        step == first_step(),
{
    Step { stage: Stage::Syncing, action: Action::Sync }
}

/// The step that follows an event.
pub fn next(operation: Operation, stage: Stage, event: Event) -> (step: Step)
    ensures
        step == next_step(operation, stage, event),
{
    match stage {
        Stage::Syncing => match event {
            Event::Synced(outcome) => match after_sync(operation, outcome) {
                Err(fault) => Step { stage: Stage::Done, action: Action::Fail(fault) },
                Ok(_) => match operation {
                    Operation::Read => Step { stage: Stage::Done, action: Action::Read },
                    Operation::Send => Step { stage: Stage::Signing, action: Action::Sign },
                },
            },
            _ => unexpected(),
        },
        Stage::Signing => match event {
            Event::Signed => Step { stage: Stage::Broadcasting, action: Action::Broadcast },
            Event::NotSigned(fault) => Step { stage: Stage::Done, action: Action::Fail(fault) },
            _ => unexpected(),
        },
        Stage::Broadcasting => match event {
            Event::Sent(BroadcastReport::Accepted) => Step {
                stage: Stage::Done,
                action: Action::Return,
            },
            Event::Sent(BroadcastReport::Rejected) => Step {
                stage: Stage::Done,
                action: Action::Fail(WalletError::BroadcastRejected),
            },
            Event::Sent(BroadcastReport::Unreachable) => Step {
                stage: Stage::Done,
                action: Action::Fail(WalletError::ChainClientError),
            },
            _ => unexpected(),
        },
        Stage::Done => unexpected(),
    }
}

/// The end of an operation that was told of an event it did not wait for.
fn unexpected() -> (step: Step)
    ensures
        step == (Step { stage: Stage::Done, action: Action::Fail(WalletError::ChainClientError) }),
{
    Step { stage: Stage::Done, action: Action::Fail(WalletError::ChainClientError) }
}

/// The steps that a run of events leads through, from the first step on. A
/// run ends where the operation is over; what is told after that counts for
/// nothing.
pub open spec fn steps_of(operation: Operation, events: Seq<Event>) -> Seq<Step>
    decreases events.len(),
{
    if events.len() == 0 {
        seq![first_step()]
    } else {
        let before = steps_of(operation, events.drop_last());
        if before.last().stage == Stage::Done {
            before
        } else {
            before.push(next_step(operation, before.last().stage, events.last()))
        }
    }
}

/// A run has a first step, and it is the synchronisation.
pub proof fn lemma_run_begins_with_sync(operation: Operation, events: Seq<Event>)
    ensures
        steps_of(operation, events).len() > 0,
        steps_of(operation, events)[0] == first_step(),
    decreases events.len(),
{
    if events.len() > 0 {
        lemma_run_begins_with_sync(operation, events.drop_last());
    }
}

/// Nothing is signed or sent from a view of the chain that may be stale: in
/// whatever way the events fall, where a run comes to sign or to send, the
/// operation is a sending and its second step followed a synchronisation
/// that succeeded. And a reading never signs nor sends.
pub proof fn lemma_spending_follows_a_good_sync(
    operation: Operation,
    events: Seq<Event>,
    position: int,
)
    requires
        0 <= position < steps_of(operation, events).len(),
        steps_of(operation, events)[position].action == Action::Sign || steps_of(
            operation,
            events,
        )[position].action == Action::Broadcast,
    ensures
        operation == Operation::Send,
        events.len() > 0,
        events[0] matches Event::Synced(SyncOutcome::Synced { committed }),
    decreases events.len(),
{
    lemma_run_shape(operation, events);
}

/// How a run goes: it is never longer than its events and one; once it is
/// past the first step, the first event was a synchronisation, and past a
/// step that signs it was one that succeeded, for a sending.
proof fn lemma_run_shape(operation: Operation, events: Seq<Event>)
    ensures
        ({
            let steps = steps_of(operation, events);
            &&& 0 < steps.len() <= events.len() + 1
            &&& steps[0] == first_step()
            &&& forall|i: int|
                0 < i < steps.len() ==> (#[trigger] steps[i - 1]).stage != Stage::Done
            &&& forall|i: int|
                0 <= i < steps.len() && ((#[trigger] steps[i]).action == Action::Sign
                    || steps[i].action == Action::Broadcast || steps[i].stage == Stage::Signing
                    || steps[i].stage == Stage::Broadcasting) ==> {
                    &&& operation == Operation::Send
                    &&& events.len() > 0
                    &&& events[0] matches Event::Synced(SyncOutcome::Synced { committed })
                }
        }),
    decreases events.len(),
{
    if events.len() > 0 {
        lemma_run_shape(operation, events.drop_last());
        lemma_only_first_step_syncs(operation, events.drop_last());
    }
}

/// Only the first step of a run waits for the synchronisation.
proof fn lemma_only_first_step_syncs(operation: Operation, events: Seq<Event>)
    ensures
        forall|i: int|
            0 < i < steps_of(operation, events).len() ==> (#[trigger] steps_of(
                operation,
                events,
            )[i]).stage != Stage::Syncing,
        events.len() > 0 ==> steps_of(operation, events).len() > 1,
    decreases events.len(),
{
    if events.len() > 0 {
        lemma_only_first_step_syncs(operation, events.drop_last());
        lemma_run_begins_with_sync(operation, events.drop_last());
    }
}

} // verus!
