//! What a synchronisation with the chain changed, and what an operation
//! does when the synchronisation failed.
//!
//! The backend reconciles its store with the chain data service. The engine
//! compares what the wallet held before with what it holds after: every
//! output with its block, and the tip. It commits a change where the two
//! differ in anything.

use crate::error::WalletError;
use crate::ledger::{utxo_equal, utxo_views, Utxo, UtxoView};
use vstd::prelude::*;

verus! {

/// Whether a list holds an output, block and all.
pub open spec fn lists(outputs: Seq<UtxoView>, output: UtxoView) -> bool {
    exists|k: int| 0 <= k < outputs.len() && #[trigger] outputs[k] == output
}

/// Whether every output of the first list is in the second.
pub open spec fn covered_by(first: Seq<UtxoView>, second: Seq<UtxoView>) -> bool {
    forall|i: int| 0 <= i < first.len() ==> lists(second, #[trigger] first[i])
}

/// Whether two lists hold the same set of outputs, each as it is in the
/// other, whatever their order and however often an output is listed.
pub open spec fn same_outputs(before: Seq<UtxoView>, after: Seq<UtxoView>) -> bool {
    covered_by(before, after) && covered_by(after, before)
}

/// Whether the wallet is after a synchronisation as it was before: it holds
/// the same outputs, each in the same block or in none, and its tip is the
/// same.
pub open spec fn same_state(
    before: Seq<UtxoView>,
    before_tip: Option<u32>,
    after: Seq<UtxoView>,
    after_tip: Option<u32>,
) -> bool {
    same_outputs(before, after) && before_tip == after_tip
}

/// Whether a list holds an output, block and all.
pub fn contains_output(outputs: &Vec<Utxo>, output: &Utxo) -> (found: bool)
    ensures
        found == lists(utxo_views(outputs@), output@),
{
    let ghost views = utxo_views(outputs@);
    let mut k: usize = 0;
    while k < outputs.len()
        invariant
            k <= outputs.len(),
            views == utxo_views(outputs@),
            forall|m: int| 0 <= m < k ==> #[trigger] views[m] != output@,
        decreases outputs.len() - k,
    {
        assert(views[k as int] == outputs@[k as int]@);
        if utxo_equal(&outputs[k], output) {
            return true;
        }
        k += 1;
    }
    false
}

/// Whether every output of the first list is in the second.
pub fn is_covered_by(first: &Vec<Utxo>, second: &Vec<Utxo>) -> (covered: bool)
    ensures
        covered == covered_by(utxo_views(first@), utxo_views(second@)),
{
    let ghost views = utxo_views(first@);
    let mut i: usize = 0;
    while i < first.len()
        invariant
            i <= first.len(),
            views == utxo_views(first@),
            forall|m: int| 0 <= m < i ==> lists(utxo_views(second@), #[trigger] views[m]),
        decreases first.len() - i,
    {
        assert(views[i as int] == first@[i as int]@);
        if !contains_output(second, &first[i]) {
            return false;
        }
        i += 1;
    }
    true
}

/// Whether a synchronisation changed the wallet: `before` and `before_tip`
/// are what it held and where its chain stood ahead of it, `after` and
/// `after_tip` what it holds and where the chain stands now.
pub fn sync_committed(
    before: &Vec<Utxo>,
    before_tip: Option<u32>,
    after: &Vec<Utxo>,
    after_tip: Option<u32>,
) -> (committed: bool)
    ensures
        committed == !same_state(utxo_views(before@), before_tip, utxo_views(after@), after_tip),
{
    let same_tip = match (before_tip, after_tip) {
        (Some(old), Some(new)) => old == new,
        (None, None) => true,
        _ => false,
    };
    !(same_tip && is_covered_by(before, after) && is_covered_by(after, before))
}

/// A wallet that is after a synchronisation as it was before commits
/// nothing.
pub proof fn lemma_unchanged_state_commits_nothing(held: Seq<UtxoView>, tip: Option<u32>)
    ensures
        same_state(held, tip, held, tip),
{
}

/// A synchronisation that moves an output into a block commits, though the
/// wallet holds the same outputs at the same places; and so does one that
/// only moves the tip.
pub proof fn lemma_confirmation_and_tip_commit(
    before: Seq<UtxoView>,
    before_tip: Option<u32>,
    after: Seq<UtxoView>,
    after_tip: Option<u32>,
    position: int,
)
    requires
        0 <= position < before.len(),
    ensures
        (forall|k: int|
            0 <= k < after.len() && (#[trigger] after[k]).outpoint == before[position].outpoint
                ==> after[k].confirmation != before[position].confirmation) ==> !same_state(
            before,
            before_tip,
            after,
            after_tip,
        ),
        before_tip != after_tip ==> !same_state(before, before_tip, after, after_tip),
{
    if forall|k: int|
        0 <= k < after.len() && (#[trigger] after[k]).outpoint == before[position].outpoint
            ==> after[k].confirmation != before[position].confirmation {
        assert(!lists(after, before[position]));
    }
}

/// Two synchronisations agree when they found the same outputs: what
/// counts is the set, so results that arrive in another order merge to the
/// same state.
pub proof fn lemma_sync_ignores_order(
    before: Seq<UtxoView>,
    first: Seq<UtxoView>,
    second: Seq<UtxoView>,
)
    requires
        same_outputs(first, second),
    ensures
        same_outputs(before, first) == same_outputs(before, second),
{
    lemma_cover_is_transitive(before, first, second);
    lemma_cover_is_transitive(before, second, first);
    lemma_cover_is_transitive(first, second, before);
    lemma_cover_is_transitive(second, first, before);
}

/// What covers a list that covers another covers the other.
proof fn lemma_cover_is_transitive(a: Seq<UtxoView>, b: Seq<UtxoView>, c: Seq<UtxoView>)
    ensures
        covered_by(a, b) && covered_by(b, c) ==> covered_by(a, c),
{
}

/// What an operation is for.
#[derive(Clone, Copy, Debug, PartialEq, Eq, Structural)]
pub enum Operation {
    /// Reading the wallet's outputs or its balance.
    Read,
    /// Sending the wallet's funds.
    Send,
}

/// What a synchronisation came to.
#[derive(Clone, Copy, Debug, PartialEq, Eq, Structural)]
pub enum SyncOutcome {
    /// The store now agrees with the chain; `committed` says whether that
    /// changed anything.
    Synced { committed: bool },
    /// The chain data service failed.
    Failed,
}

/// How an operation goes on after a synchronisation. A reading shows the
/// view it has when the service failed, as one that saw no progress. A
/// sending stops: to spend from a view that may be stale risks spending an
/// output twice.
pub open spec fn after_sync_spec(operation: Operation, outcome: SyncOutcome) -> Result<
    bool,
    WalletError,
> {
    match outcome {
        SyncOutcome::Synced { committed } => Ok(committed),
        SyncOutcome::Failed => match operation {
            Operation::Read => Ok(false),
            Operation::Send => Err(WalletError::ChainClientError),
        },
    }
}

/// How an operation goes on after a synchronisation.
pub fn after_sync(operation: Operation, outcome: SyncOutcome) -> (progress: Result<
    bool,
    WalletError,
>)
    ensures
        progress == after_sync_spec(operation, outcome),
{
    match outcome {
        SyncOutcome::Synced { committed } => Ok(committed),
        SyncOutcome::Failed => match operation {
            Operation::Read => Ok(false),
            Operation::Send => Err(WalletError::ChainClientError),
        },
    }
}

} // verus!
