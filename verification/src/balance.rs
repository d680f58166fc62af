//! The balance of a wallet: the values of its unspent outputs, sorted by how
//! far the transactions that made them have come.

use crate::error::WalletError;
use crate::keychain::Keychain;
use crate::ledger::{utxo_views, Confirmation, Utxo, UtxoView};
use vstd::prelude::*;

verus! {

/// The number of blocks that must follow a coinbase transaction before its
/// outputs can be spent.
pub const COINBASE_MATURITY: u32 = 100;

/// The values that a wallet holds, in satoshi.
#[derive(Clone, Copy, Debug, PartialEq, Eq, Structural)]
pub struct Balance {
    /// Coinbase outputs that are not yet mature.
    pub immature: u64,
    /// Unconfirmed outputs that the wallet paid to itself.
    pub trusted_pending: u64,
    /// Unconfirmed outputs that others paid.
    pub untrusted_pending: u64,
    /// Confirmed outputs that can be spent.
    pub confirmed: u64,
}

/// The balance of a wallet that holds nothing.
pub open spec fn no_balance() -> Balance {
    Balance { immature: 0, trusted_pending: 0, untrusted_pending: 0, confirmed: 0 }
}

/// The part of the balance that an output counts toward.
#[derive(Clone, Copy, Debug, PartialEq, Eq, Structural)]
pub enum Bucket {
    Immature,
    TrustedPending,
    UntrustedPending,
    Confirmed,
}

/// Where an output counts, seen from a chain of the given height. A coinbase
/// output is immature until 100 blocks lie between its block and the tip; one
/// whose block is above the tip is immature too.
pub open spec fn bucket_of(output: UtxoView, tip: u32) -> Bucket {
    match output.confirmation {
        Confirmation::Confirmed { height, time } => if output.coinbase && tip - height
            < COINBASE_MATURITY {
            Bucket::Immature
        } else {
            Bucket::Confirmed
        },
        Confirmation::Unconfirmed => if output.keychain == Keychain::Internal {
            Bucket::TrustedPending
        } else {
            Bucket::UntrustedPending
        },
    }
}

/// What an output adds to a part of the balance.
pub open spec fn share(output: UtxoView, tip: u32, bucket: Bucket) -> nat {
    if bucket_of(output, tip) == bucket {
        output.value as nat
    } else {
        0
    }
}

/// The sum of the outputs that count toward a part of the balance.
pub open spec fn bucket_total(outputs: Seq<UtxoView>, tip: u32, bucket: Bucket) -> nat
    decreases outputs.len(),
{
    if outputs.len() == 0 {
        0
    } else {
        bucket_total(outputs.drop_last(), tip, bucket) + share(outputs.last(), tip, bucket)
    }
}

/// Whether each part of the balance is a number of satoshi that `u64` holds.
pub open spec fn balance_fits(outputs: Seq<UtxoView>, tip: u32) -> bool {
    &&& bucket_total(outputs, tip, Bucket::Immature) <= u64::MAX
    &&& bucket_total(outputs, tip, Bucket::TrustedPending) <= u64::MAX
    &&& bucket_total(outputs, tip, Bucket::UntrustedPending) <= u64::MAX
    &&& bucket_total(outputs, tip, Bucket::Confirmed) <= u64::MAX
}

/// The balance of a wallet that holds the given outputs and was last
/// synchronised at the given tip. A wallet that was never synchronised has
/// no balance to show.
pub open spec fn balance_spec(outputs: Seq<UtxoView>, tip: Option<u32>) -> Result<
    Balance,
    WalletError,
> {
    match tip {
        None => Ok(no_balance()),
        Some(height) => if balance_fits(outputs, height) {
            Ok(
                Balance {
                    immature: bucket_total(outputs, height, Bucket::Immature) as u64,
                    trusted_pending: bucket_total(outputs, height, Bucket::TrustedPending) as u64,
                    untrusted_pending: bucket_total(outputs, height, Bucket::UntrustedPending) as u64,
                    confirmed: bucket_total(outputs, height, Bucket::Confirmed) as u64,
                },
            )
        } else {
            Err(WalletError::ChainClientError)
        },
    }
}

/// A longer list counts at least as much toward every part.
proof fn lemma_bucket_total_grows(
    outputs: Seq<UtxoView>,
    shorter: int,
    longer: int,
    tip: u32,
    bucket: Bucket,
)
    requires
        0 <= shorter <= longer <= outputs.len(),
    ensures
        bucket_total(outputs.take(shorter), tip, bucket) <= bucket_total(
            outputs.take(longer),
            tip,
            bucket,
        ),
    decreases longer - shorter,
{
    if shorter < longer {
        lemma_bucket_total_grows(outputs, shorter, longer - 1, tip, bucket);
        assert(outputs.take(longer).drop_last() =~= outputs.take(longer - 1));
    }
}

/// One more output adds its share.
proof fn lemma_bucket_total_step(outputs: Seq<UtxoView>, count: int, tip: u32, bucket: Bucket)
    requires
        0 <= count < outputs.len(),
    ensures
        bucket_total(outputs.take(count + 1), tip, bucket) == bucket_total(
            outputs.take(count),
            tip,
            bucket,
        ) + share(outputs[count], tip, bucket),
{
    assert(outputs.take(count + 1).drop_last() =~= outputs.take(count));
}

/// Where a confirmed or unconfirmed output counts.
pub fn bucket(output: &Utxo, tip: u32) -> (bucket: Bucket)
    ensures
        bucket == bucket_of(output@, tip),
{
    match output.confirmation {
        Confirmation::Confirmed { height, time: _ } => {
            if output.coinbase && (height > tip || tip - height < COINBASE_MATURITY) {
                Bucket::Immature
            } else {
                Bucket::Confirmed
            }
        },
        Confirmation::Unconfirmed => {
            match output.keychain {
                Keychain::Internal => Bucket::TrustedPending,
                Keychain::External => Bucket::UntrustedPending,
            }
        },
    }
}

/// Sums the outputs into a balance. The sum fails, as a fault of the chain
/// data, only where a part of it is more than `u64` holds.
pub fn balance_of(outputs: &Vec<Utxo>, tip: Option<u32>) -> (balance: Result<Balance, WalletError>)
    ensures
        balance == balance_spec(utxo_views(outputs@), tip),
{
    let height: u32 = match tip {
        Some(height) => height,
        None => {
            return Ok(
                Balance { immature: 0, trusted_pending: 0, untrusted_pending: 0, confirmed: 0 },
            );
        },
    };
    let ghost views = utxo_views(outputs@);
    let mut immature: u64 = 0;
    let mut trusted_pending: u64 = 0;
    let mut untrusted_pending: u64 = 0;
    let mut confirmed: u64 = 0;
    let mut i: usize = 0;
    while i < outputs.len()
        invariant
            i <= outputs.len(),
            tip == Some(height),
            views == utxo_views(outputs@),
            views.len() == outputs.len(),
            immature == bucket_total(views.take(i as int), height, Bucket::Immature),
            trusted_pending == bucket_total(views.take(i as int), height, Bucket::TrustedPending),
            untrusted_pending == bucket_total(
                views.take(i as int),
                height,
                Bucket::UntrustedPending,
            ),
            confirmed == bucket_total(views.take(i as int), height, Bucket::Confirmed),
        decreases outputs.len() - i,
    {
        let output = &outputs[i];
        let part = bucket(output, height);
        proof {
            lemma_bucket_total_step(views, i as int, height, Bucket::Immature);
            lemma_bucket_total_step(views, i as int, height, Bucket::TrustedPending);
            lemma_bucket_total_step(views, i as int, height, Bucket::UntrustedPending);
            lemma_bucket_total_step(views, i as int, height, Bucket::Confirmed);
            lemma_bucket_total_grows(views, i + 1, views.len() as int, height, part);
            assert(views.take(views.len() as int) =~= views);
        }
        let current: u64 = match part {
            Bucket::Immature => immature,
            Bucket::TrustedPending => trusted_pending,
            Bucket::UntrustedPending => untrusted_pending,
            Bucket::Confirmed => confirmed,
        };
        let sum: u64 = match current.checked_add(output.value) {
            Some(sum) => sum,
            None => {
                return Err(WalletError::ChainClientError);
            },
        };
        match part {
            Bucket::Immature => {
                immature = sum;
            },
            Bucket::TrustedPending => {
                trusted_pending = sum;
            },
            Bucket::UntrustedPending => {
                untrusted_pending = sum;
            },
            Bucket::Confirmed => {
                confirmed = sum;
            },
        }
        i += 1;
    }
    proof {
        assert(views.take(views.len() as int) =~= views);
    }
    Ok(Balance { immature, trusted_pending, untrusted_pending, confirmed })
}

} // verus!
