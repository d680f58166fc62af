//! The two branches of a wallet: the one that receives and the one that takes
//! change.

use crate::text::str_equal;
use vstd::prelude::*;

verus! {

/// A branch of the wallet.
#[derive(Clone, Copy, Debug, PartialEq, Eq, Structural)]
pub enum Keychain {
    /// Addresses handed out to receive funds.
    External,
    /// Addresses the wallet pays its own change to.
    Internal,
}

/// The branch that an address type names: `change` is the internal branch,
/// and every other word, `receive` among them, the external one.
pub open spec fn keychain_of(address_type: Seq<char>) -> Keychain {
    if address_type == "change"@ {
        Keychain::Internal
    } else {
        Keychain::External
    }
}

/// Resolves an address type.
pub fn parse_address_type(address_type: &str) -> (keychain: Keychain)
    ensures
        keychain == keychain_of(address_type@),
{
    proof {
        reveal_strlit("receive");
        reveal_strlit("change");
    }
    if str_equal(address_type, "receive") {
        assert(address_type@.len() == 7);
        Keychain::External
    } else if str_equal(address_type, "change") {
        Keychain::Internal
    } else {
        Keychain::External
    }
}

impl Keychain {
    /// The word by which the branch is reported.
    pub open spec fn label_spec(self) -> Seq<char> {
        match self {
            Keychain::External => "External"@,
            Keychain::Internal => "Internal"@,
        }
    }

    /// The word by which the branch is reported.
    pub fn label(&self) -> (word: &'static str)
        ensures
            word@ == self.label_spec(),
    {
        match self {
            Keychain::External => "External",
            Keychain::Internal => "Internal",
        }
    }
}

} // verus!
