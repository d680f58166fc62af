//! BIP-32 derivation paths as plain steps.

use crate::backend::{parse_path_steps, path_of_text};
use crate::error::WalletError;
use vstd::prelude::*;

verus! {

/// One step of a derivation path.
#[derive(Clone, Copy, Debug, PartialEq, Eq, Structural)]
pub struct ChildStep {
    /// The child's number, below 2^31.
    pub index: u32,
    /// Whether the step needs the parent's private key.
    pub hardened: bool,
}

/// The first number that is no child index.
pub const CHILD_INDEX_LIMIT: u32 = 0x8000_0000;

/// The most steps of a path under which a key can still be derived: a
/// key's depth is one byte, and below the path lies the address index.
pub const MAX_PATH_STEPS: usize = 254;

/// The path of the branch that receives.
pub const DEFAULT_DERIVATION_PATH_EXTERNAL: &'static str = "m/86'/0'/0'/0";

/// The path of the branch that takes change.
pub const DEFAULT_DERIVATION_PATH_INTERNAL: &'static str = "m/86'/0'/0'/1";

/// Whether every step names a child index.
pub open spec fn steps_in_range(steps: Seq<ChildStep>) -> bool {
    forall|i: int| 0 <= i < steps.len() ==> (#[trigger] steps[i]).index < CHILD_INDEX_LIMIT
}

/// A derivation path: the steps from the master key to a key, in order.
/// Once parsed, a path does not change.
#[derive(Debug)]
pub struct DerivationPath {
    steps: Vec<ChildStep>,
}

impl View for DerivationPath {
    type V = Seq<ChildStep>;

    closed spec fn view(&self) -> Seq<ChildStep> {
        self.steps@
    }
}

impl DerivationPath {
    /// Every step of a path names a child index.
    #[verifier::type_invariant]
    closed spec fn well_formed(&self) -> bool {
        steps_in_range(self.steps@)
    }

    /// Reads a path such as `m/86'/0'/0'/0`. The steps are those that
    /// [`path_of_text`] names for the text; a text for which it names none
    /// is refused.
    pub fn parse(text: &str) -> (parsed: Result<DerivationPath, WalletError>)
        ensures
            match path_of_text(text@) {
                Some(steps) => parsed is Ok && parsed->Ok_0@ == steps && steps_in_range(steps),
                None => parsed == Err::<DerivationPath, WalletError>(
                    WalletError::InvalidDerivationPath,
                ),
            },
    {
        match parse_path_steps(text) {
            Some(steps) => Ok(DerivationPath { steps }),
            None => Err(WalletError::InvalidDerivationPath),
        }
    }

    /// The number of steps.
    pub fn len(&self) -> (n: usize)
        ensures
            n == self@.len(),
    {
        self.steps.len()
    }

    /// The step at a position, if the path is that long.
    pub fn step(&self, position: usize) -> (step: Option<ChildStep>)
        ensures
            step is Some == (position < self@.len()),
            step matches Some(s) ==> s == self@[position as int] && s.index < CHILD_INDEX_LIMIT,
    {
        proof {
            use_type_invariant(self);
        }
        if position < self.steps.len() {
            Some(self.steps[position])
        } else {
            None
        }
    }

    /// Whether two paths lead through the same steps.
    pub fn same_steps(&self, other: &DerivationPath) -> (same: bool)
        ensures
            same == (self@ == other@),
    {
        if self.steps.len() != other.steps.len() {
            return false;
        }
        let mut i: usize = 0;
        while i < self.steps.len()
            invariant
                self.steps.len() == other.steps.len(),
                i <= self.steps.len(),
                forall|k: int| 0 <= k < i ==> self.steps@[k] == other.steps@[k],
            decreases self.steps.len() - i,
        {
            if self.steps[i] != other.steps[i] {
                return false;
            }
            i += 1;
        }
        assert(self.steps@ =~= other.steps@);
        true
    }

    /// The steps, for the backend.
    pub(crate) fn steps(&self) -> (steps: &Vec<ChildStep>)
        ensures
            steps@ == self@,
            steps_in_range(steps@),
    {
        proof {
            use_type_invariant(self);
        }
        &self.steps
    }
}

} // verus!
