//! Fee rates, as whole numbers.

use vstd::prelude::*;

verus! {

/// A fee rate: so many satoshi for so many virtual bytes.
#[derive(Clone, Copy, Debug)]
pub struct FeeRate {
    satoshi: u32,
    vbytes: u32,
}

/// The least fee that pays `satoshi` per `per` virtual bytes for a
/// transaction of `size` virtual bytes: the product, divided and rounded up.
pub open spec fn fee_at_rate(satoshi: nat, per: nat, size: nat) -> nat
    recommends
        per > 0,
{
    ((satoshi * size + per - 1) / per as int) as nat
}

/// The most that a transaction of `size` virtual bytes with so many inputs
/// pays at a rate. The builder reckons the fee before anything is signed:
/// it takes each input for up to a byte larger than it turns out, adds a
/// byte for the marker of a witness, and rounds the fee of each part up,
/// the parts being the inputs, the output, the frame and the marker.
pub open spec fn fee_ceiling(satoshi: nat, per: nat, size: nat, inputs: nat) -> nat
    recommends
        per > 0,
{
    fee_at_rate(satoshi, per, size + inputs + 2) + inputs + 3
}

/// The number of blocks within which a transaction should confirm when the
/// caller names none: the next block.
pub const DEFAULT_FEE_TARGET: usize = 1;

/// The confirmation target to ask a fee estimate for.
pub fn fee_target(block: Option<usize>) -> (target: usize)
    ensures
        target == (match block {
            Some(blocks) => blocks,
            None => DEFAULT_FEE_TARGET,
        }),
{
    match block {
        Some(blocks) => blocks,
        None => DEFAULT_FEE_TARGET,
    }
}

impl FeeRate {
    /// A rate is paid for at least one virtual byte.
    #[verifier::type_invariant]
    closed spec fn well_formed(&self) -> bool {
        self.vbytes > 0
    }

    /// The satoshi of the rate.
    pub closed spec fn satoshi_spec(&self) -> u32 {
        self.satoshi
    }

    /// The virtual bytes for which the satoshi are paid.
    pub closed spec fn vbytes_spec(&self) -> u32 {
        self.vbytes
    }

    /// A rate of `satoshi` for every `vbytes` virtual bytes; none for no
    /// bytes.
    pub fn new(satoshi: u32, vbytes: u32) -> (rate: Option<FeeRate>)
        ensures
            rate is Some == (vbytes > 0),
            rate matches Some(r) ==> r.satoshi_spec() == satoshi && r.vbytes_spec() == vbytes,
    {
        if vbytes == 0 {
            None
        } else {
            Some(FeeRate { satoshi, vbytes })
        }
    }

    /// A rate of `satoshi` for every virtual byte.
    pub fn from_sat_per_vb(satoshi: u32) -> (rate: FeeRate)
        ensures
            rate.satoshi_spec() == satoshi,
            rate.vbytes_spec() == 1,
    {
        FeeRate { satoshi, vbytes: 1 }
    }

    /// The satoshi of the rate.
    pub fn satoshi(&self) -> (satoshi: u32)
        ensures
            satoshi == self.satoshi_spec(),
    {
        self.satoshi
    }

    /// The virtual bytes for which the satoshi are paid.
    pub fn vbytes(&self) -> (vbytes: u32)
        ensures
            vbytes == self.vbytes_spec(),
            vbytes > 0,
    {
        proof {
            use_type_invariant(self);
        }
        self.vbytes
    }

    /// Whether a fee pays the rate for a transaction of the given size.
    pub fn covers(&self, fee: u64, size: usize) -> (paid: bool)
        ensures
            paid == (fee >= fee_at_rate(
                self.satoshi_spec() as nat,
                self.vbytes_spec() as nat,
                size as nat,
            )),
    {
        proof {
            use_type_invariant(self);
        }
        let satoshi: u128 = self.satoshi as u128;
        let per: u128 = self.vbytes as u128;
        let size: u128 = size as u128;
        assert(satoshi * size <= 0xFFFF_FFFF * 0xFFFF_FFFF_FFFF_FFFF) by (nonlinear_arith)
            requires
                satoshi <= 0xFFFF_FFFF,
                size <= 0xFFFF_FFFF_FFFF_FFFF,
        ;
        fee as u128 >= (satoshi * size + per - 1) / per
    }

    /// Whether a fee is no more than the rate asks of a transaction of the
    /// given size and number of inputs.
    pub fn allows(&self, fee: u64, size: usize, inputs: usize) -> (allowed: bool)
        ensures
            allowed == (fee <= fee_ceiling(
                self.satoshi_spec() as nat,
                self.vbytes_spec() as nat,
                size as nat,
                inputs as nat,
            )),
    {
        proof {
            use_type_invariant(self);
        }
        let satoshi: u128 = self.satoshi as u128;
        let per: u128 = self.vbytes as u128;
        let inputs: u128 = inputs as u128;
        let size: u128 = size as u128 + inputs + 2;
        assert(satoshi * size <= 0xFFFF_FFFF * 0x2_0000_0000_0000_0001) by (nonlinear_arith)
            requires
                satoshi <= 0xFFFF_FFFF,
                size <= 0x2_0000_0000_0000_0001,
        ;
        fee as u128 <= (satoshi * size + per - 1) / per + inputs + 3
    }

    /// The least fee that pays the rate for a transaction of the given size.
    pub fn minimum_fee(&self, size: u32) -> (fee: u64)
        ensures
            fee == fee_at_rate(self.satoshi_spec() as nat, self.vbytes_spec() as nat, size as nat),
    {
        proof {
            use_type_invariant(self);
        }
        let satoshi: u64 = self.satoshi as u64;
        let per: u64 = self.vbytes as u64;
        let size: u64 = size as u64;
        assert(satoshi * size <= 0xFFFF_FFFF * 0xFFFF_FFFF) by (nonlinear_arith)
            requires
                satoshi <= 0xFFFF_FFFF,
                size <= 0xFFFF_FFFF,
        ;
        (satoshi * size + per - 1) / per
    }
}

} // verus!
