//! The fee that a transaction under construction has been given.

use bdk::FeeRate;
use vstd::prelude::*;

verus! {

/// How the fee of a transaction is fixed.
#[derive(Debug, Clone, Copy, PartialEq)]
pub enum FeePolicy {
    /// The fee follows from the size of the transaction at this rate.
    Rate(FeeRate),
    /// The fee is this number of satoshis, whatever the size.
    Absolute(u64),
}

/// The fee settings of a transaction builder.
///
/// A builder starts without a policy. Each setter replaces whatever policy
/// was set before it, so the last one called decides.
#[derive(Debug, Clone, Copy, PartialEq)]
pub struct FeeBuilder {
    /// The policy set last, if any was set.
    pub policy: Option<FeePolicy>,
}

impl FeeBuilder {
    /// A builder whose fee has not been decided.
    pub fn new() -> (builder: Self)
        ensures
            builder.policy is None,
    {
        FeeBuilder { policy: None }
    }

    /// Sets a fee rate, in place of any policy set before.
    pub fn fee_rate(&mut self, rate: FeeRate)
        ensures
            final(self).policy == Some(FeePolicy::Rate(rate)),
    {
        self.policy = Some(FeePolicy::Rate(rate));
    }

    /// Sets an absolute fee in satoshis, in place of any policy set before.
    pub fn fee_absolute(&mut self, amount: u64)
        ensures
            final(self).policy == Some(FeePolicy::Absolute(amount)),
    {
        self.policy = Some(FeePolicy::Absolute(amount));
    }
}

} // verus!
