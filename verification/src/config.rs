use crate::address::Address;
use crate::fee::{bumped, checked_bump_data_fee};
use crate::submit::{activation_transaction, Submission, SubmissionView};
use crate::uint256::{u256_limit, U256};
use vstd::prelude::*;

verus! {

/// How often the node is asked while a receipt is awaited, in milliseconds.
pub const POLL_INTERVAL_MILLIS: u64 = 250;

/// What one activation is set up with.
#[derive(Clone, Debug, PartialEq, Eq)]
pub struct CommonConfig {
    /// The key that signs the activation transaction.
    pub private_key: String,
    /// Where the node is reached.
    pub endpoint: String,
    /// The program to activate.
    pub address: Address,
    /// By how many per cent the estimated data fee is raised before it is
    /// paid, if at all.
    pub bump_fee_percent: Option<u64>,
}

/// The fee to pay where the estimate is `estimate` and the configured bump
/// is `bump`: the estimate raised by that much, or the estimate itself where
/// no bump is configured. `None` where the raised fee needs more than 256 bits.
pub open spec fn fee_to_pay(estimate: nat, bump: Option<u64>) -> Option<nat> {
    match bump {
        Some(percent) => if bumped(estimate, percent as nat) < u256_limit() {
            Some(bumped(estimate, percent as nat))
        } else {
            None
        },
        None => Some(estimate),
    }
}

/// The submission that follows an estimate of `estimate` under `cfg`, with
/// `sender` as the signer: the transaction is built that activates the
/// configured program and pays the fee that `fee_to_pay` tells. `None` where
/// there is no such fee.
pub open spec fn planned_submission(cfg: CommonConfig, estimate: nat, sender: Seq<u8>) -> Option<
    SubmissionView,
> {
    match fee_to_pay(estimate, cfg.bump_fee_percent) {
        Some(fee) => Some(SubmissionView::Built(activation_transaction(cfg.address@, fee, sender))),
        None => None,
    }
}

impl CommonConfig {
    /// The fee that the activation transaction pays, given the estimate.
    pub fn data_fee_to_pay(&self, estimate: U256) -> (r: Option<U256>)
        ensures
            r matches Some(fee) ==> fee_to_pay(estimate@, self.bump_fee_percent) == Some(fee@),
            r is None ==> fee_to_pay(estimate@, self.bump_fee_percent) is None,
    {
        match self.bump_fee_percent {
            Some(percent) => checked_bump_data_fee(estimate, percent),
            None => Some(estimate),
        }
    }

    /// Starts the submission that follows the estimate: `sender` activates
    /// the configured program and pays the estimate with the configured bump.
    /// `None` where that fee needs more than 256 bits.
    pub fn submission(&self, estimate: U256, sender: &Address) -> (r: Option<Submission>)
        ensures
            r matches Some(built) ==> planned_submission(*self, estimate@, sender@) == Some(built@),
            r is None ==> planned_submission(*self, estimate@, sender@) is None,
    {
        match self.data_fee_to_pay(estimate) {
            Some(fee) => Some(Submission::new(&self.address, fee, sender)),
            None => None,
        }
    }
}

} // verus!
