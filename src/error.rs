use vstd::prelude::*;

verus! {

/// Why a transaction breaks the coinbase placement rules.
#[derive(Clone, Copy, Debug, PartialEq, Eq, Structural)]
pub enum TransactionError {
    /// The first transaction of the block is not a coinbase transaction.
    CoinbasePosition,
    /// A transaction after the first one has a coinbase input.
    CoinbaseInputFound,
}

/// Why a block's coinbase does not pay what the subsidy schedule asks for.
#[derive(Clone, Copy, Debug, PartialEq, Eq, Structural)]
pub enum SubsidyError {
    /// The block has no coinbase transaction from which a height can be read.
    NoCoinbase,
    /// No coinbase output pays exactly the founders reward.
    FoundersRewardNotFound,
    /// The funding-stream payouts cannot be checked yet, so the block is refused.
    FundingStreamNotImplemented,
}

/// Why a block fails a structural or monetary check.
#[derive(Clone, Copy, Debug, PartialEq, Eq, Structural)]
pub enum BlockError {
    /// The block holds no transactions at all.
    NoTransactions,
    /// A transaction-level rule is broken.
    Transaction(TransactionError),
    /// The coinbase payout is wrong, or cannot be checked.
    Subsidy(SubsidyError),
}

/// Why a block header's time is refused.
#[derive(Clone, Copy, Debug, PartialEq, Eq, Structural)]
pub enum TimeError {
    /// The declared time is more than two hours after the reference time.
    FutureTimeLimitExceeded,
}

/// Why a block header's proof of work is refused.
#[derive(Clone, Copy, Debug, PartialEq, Eq, Structural)]
pub enum EquihashError {
    /// The Equihash solution is malformed or does not solve the puzzle of the header.
    InvalidSolution,
}

} // verus!
