use vstd::prelude::*;

use crate::block::{Block, Header, Network, Output, Transaction};
use crate::pow::solution_is_valid;
use crate::error::{BlockError, SubsidyError, TimeError, TransactionError};
use crate::schedule::{
    canopy_activation_height, canopy_height, founders_reward, founders_reward_of,
    halving_divisor, halving_divisor_of, is_power_of_two, SLOW_START_INTERVAL,
};

verus! {

/// Seconds that a block's declared time may run ahead of the reference clock.
pub const MAX_FUTURE_BLOCK_TIME: i64 = 7200;

/// Some transaction after the first has a coinbase input.
pub open spec fn later_coinbase_input(txs: Seq<Transaction>) -> bool {
    exists|i: int| 1 <= i < txs.len() && (#[trigger] txs[i]).spec_contains_coinbase_input()
}

/// The outcome of the coinbase placement rules on a block's transactions.
pub open spec fn coinbase_placement(txs: Seq<Transaction>) -> Result<(), BlockError> {
    if txs.len() == 0 {
        Err(BlockError::NoTransactions)
    } else if !txs[0].spec_is_coinbase() {
        Err(BlockError::Transaction(TransactionError::CoinbasePosition))
    } else if later_coinbase_input(txs) {
        Err(BlockError::Transaction(TransactionError::CoinbaseInputFound))
    } else {
        Ok(())
    }
}

/// Checks that the first transaction of `block`, and no other, is a coinbase
/// transaction: the block must have transactions, the first must be a coinbase
/// transaction, and no later one may have a coinbase input.
pub fn coinbase_is_first(block: &Block) -> (r: Result<(), BlockError>)
    ensures
        r == coinbase_placement(block.transactions@),
        block.transactions@.len() == 0 ==> r == Err::<(), BlockError>(BlockError::NoTransactions),
        block.transactions@.len() > 0 && !block.transactions@[0].spec_is_coinbase() ==> r == Err::<
            (),
            BlockError,
        >(BlockError::Transaction(TransactionError::CoinbasePosition)),
        block.transactions@.len() > 0 && block.transactions@[0].spec_is_coinbase()
            && later_coinbase_input(block.transactions@) ==> r == Err::<(), BlockError>(
            BlockError::Transaction(TransactionError::CoinbaseInputFound),
        ),
        block.transactions@.len() > 0 && block.transactions@[0].spec_is_coinbase()
            && !later_coinbase_input(block.transactions@) ==> r is Ok,
{
    let txs = &block.transactions;
    if txs.len() == 0 {
        return Err(BlockError::NoTransactions);
    }
    if !txs[0].is_coinbase() {
        return Err(BlockError::Transaction(TransactionError::CoinbasePosition));
    }
    let mut i: usize = 1;
    while i < txs.len()
        invariant
            1 <= i <= txs@.len(),
            txs@ == block.transactions@,
            txs@[0].spec_is_coinbase(),
            forall|j: int| 1 <= j < i ==> !(#[trigger] txs@[j]).spec_contains_coinbase_input(),
        decreases txs@.len() - i,
    {
        if txs[i].contains_coinbase_input() {
            return Err(BlockError::Transaction(TransactionError::CoinbaseInputFound));
        }
        i += 1;
    }
    Ok(())
}

/// A header time is acceptable at `now` when it is at most two hours later.
pub open spec fn time_is_acceptable(time: u32, now: i64) -> bool {
    time as int <= now as int + MAX_FUTURE_BLOCK_TIME as int
}

/// Checks that `header.time` is no more than two hours after `now`, a reference
/// time in seconds since the Unix epoch that the caller supplies.
///
/// The rule depends on the caller's clock: a header refused at one `now` may be
/// accepted at a later one. Only the upper bound is checked here.
pub fn time_is_valid_at(header: &Header, now: i64) -> (r: Result<(), TimeError>)
    ensures
        r is Ok <==> time_is_acceptable(header.time, now),
        r is Err ==> r == Err::<(), TimeError>(TimeError::FutureTimeLimitExceeded),
        header.time as int == now as int ==> r is Ok,
        header.time as int == now as int + MAX_FUTURE_BLOCK_TIME as int ==> r is Ok,
        header.time as int == now as int + MAX_FUTURE_BLOCK_TIME as int + 1 ==> r == Err::<
            (),
            TimeError,
        >(TimeError::FutureTimeLimitExceeded),
{
    let earliest_now = header.time as i64 - MAX_FUTURE_BLOCK_TIME;
    if earliest_now <= now {
        Ok(())
    } else {
        Err(TimeError::FutureTimeLimitExceeded)
    }
}

/// Some output of `coinbase` pays exactly `amount`.
pub open spec fn pays_amount(coinbase: Transaction, amount: u64) -> bool {
    exists|i: int| 0 <= i < coinbase.outputs@.len() && (#[trigger] coinbase.outputs@[i]).value == amount
}

/// Returns the outputs of `transaction` that pay exactly `amount`, in order.
pub fn find_output_with_amount(transaction: &Transaction, amount: u64) -> (r: Vec<Output>)
    ensures
        r@ == transaction.outputs@.filter(|o: Output| o.value == amount),
        r@.len() > 0 <==> pays_amount(*transaction, amount),
{
    let outputs = &transaction.outputs;
    let mut found: Vec<Output> = Vec::new();
    let mut i: usize = 0;
    while i < outputs.len()
        invariant
            i <= outputs@.len(),
            found@ == outputs@.subrange(0, i as int).filter(|o: Output| o.value == amount),
            found@.len() > 0 <==> exists|j: int| 0 <= j < i && (#[trigger] outputs@[j]).value == amount,
        decreases outputs@.len() - i,
    {
        if outputs[i].value == amount {
            found.push(outputs[i]);
        }
        proof {
            reveal(Seq::filter);
            let seen = outputs@.subrange(0, i + 1);
            assert(seen.drop_last() =~= outputs@.subrange(0, i as int));
            assert(seen.last() == outputs@[i as int]);
            assert(seen.filter(|o: Output| o.value == amount) == found@);
        }
        i += 1;
    }
    assert(outputs@.subrange(0, i as int) =~= outputs@);
    found
}

/// The halving divisor is below four: the second halving has not been reached.
pub open spec fn before_second_halving(halving_div: Option<u64>) -> bool {
    match halving_div {
        Some(d) => d < 4,
        None => false,
    }
}

/// The subsidy rule on a coinbase at `height`, given the schedule's values there.
pub open spec fn subsidy_outcome(
    height: u32,
    halving_div: Option<u64>,
    canopy_activation: u32,
    reward: u64,
    coinbase: Transaction,
) -> Result<(), SubsidyError> {
    if height < canopy_activation {
        if pays_amount(coinbase, reward) {
            Ok(())
        } else {
            Err(SubsidyError::FoundersRewardNotFound)
        }
    } else if before_second_halving(halving_div) {
        Err(SubsidyError::FundingStreamNotImplemented)
    } else {
        Ok(())
    }
}

/// Applies the founders-reward and funding-stream rules to `coinbase` at `height`,
/// given the halving divisor there (`None` where it does not fit a `u64`), the
/// Canopy activation height, and the founders reward there.
///
/// Below Canopy some output must pay exactly the founders reward. From Canopy
/// until the second halving the funding streams are not checked, and the block
/// is refused. From the second halving on, any outputs pass.
pub fn founders_reward_is_paid(
    height: u32,
    halving_div: Option<u64>,
    canopy_activation: u32,
    reward: u64,
    coinbase: &Transaction,
) -> (r: Result<(), SubsidyError>)
    requires
        height >= SLOW_START_INTERVAL,
        halving_div matches Some(d) ==> is_power_of_two(d),
    ensures
        r == subsidy_outcome(height, halving_div, canopy_activation, reward, *coinbase),
        height < canopy_activation ==> (r is Ok <==> pays_amount(*coinbase, reward)),
        height < canopy_activation && r is Err ==> r == Err::<(), SubsidyError>(
            SubsidyError::FoundersRewardNotFound,
        ),
        height >= canopy_activation && !before_second_halving(halving_div) ==> r is Ok,
        height >= canopy_activation && before_second_halving(halving_div) ==> r == Err::<
            (),
            SubsidyError,
        >(SubsidyError::FundingStreamNotImplemented),
{
    if height < canopy_activation {
        let matching = find_output_with_amount(coinbase, reward);
        if matching.len() > 0 {
            Ok(())
        } else {
            Err(SubsidyError::FoundersRewardNotFound)
        }
    } else {
        match halving_div {
            Some(d) if d < 4 => Err(SubsidyError::FundingStreamNotImplemented),
            _ => Ok(()),
        }
    }
}

/// The subsidy check on `block`: its coinbase height, then the rule at that height.
pub open spec fn subsidy_check(network: Network, block: Block) -> Result<(), BlockError> {
    match block.spec_coinbase_height() {
        None => Err(BlockError::Subsidy(SubsidyError::NoCoinbase)),
        Some(height) => match subsidy_outcome(
            height,
            halving_divisor_of(network, height),
            canopy_height(network),
            founders_reward_of(network, height),
            block.transactions@[0],
        ) {
            Ok(()) => Ok(()),
            Err(e) => Err(BlockError::Subsidy(e)),
        },
    }
}

/// Checks the coinbase payout of `block` against the subsidy schedule of `network`.
///
/// The height comes from the coinbase input of the first transaction. Blocks in
/// the slow-start period are out of this check's scope, and callers must not pass
/// them. The total paid by the coinbase is not compared with the subsidy plus
/// fees, and the founders-reward destination is not checked.
pub fn subsidy_is_correct(network: Network, block: &Block) -> (r: Result<(), BlockError>)
    requires
        block.spec_coinbase_height() matches Some(h) ==> h >= SLOW_START_INTERVAL,
    ensures
        r == subsidy_check(network, *block),
        match block.spec_coinbase_height() {
            None => r == Err::<(), BlockError>(BlockError::Subsidy(SubsidyError::NoCoinbase)),
            Some(h) => {
                &&& h < canopy_height(network) ==> (r is Ok <==> pays_amount(
                    block.transactions@[0],
                    founders_reward_of(network, h),
                ))
                &&& h < canopy_height(network) && r is Err ==> r == Err::<(), BlockError>(
                    BlockError::Subsidy(SubsidyError::FoundersRewardNotFound),
                )
                &&& h >= canopy_height(network) && !before_second_halving(
                    halving_divisor_of(network, h),
                ) ==> r is Ok
                &&& h >= canopy_height(network) && before_second_halving(
                    halving_divisor_of(network, h),
                ) ==> r == Err::<(), BlockError>(
                    BlockError::Subsidy(SubsidyError::FundingStreamNotImplemented),
                )
            },
        },
{
    let height = match block.coinbase_height() {
        Some(h) => h,
        None => return Err(BlockError::Subsidy(SubsidyError::NoCoinbase)),
    };
    let coinbase = &block.transactions[0];
    let halving_div = halving_divisor(network, height);
    let canopy_activation = canopy_activation_height(network);
    let reward = if height < canopy_activation {
        founders_reward(network, height)
    } else {
        0
    };
    match founders_reward_is_paid(height, halving_div, canopy_activation, reward, coinbase) {
        Ok(()) => Ok(()),
        Err(e) => Err(BlockError::Subsidy(e)),
    }
}

/// Each check is a function of its inputs alone: the same block, header,
/// network and reference time always give the same outcome.
pub proof fn lemma_checks_are_deterministic(
    network: Network,
    block: Block,
    same_block: Block,
    now: i64,
    same_now: i64,
)
    requires
        block == same_block,
        now == same_now,
    ensures
        coinbase_placement(block.transactions@) == coinbase_placement(same_block.transactions@),
        time_is_acceptable(block.header.time, now) == time_is_acceptable(
            same_block.header.time,
            same_now,
        ),
        solution_is_valid(block.header) == solution_is_valid(same_block.header),
        subsidy_check(network, block) == subsidy_check(network, same_block),
{
}

} // verus!
