use block_checks::block::{Block, Header, Input, Network, Output, Transaction};
use block_checks::check::{
    coinbase_is_first, find_output_with_amount, founders_reward_is_paid, subsidy_is_correct,
    time_is_valid_at, MAX_FUTURE_BLOCK_TIME,
};
use block_checks::error::{
    BlockError, EquihashError, SubsidyError, TimeError, TransactionError,
};
use block_checks::pow::equihash_solution_is_valid;
use block_checks::schedule::SLOW_START_INTERVAL;

fn coinbase_tx(height: u32, values: &[u64]) -> Transaction {
    Transaction {
        inputs: vec![Input::Coinbase { height }],
        outputs: values.iter().map(|&value| Output { value }).collect(),
    }
}

fn spend_tx() -> Transaction {
    Transaction {
        inputs: vec![Input::PrevOut { hash: [7; 32], index: 0 }],
        outputs: vec![Output { value: 1_000 }],
    }
}

fn empty_header(time: u32) -> Header {
    Header {
        version: 4,
        previous_block_hash: [0; 32],
        merkle_root: [0; 32],
        commitment_bytes: [0; 32],
        time,
        difficulty_threshold: 0x1f07ffff,
        nonce: [0; 32],
        solution: vec![0; 1344],
    }
}

fn block_of(transactions: Vec<Transaction>) -> Block {
    Block { header: empty_header(0), transactions }
}

/// The mainnet genesis header, read field by field from its serialized block.
fn genesis_header() -> Header {
    let bytes: &[u8] = zebra_test::vectors::BLOCK_MAINNET_GENESIS_BYTES.as_ref();
    let word = |at: usize| u32::from_le_bytes(bytes[at..at + 4].try_into().unwrap());
    let array = |at: usize| -> [u8; 32] { bytes[at..at + 32].try_into().unwrap() };
    assert_eq!(&bytes[140..143], &[0xfd, 0x40, 0x05]);
    Header {
        version: word(0),
        previous_block_hash: array(4),
        merkle_root: array(36),
        commitment_bytes: array(68),
        time: word(100),
        difficulty_threshold: word(104),
        nonce: array(108),
        solution: bytes[143..143 + 1344].to_vec(),
    }
}

#[test]
fn no_transactions_is_refused() {
    assert_eq!(coinbase_is_first(&block_of(vec![])), Err(BlockError::NoTransactions));
}

#[test]
fn first_transaction_must_be_coinbase() {
    let block = block_of(vec![spend_tx(), coinbase_tx(1, &[5])]);
    assert_eq!(
        coinbase_is_first(&block),
        Err(BlockError::Transaction(TransactionError::CoinbasePosition))
    );
}

#[test]
fn coinbase_with_extra_inputs_is_not_coinbase() {
    let mut first = coinbase_tx(1, &[5]);
    first.inputs.push(Input::PrevOut { hash: [1; 32], index: 3 });
    assert_eq!(
        coinbase_is_first(&block_of(vec![first])),
        Err(BlockError::Transaction(TransactionError::CoinbasePosition))
    );
}

#[test]
fn later_coinbase_input_is_refused() {
    let mut later = spend_tx();
    later.inputs.push(Input::Coinbase { height: 1 });
    let block = block_of(vec![coinbase_tx(1, &[5]), spend_tx(), later, spend_tx()]);
    assert_eq!(
        coinbase_is_first(&block),
        Err(BlockError::Transaction(TransactionError::CoinbaseInputFound))
    );
}

#[test]
fn single_coinbase_first_is_accepted() {
    assert_eq!(coinbase_is_first(&block_of(vec![coinbase_tx(1, &[5])])), Ok(()));
    let block = block_of(vec![coinbase_tx(1, &[5]), spend_tx(), spend_tx()]);
    assert_eq!(coinbase_is_first(&block), Ok(()));
}

#[test]
fn time_two_hours_ahead_is_the_limit() {
    let now: i64 = 1_600_000_000;
    let at = |t: i64| time_is_valid_at(&empty_header(t as u32), now);
    assert_eq!(MAX_FUTURE_BLOCK_TIME, 2 * 60 * 60);
    assert_eq!(at(now), Ok(()));
    assert_eq!(at(now - 86_400), Ok(()));
    assert_eq!(at(now + 7200), Ok(()));
    assert_eq!(at(now + 7201), Err(TimeError::FutureTimeLimitExceeded));
}

#[test]
fn time_check_at_clock_extremes() {
    assert_eq!(time_is_valid_at(&empty_header(u32::MAX), i64::MAX), Ok(()));
    assert_eq!(
        time_is_valid_at(&empty_header(0), i64::MIN),
        Err(TimeError::FutureTimeLimitExceeded)
    );
    assert_eq!(time_is_valid_at(&empty_header(7200), 0), Ok(()));
    assert_eq!(time_is_valid_at(&empty_header(7200), -1), Err(TimeError::FutureTimeLimitExceeded));
}

#[test]
fn outputs_with_amount_are_found_in_order() {
    let tx = coinbase_tx(1, &[5, 9, 5, 2]);
    let found = find_output_with_amount(&tx, 5);
    assert_eq!(found, vec![Output { value: 5 }, Output { value: 5 }]);
    assert!(find_output_with_amount(&tx, 3).is_empty());
    assert!(find_output_with_amount(&coinbase_tx(1, &[]), 0).is_empty());
}

#[test]
fn founders_reward_rule_by_era() {
    let paid = coinbase_tx(30_000, &[1_000_000_000, 250_000_000]);
    let canopy = 1_046_400;
    assert_eq!(founders_reward_is_paid(30_000, Some(1), canopy, 250_000_000, &paid), Ok(()));
    assert_eq!(
        founders_reward_is_paid(30_000, Some(1), canopy, 250_000_001, &paid),
        Err(SubsidyError::FoundersRewardNotFound)
    );
    assert_eq!(
        founders_reward_is_paid(canopy, Some(2), canopy, 0, &paid),
        Err(SubsidyError::FundingStreamNotImplemented)
    );
    assert_eq!(
        founders_reward_is_paid(canopy, Some(1), canopy, 0, &paid),
        Err(SubsidyError::FundingStreamNotImplemented)
    );
    assert_eq!(founders_reward_is_paid(3_000_000, Some(4), canopy, 0, &paid), Ok(()));
    assert_eq!(founders_reward_is_paid(3_000_000, Some(1 << 40), canopy, 0, &coinbase_tx(1, &[])), Ok(()));
    assert_eq!(founders_reward_is_paid(u32::MAX, None, canopy, 0, &paid), Ok(()));
}

#[test]
fn mainnet_founders_reward_must_be_paid() {
    let paid = block_of(vec![coinbase_tx(30_000, &[1_000_000_000, 250_000_000])]);
    assert_eq!(subsidy_is_correct(Network::Mainnet, &paid), Ok(()));
    let unpaid = block_of(vec![coinbase_tx(30_000, &[1_000_000_000, 249_999_999])]);
    assert_eq!(
        subsidy_is_correct(Network::Mainnet, &unpaid),
        Err(BlockError::Subsidy(SubsidyError::FoundersRewardNotFound))
    );
    let after_blossom = block_of(vec![coinbase_tx(1_046_399, &[500_000_000, 125_000_000])]);
    assert_eq!(subsidy_is_correct(Network::Mainnet, &after_blossom), Ok(()));
    let first_height = block_of(vec![coinbase_tx(SLOW_START_INTERVAL, &[250_000_000])]);
    assert_eq!(subsidy_is_correct(Network::Mainnet, &first_height), Ok(()));
}

#[test]
fn testnet_founders_reward_must_be_paid() {
    let paid = block_of(vec![coinbase_tx(1_028_499, &[125_000_000])]);
    assert_eq!(subsidy_is_correct(Network::Testnet, &paid), Ok(()));
    let unpaid = block_of(vec![coinbase_tx(1_028_499, &[250_000_000])]);
    assert_eq!(
        subsidy_is_correct(Network::Testnet, &unpaid),
        Err(BlockError::Subsidy(SubsidyError::FoundersRewardNotFound))
    );
}

#[test]
fn funding_stream_era_is_refused() {
    let at = |network: Network, height: u32, values: &[u64]| {
        subsidy_is_correct(network, &block_of(vec![coinbase_tx(height, values)]))
    };
    let refused = Err(BlockError::Subsidy(SubsidyError::FundingStreamNotImplemented));
    assert_eq!(at(Network::Mainnet, 1_046_400, &[312_500_000]), refused);
    assert_eq!(at(Network::Mainnet, 2_000_000, &[]), refused);
    assert_eq!(at(Network::Mainnet, 2_726_399, &[250_000_000]), refused);
    assert_eq!(at(Network::Testnet, 1_028_500, &[125_000_000]), refused);
    assert_eq!(at(Network::Testnet, 1_100_000, &[]), refused);
}

#[test]
fn after_second_halving_any_outputs_pass() {
    let at = |height: u32, values: &[u64]| {
        subsidy_is_correct(Network::Mainnet, &block_of(vec![coinbase_tx(height, values)]))
    };
    assert_eq!(at(2_726_400, &[]), Ok(()));
    assert_eq!(at(3_000_000, &[1, 2, 3]), Ok(()));
}

#[test]
fn subsidy_needs_a_coinbase_height() {
    assert_eq!(
        subsidy_is_correct(Network::Mainnet, &block_of(vec![])),
        Err(BlockError::Subsidy(SubsidyError::NoCoinbase))
    );
    assert_eq!(
        subsidy_is_correct(Network::Mainnet, &block_of(vec![spend_tx()])),
        Err(BlockError::Subsidy(SubsidyError::NoCoinbase))
    );
}

#[test]
fn genesis_solution_is_valid() {
    let header = genesis_header();
    assert_eq!(header.equihash_input().len(), 108);
    assert_eq!(&header.equihash_input()[..4], &4u32.to_le_bytes());
    assert_eq!(equihash_solution_is_valid(&header), Ok(()));
}

#[test]
fn tampered_solution_is_invalid() {
    let mut header = genesis_header();
    header.solution[17] ^= 0x01;
    assert_eq!(equihash_solution_is_valid(&header), Err(EquihashError::InvalidSolution));

    let mut header = genesis_header();
    header.nonce[0] ^= 0x80;
    assert_eq!(equihash_solution_is_valid(&header), Err(EquihashError::InvalidSolution));

    let mut header = genesis_header();
    header.time += 1;
    assert_eq!(equihash_solution_is_valid(&header), Err(EquihashError::InvalidSolution));

    let mut header = genesis_header();
    header.solution.truncate(100);
    assert_eq!(equihash_solution_is_valid(&header), Err(EquihashError::InvalidSolution));
}

#[test]
fn equihash_input_layout() {
    let mut header = empty_header(0x0403_0201);
    header.version = 0x0d0c_0b0a;
    header.previous_block_hash = [0x11; 32];
    header.merkle_root = [0x22; 32];
    header.commitment_bytes = [0x33; 32];
    header.difficulty_threshold = 0x8765_4321;
    let input = header.equihash_input();
    assert_eq!(&input[0..4], &[0x0a, 0x0b, 0x0c, 0x0d]);
    assert_eq!(&input[4..36], &[0x11; 32]);
    assert_eq!(&input[36..68], &[0x22; 32]);
    assert_eq!(&input[68..100], &[0x33; 32]);
    assert_eq!(&input[100..104], &[0x01, 0x02, 0x03, 0x04]);
    assert_eq!(&input[104..108], &[0x21, 0x43, 0x65, 0x87]);
}

#[test]
fn repeated_checks_agree() {
    let block = block_of(vec![coinbase_tx(30_000, &[250_000_000]), spend_tx()]);
    let header = genesis_header();
    for _ in 0..2 {
        assert_eq!(coinbase_is_first(&block), coinbase_is_first(&block.clone()));
        assert_eq!(time_is_valid_at(&header, 5), time_is_valid_at(&header, 5));
        assert_eq!(
            subsidy_is_correct(Network::Mainnet, &block),
            subsidy_is_correct(Network::Mainnet, &block)
        );
        assert_eq!(equihash_solution_is_valid(&header), equihash_solution_is_valid(&header));
    }
    let tampered = block_of(vec![coinbase_tx(30_000, &[1])]);
    let first = subsidy_is_correct(Network::Mainnet, &tampered);
    assert_eq!(first, subsidy_is_correct(Network::Mainnet, &tampered));
}
