use txpool_state::sender::sender_states;
use txpool_state::sender::ChainFacts;
use txpool_state::sender::PooledTx;
use txpool_state::sender::SenderAccount;
use txpool_state::state::TxState;
use txpool_state::sub_pool::classify;
use txpool_state::sub_pool::SubPool;

fn tx(nonce: u64, fee_cap: u128, gas_limit: u64, value: u128) -> PooledTx {
    PooledTx { nonce, fee_cap, gas_limit, value, is_local: false }
}

fn chain() -> ChainFacts {
    ChainFacts { min_fee_cap: 7, base_fee: 10, block_gas_limit: 30_000 }
}

fn bits(states: &[TxState]) -> Vec<u8> {
    states.iter().map(|s| s.bits()).collect()
}

#[test]
fn no_transactions_no_states() {
    let account = SenderAccount { nonce: 0, balance: 0 };
    assert!(sender_states(&vec![], &account, &chain()).is_empty());
}

#[test]
fn checked_max_cost_is_fee_times_gas_plus_value() {
    assert_eq!(tx(0, 10, 21_000, 1_000).checked_max_cost(), Some(211_000));
    assert_eq!(tx(0, 0, 21_000, 0).checked_max_cost(), Some(0));
    assert_eq!(tx(0, u128::MAX, 1, 0).checked_max_cost(), Some(u128::MAX));
    assert_eq!(tx(0, u128::MAX, 1, 1).checked_max_cost(), None);
    assert_eq!(tx(0, u128::MAX, 2, 0).checked_max_cost(), None);
}

#[test]
fn third_transaction_exceeds_the_balance() {
    let txs = vec![tx(7, 10, 21_000, 1_000), tx(8, 10, 21_000, 1_000), tx(9, 10, 21_000, 1_000)];
    let account = SenderAccount { nonce: 7, balance: 422_000 };
    let states = sender_states(&txs, &account, &chain());
    assert_eq!(bits(&states), vec![62, 62, 54]);
    assert!(states[0].contains(TxState::ENOUGH_BALANCE()));
    assert!(states[1].contains(TxState::ENOUGH_BALANCE()));
    assert!(!states[2].contains(TxState::ENOUGH_BALANCE()));
    assert_eq!(classify(states[0]), SubPool::Pending);
    assert_eq!(classify(states[1]), SubPool::Pending);
    assert_eq!(classify(states[2]), SubPool::BaseFee);
}

#[test]
fn third_transaction_exceeds_the_balance_under_a_higher_base_fee() {
    let txs = vec![tx(7, 10, 21_000, 1_000), tx(8, 10, 21_000, 1_000), tx(9, 10, 21_000, 1_000)];
    let account = SenderAccount { nonce: 7, balance: 422_000 };
    let chain = ChainFacts { min_fee_cap: 7, base_fee: 11, block_gas_limit: 30_000 };
    let states = sender_states(&txs, &account, &chain);
    assert_eq!(bits(&states), vec![60, 60, 52]);
    assert_eq!(classify(states[0]), SubPool::BaseFee);
    assert_eq!(classify(states[1]), SubPool::BaseFee);
    assert_eq!(classify(states[2]), SubPool::BaseFee);
}

#[test]
fn third_transaction_exceeds_the_balance_and_misses_the_minimum_fee_cap() {
    let txs = vec![tx(7, 10, 21_000, 1_000), tx(8, 10, 21_000, 1_000), tx(9, 6, 21_000, 296_001)];
    let account = SenderAccount { nonce: 7, balance: 844_000 };
    let states = sender_states(&txs, &account, &chain());
    assert_eq!(bits(&states), vec![62, 62, 20]);
    assert_eq!(classify(states[2]), SubPool::Queued);
}

#[test]
fn balance_that_just_covers_and_just_does_not() {
    let txs = vec![tx(0, 10, 21_000, 1_000), tx(1, 10, 21_000, 1_000)];
    let covers = SenderAccount { nonce: 0, balance: 422_000 };
    assert_eq!(bits(&sender_states(&txs, &covers, &chain())), vec![62, 62]);
    let short = SenderAccount { nonce: 0, balance: 421_999 };
    assert_eq!(bits(&sender_states(&txs, &short, &chain())), vec![62, 54]);
    let broke = SenderAccount { nonce: 0, balance: 210_999 };
    assert_eq!(bits(&sender_states(&txs, &broke, &chain())), vec![54, 54]);
}

#[test]
fn cost_beyond_every_balance() {
    let txs = vec![tx(0, 10, 10, 0), tx(1, u128::MAX, 2, 0), tx(2, 10, 10, 0)];
    let account = SenderAccount { nonce: 0, balance: u128::MAX };
    assert_eq!(bits(&sender_states(&txs, &account, &chain())), vec![62, 54, 54]);
    let txs = vec![tx(0, u128::MAX, 1, 0), tx(1, 10, 10, 0)];
    assert_eq!(bits(&sender_states(&txs, &account, &chain())), vec![62, 54]);
}

#[test]
fn nonce_gap_holds_back_all_that_follow() {
    let txs = vec![tx(5, 10, 1, 0), tx(6, 10, 1, 0), tx(8, 10, 1, 0), tx(9, 10, 1, 0)];
    let account = SenderAccount { nonce: 5, balance: 1_000 };
    assert_eq!(bits(&sender_states(&txs, &account, &chain())), vec![62, 62, 46, 46]);
    let behind = SenderAccount { nonce: 4, balance: 1_000 };
    assert_eq!(bits(&sender_states(&txs, &behind, &chain())), vec![46, 46, 46, 46]);
}

#[test]
fn nonce_at_the_end_of_its_range() {
    let txs = vec![tx(u64::MAX, 10, 1, 0), tx(0, 10, 1, 0)];
    let account = SenderAccount { nonce: u64::MAX, balance: 1_000 };
    assert_eq!(bits(&sender_states(&txs, &account, &chain())), vec![62, 46]);
}

#[test]
fn fee_cap_and_gas_limit_against_the_chain() {
    let account = SenderAccount { nonce: 0, balance: u128::MAX };
    let at = |fee_cap: u128, gas_limit: u64| {
        sender_states(&vec![tx(0, fee_cap, gas_limit, 0)], &account, &chain())[0].bits()
    };
    assert_eq!(at(10, 30_000), 62);
    assert_eq!(at(10, 30_001), 58);
    assert_eq!(at(9, 30_000), 60);
    assert_eq!(at(7, 30_000), 60);
    assert_eq!(at(6, 30_000), 28);
    assert_eq!(at(6, 30_001), 24);
}

#[test]
fn local_transaction_under_the_base_fee_is_pending() {
    let local = PooledTx { nonce: 3, fee_cap: 8, gas_limit: 100, value: 0, is_local: true };
    let remote = PooledTx { nonce: 4, fee_cap: 8, gas_limit: 100, value: 0, is_local: false };
    let account = SenderAccount { nonce: 3, balance: 10_000 };
    let states = sender_states(&vec![local, remote], &account, &chain());
    assert_eq!(bits(&states), vec![61, 60]);
    assert_eq!(classify(states[0]), SubPool::Pending);
    assert_eq!(classify(states[1]), SubPool::BaseFee);
}
