//! The states of one sender's transactions, derived in one pass in nonce order.

use crate::facts::TxFacts;
use crate::state::TxState;
use vstd::prelude::*;

verus! {

/// What the pool knows of one of its transactions.
#[derive(Debug, Copy, Clone, PartialEq, Eq, Structural)]
pub struct PooledTx {
    /// The transaction's nonce.
    pub nonce: u64,
    /// The most that the sender pays per unit of gas.
    pub fee_cap: u128,
    /// The most gas that the transaction may use.
    pub gas_limit: u64,
    /// The value that the transaction transfers.
    pub value: u128,
    /// Whether the transaction came from a local source.
    pub is_local: bool,
}

/// What the chain asks of a transaction at the pending block.
#[derive(Debug, Copy, Clone, PartialEq, Eq, Structural)]
pub struct ChainFacts {
    /// The chain's minimum fee cap, the same for every block.
    pub min_fee_cap: u128,
    /// The fee per unit of gas that the pending block asks for.
    pub base_fee: u128,
    /// The gas limit of the block.
    pub block_gas_limit: u64,
}

/// The sender's account on chain.
#[derive(Debug, Copy, Clone, PartialEq, Eq, Structural)]
pub struct SenderAccount {
    /// The nonce of the sender's next transaction.
    pub nonce: u64,
    /// The sender's balance.
    pub balance: u128,
}

impl PooledTx {
    /// The most that the transaction can cost: fee cap times gas limit, plus value.
    pub open spec fn max_cost(self) -> int {
        self.fee_cap as int * self.gas_limit as int + self.value as int
    }

    /// The most that the transaction can cost, where that is not beyond all balances.
    pub fn checked_max_cost(&self) -> (r: Option<u128>)
        ensures
            self.max_cost() <= u128::MAX ==> r == Some(self.max_cost() as u128),
            self.max_cost() > u128::MAX ==> r.is_none(),
    {
        assert(self.fee_cap as int * self.gas_limit as int >= 0) by (nonlinear_arith);
        match self.fee_cap.checked_mul(self.gas_limit as u128) {
            Some(fee) => fee.checked_add(self.value),
            None => None,
        }
    }
}

/// The most that the first `n` of the transactions can cost together.
pub open spec fn cumulative_cost(txs: Seq<PooledTx>, n: int) -> int
    decreases n,
{
    if n <= 0 {
        0
    } else {
        cumulative_cost(txs, n - 1) + txs[n - 1].max_cost()
    }
}

/// Whether the first `n` of the transactions have the nonces that follow on
/// `first` one by one, none left out.
pub open spec fn no_gap_before(txs: Seq<PooledTx>, first: u64, n: int) -> bool {
    forall|j: int| 0 <= j < n ==> (#[trigger] txs[j]).nonce == first + j
}

/// The facts about the transaction at place `i` among those of its sender,
/// which stand in the order of their nonces.
pub open spec fn facts_at(
    txs: Seq<PooledTx>,
    account: SenderAccount,
    chain: ChainFacts,
    i: int,
) -> TxFacts {
    TxFacts {
        enough_fee_cap_protocol: txs[i].fee_cap >= chain.min_fee_cap,
        no_nonce_gaps: no_gap_before(txs, account.nonce, i + 1),
        enough_balance: cumulative_cost(txs, i + 1) <= account.balance,
        not_too_much_gas: txs[i].gas_limit <= chain.block_gas_limit,
        enough_fee_cap_block: txs[i].fee_cap >= chain.base_fee,
        is_local: txs[i].is_local,
    }
}

/// The cost of transactions is never negative, so that of more is not less.
pub proof fn lemma_cumulative_cost_grows(txs: Seq<PooledTx>, m: int, n: int)
    requires
        0 <= m <= n,
    ensures
        0 <= cumulative_cost(txs, m) <= cumulative_cost(txs, n),
    decreases n,
{
    if m < n {
        lemma_cumulative_cost_grows(txs, m, n - 1);
        let tx = txs[n - 1];
        assert(tx.fee_cap as int * tx.gas_limit as int >= 0) by (nonlinear_arith);
    } else if n > 0 {
        lemma_cumulative_cost_grows(txs, m - 1, n - 1);
        let tx = txs[n - 1];
        assert(tx.fee_cap as int * tx.gas_limit as int >= 0) by (nonlinear_arith);
    }
}

/// A nonce gap or a want of balance at one place holds at every later place
/// too: where the transaction at place `k` has no gap before it, or is
/// covered by the balance, so has and is every transaction before it.
pub proof fn lemma_earlier_fare_no_worse(
    txs: Seq<PooledTx>,
    account: SenderAccount,
    chain: ChainFacts,
    i: int,
    k: int,
)
    requires
        0 <= i <= k < txs.len(),
    ensures
        facts_at(txs, account, chain, k).no_nonce_gaps
            ==> facts_at(txs, account, chain, i).no_nonce_gaps,
        facts_at(txs, account, chain, k).enough_balance
            ==> facts_at(txs, account, chain, i).enough_balance,
{
    lemma_cumulative_cost_grows(txs, i + 1, k + 1);
}

/// Whether the transactions stand in the strict order of their nonces, none of
/// them below `first`.
pub open spec fn in_nonce_order(txs: Seq<PooledTx>, first: u64) -> bool {
    &&& forall|j: int| 0 <= j < txs.len() ==> (#[trigger] txs[j]).nonce >= first
    &&& forall|j: int, k: int|
        0 <= j < k < txs.len() ==> (#[trigger] txs[j]).nonce < (#[trigger] txs[k]).nonce
}

/// Whether one of the transactions has the nonce `n`.
pub open spec fn has_nonce(txs: Seq<PooledTx>, n: int) -> bool {
    exists|j: int| 0 <= j < txs.len() && (#[trigger] txs[j]).nonce == n
}

/// Whether every nonce from `first` up to that of the transaction at place
/// `i`, which is not counted, is the nonce of one of the transactions.
pub open spec fn all_earlier_present(txs: Seq<PooledTx>, first: u64, i: int) -> bool {
    forall|n: int| first <= n < txs[i].nonce ==> #[trigger] has_nonce(txs, n)
}

/// Among transactions in the order of their nonces, those up to place `i`
/// follow on `first` one by one if every nonce below that of the transaction
/// at place `i` is there.
proof fn lemma_all_present_leaves_no_gap(txs: Seq<PooledTx>, first: u64, i: int)
    requires
        in_nonce_order(txs, first),
        0 <= i < txs.len(),
        all_earlier_present(txs, first, i),
    ensures
        no_gap_before(txs, first, i + 1),
    decreases i,
{
    let m = txs[i].nonce;
    if i == 0 {
        if m > first {
            assert(has_nonce(txs, first as int));
            let j = choose|j: int| 0 <= j < txs.len() && (#[trigger] txs[j]).nonce == first;
            assert(j == 0 || txs[0].nonce < txs[j].nonce);
        }
    } else {
        assert(txs[i - 1].nonce < m);
        assert(has_nonce(txs, m - 1));
        let j = choose|j: int| 0 <= j < txs.len() && (#[trigger] txs[j]).nonce == m - 1;
        assert(j < i) by {
            if j > i {
                assert(txs[i].nonce < txs[j].nonce);
            }
        }
        assert(txs[i - 1].nonce == m - 1) by {
            if j < i - 1 {
                assert(txs[j].nonce < txs[i - 1].nonce);
            }
        }
        assert forall|n: int| first <= n < txs[i - 1].nonce implies #[trigger] has_nonce(
            txs,
            n,
        ) by {
            assert(n < txs[i].nonce);
        }
        lemma_all_present_leaves_no_gap(txs, first, i - 1);
        assert(txs[i - 1].nonce == first + (i - 1));
    }
}

/// Among transactions in the order of their nonces, none below the sender's
/// nonce on chain, those up to place `i` follow on that nonce one by one if
/// and only if every nonce from it up to that of the transaction at place `i`
/// is in the pool; and the transactions with a lower nonce are those at the
/// places before `i`.
pub proof fn lemma_no_gap_iff_all_earlier_present(txs: Seq<PooledTx>, first: u64, i: int)
    requires
        in_nonce_order(txs, first),
        0 <= i < txs.len(),
    ensures
        no_gap_before(txs, first, i + 1) <==> all_earlier_present(txs, first, i),
        forall|j: int| 0 <= j < txs.len() ==> ((#[trigger] txs[j]).nonce < txs[i].nonce <==> j < i),
{
    if no_gap_before(txs, first, i + 1) {
        assert forall|n: int| first <= n < txs[i].nonce implies #[trigger] has_nonce(txs, n) by {
            let j = n - first;
            assert(txs[i].nonce == first + i);
            assert(txs[j].nonce == n);
        }
    }
    if all_earlier_present(txs, first, i) {
        lemma_all_present_leaves_no_gap(txs, first, i);
    }
    assert forall|j: int| 0 <= j < txs.len() implies ((#[trigger] txs[j]).nonce < txs[i].nonce
        <==> j < i) by {
        if j > i {
            assert(txs[i].nonce < txs[j].nonce);
        }
        if j < i {
            assert(txs[j].nonce < txs[i].nonce);
        }
    }
}

/// The states of a sender's transactions, which stand in the order of their
/// nonces: for each the state that holds the facts about it, in the same
/// place.
pub fn sender_states(
    txs: &Vec<PooledTx>,
    account: &SenderAccount,
    chain: &ChainFacts,
) -> (r: Vec<TxState>)
    ensures
        r.len() == txs.len(),
        forall|i: int|
            0 <= i < txs.len() ==> {
                &&& (#[trigger] r[i])@ == facts_at(txs@, *account, *chain, i).bits()
                &&& facts_at(txs@, *account, *chain, i).held_by(r[i])
            },
{
    let mut states: Vec<TxState> = Vec::new();
    let mut gap_seen = false;
    let mut expected: Option<u64> = Some(account.nonce);
    let mut spent: Option<u128> = Some(0);
    let mut i: usize = 0;
    while i < txs.len()
        invariant
            i <= txs.len(),
            states.len() == i,
            gap_seen == !no_gap_before(txs@, account.nonce, i as int),
            expected matches Some(n) ==> n == account.nonce + i,
            expected.is_none() ==> account.nonce + i > u64::MAX,
            spent matches Some(s) ==> s == cumulative_cost(txs@, i as int),
            spent.is_none() ==> cumulative_cost(txs@, i as int) > u128::MAX,
            forall|k: int|
                0 <= k < i ==> {
                    &&& (#[trigger] states[k])@ == facts_at(txs@, *account, *chain, k).bits()
                    &&& facts_at(txs@, *account, *chain, k).held_by(states[k])
                },
        decreases txs.len() - i,
    {
        let tx = &txs[i];
        let in_place = match expected {
            Some(n) => tx.nonce == n,
            None => false,
        };
        if !in_place {
            gap_seen = true;
        }
        expected = match expected {
            Some(n) => n.checked_add(1),
            None => None,
        };
        proof {
            lemma_cumulative_cost_grows(txs@, i as int, i + 1);
        }
        spent = match (spent, tx.checked_max_cost()) {
            (Some(s), Some(cost)) => s.checked_add(cost),
            _ => None,
        };
        let enough_balance = match spent {
            Some(s) => s <= account.balance,
            None => false,
        };
        let facts = TxFacts {
            enough_fee_cap_protocol: tx.fee_cap >= chain.min_fee_cap,
            no_nonce_gaps: !gap_seen,
            enough_balance,
            not_too_much_gas: tx.gas_limit <= chain.block_gas_limit,
            enough_fee_cap_block: tx.fee_cap >= chain.base_fee,
            is_local: tx.is_local,
        };
        assert(facts == facts_at(txs@, *account, *chain, i as int));
        states.push(facts.state());
        i = i + 1;
    }
    states
}

} // verus!
