//! The six facts about a pooled transaction as a record of booleans.

use crate::state::TxState;
use crate::state::ENOUGH_BALANCE_BIT;
use crate::state::ENOUGH_FEE_CAP_BLOCK_BIT;
use crate::state::ENOUGH_FEE_CAP_PROTOCOL_BIT;
use crate::state::IS_LOCAL_BIT;
use crate::state::NOT_TOO_MUCH_GAS_BIT;
use crate::state::NO_NONCE_GAPS_BIT;
use crate::sub_pool::SubPool;
use vstd::prelude::*;

verus! {

/// What is known about a transaction and its sender, one boolean per fact.
#[derive(Debug, Copy, Clone, PartialEq, Eq, Structural)]
pub struct TxFacts {
    /// The fee cap meets the chain's minimum fee cap.
    pub enough_fee_cap_protocol: bool,
    /// No earlier transaction of the sender is missing from the pool.
    pub no_nonce_gaps: bool,
    /// The sender's balance covers this transaction and all earlier ones.
    pub enough_balance: bool,
    /// The gas limit fits into the block's gas limit.
    pub not_too_much_gas: bool,
    /// The fee cap meets the requirement of the pending block.
    pub enough_fee_cap_block: bool,
    /// The transaction came from a local source.
    pub is_local: bool,
}

/// The weight of a fact in the number that the bits make.
pub open spec fn weight(fact: bool, bit: u8) -> int {
    if fact {
        bit as int
    } else {
        0
    }
}

impl TxFacts {
    /// The number that the bits of these facts make: the sum of the bits of
    /// the facts that hold.
    pub open spec fn bits(self) -> int {
        weight(self.enough_fee_cap_protocol, ENOUGH_FEE_CAP_PROTOCOL_BIT)
            + weight(self.no_nonce_gaps, NO_NONCE_GAPS_BIT)
            + weight(self.enough_balance, ENOUGH_BALANCE_BIT)
            + weight(self.not_too_much_gas, NOT_TOO_MUCH_GAS_BIT)
            + weight(self.enough_fee_cap_block, ENOUGH_FEE_CAP_BLOCK_BIT)
            + weight(self.is_local, IS_LOCAL_BIT)
    }

    /// Whether `state` holds exactly these facts.
    pub open spec fn held_by(self, state: TxState) -> bool {
        &&& state.wf()
        &&& state.enough_fee_cap_protocol() == self.enough_fee_cap_protocol
        &&& state.no_nonce_gaps() == self.no_nonce_gaps
        &&& state.enough_balance() == self.enough_balance
        &&& state.not_too_much_gas() == self.not_too_much_gas
        &&& state.enough_fee_cap_block() == self.enough_fee_cap_block
        &&& state.is_local() == self.is_local
    }

    /// The sub-pool of a transaction of which these facts hold.
    pub open spec fn sub_pool(self) -> SubPool {
        if !self.enough_fee_cap_protocol {
            SubPool::Queued
        } else if self.no_nonce_gaps && self.enough_balance && self.not_too_much_gas
            && (self.enough_fee_cap_block || self.is_local) {
            SubPool::Pending
        } else {
            SubPool::BaseFee
        }
    }

    /// The state that holds exactly these facts.
    pub fn state(&self) -> (r: TxState)
        ensures
            r@ == self.bits(),
            self.held_by(r),
            SubPool::by_facts(r) == self.sub_pool(),
    {
        let mut bits: u8 = 0;
        if self.enough_fee_cap_protocol {
            bits = bits + 32;
        }
        if self.no_nonce_gaps {
            bits = bits + 16;
        }
        if self.enough_balance {
            bits = bits + 8;
        }
        if self.not_too_much_gas {
            bits = bits + 4;
        }
        if self.enough_fee_cap_block {
            bits = bits + 2;
        }
        if self.is_local {
            bits = bits + 1;
        }
        let made = TxState::from_bits(bits);
        proof {
            lemma_bits_hold_facts(*self, made.unwrap());
        }
        made.unwrap()
    }
}

/// A state whose bits make the number of some facts holds exactly those facts.
pub proof fn lemma_bits_hold_facts(facts: TxFacts, state: TxState)
    requires
        state@ == facts.bits(),
    ensures
        facts.held_by(state),
        SubPool::by_facts(state) == facts.sub_pool(),
{
    let v: u8 = state@;
    let f5: u8 = if facts.enough_fee_cap_protocol { 32 } else { 0 };
    let f4: u8 = if facts.no_nonce_gaps { 16 } else { 0 };
    let f3: u8 = if facts.enough_balance { 8 } else { 0 };
    let f2: u8 = if facts.not_too_much_gas { 4 } else { 0 };
    let f1: u8 = if facts.enough_fee_cap_block { 2 } else { 0 };
    let f0: u8 = if facts.is_local { 1 } else { 0 };
    assert(v == f5 + f4 + f3 + f2 + f1 + f0);
    assert(v <= 63 && (v & 32 == 32 <==> f5 == 32) && (v & 16 == 16 <==> f4 == 16) && (v & 8 == 8
        <==> f3 == 8) && (v & 4 == 4 <==> f2 == 4) && (v & 2 == 2 <==> f1 == 2) && (v & 1 == 1
        <==> f0 == 1)) by (bit_vector)
        requires
            v == f5 + f4 + f3 + f2 + f1 + f0,
            f5 == 32 || f5 == 0,
            f4 == 16 || f4 == 0,
            f3 == 8 || f3 == 0,
            f2 == 4 || f2 == 0,
            f1 == 2 || f1 == 0,
            f0 == 1 || f0 == 0,
    ;
}

} // verus!
