//! The sub-pools of the transaction pool, and the rule that assigns a state to one.

use crate::state::TxState;
use crate::state::BASE_FEE_POOL_MASK;
use crate::state::QUEUED_POOL_MASK;
use core::cmp::Ordering;
use vstd::prelude::*;
use vstd::std_specs::cmp::PartialOrdSpecImpl;
use vstd::std_specs::convert::FromSpecImpl;

verus! {

/// Identifier of a sub-pool. A transaction is in exactly one of them.
#[derive(Debug, Copy, Clone, PartialEq, Eq, Structural, Ord)]
pub enum SubPool {
    /// Transactions that cannot be executed on the current state: a nonce
    /// gap, too little balance, or a fee cap under the chain's minimum.
    Queued,
    /// Transactions that are held back only by the fee of the pending block.
    BaseFee,
    /// Transactions that are ready for the next block.
    Pending,
}

/// How a transaction moved when its sub-pool was derived anew.
#[derive(Debug, Copy, Clone, PartialEq, Eq, Structural)]
pub enum PoolChange {
    /// The new sub-pool ranks above the old one.
    Promoted,
    /// The new sub-pool ranks below the old one.
    Demoted,
    /// The sub-pool is the same.
    Unchanged,
}

impl PoolChange {
    /// The change seen in the other direction.
    pub open spec fn reversed(self) -> PoolChange {
        match self {
            PoolChange::Promoted => PoolChange::Demoted,
            PoolChange::Demoted => PoolChange::Promoted,
            PoolChange::Unchanged => PoolChange::Unchanged,
        }
    }
}

impl SubPool {
    /// The priority of the sub-pool: the closer to execution, the higher.
    pub open spec fn rank(self) -> int {
        match self {
            SubPool::Queued => 0,
            SubPool::BaseFee => 1,
            SubPool::Pending => 2,
        }
    }

    /// The sub-pool of a state by its facts: without the protocol fee cap a
    /// transaction is queued whatever else holds; with it, the transaction is
    /// pending if nonce order, balance and gas limit hold and it meets the
    /// block's fee or is local; else it waits in the base fee sub-pool.
    pub open spec fn by_facts(state: TxState) -> SubPool {
        if !state.enough_fee_cap_protocol() {
            SubPool::Queued
        } else if state.no_nonce_gaps() && state.enough_balance() && state.not_too_much_gas()
            && (state.enough_fee_cap_block() || state.is_local()) {
            SubPool::Pending
        } else {
            SubPool::BaseFee
        }
    }

    /// The sub-pool of a state by the number its bits make: above the four
    /// base fee bits it is pending, below the protocol fee cap bit it is
    /// queued.
    pub open spec fn by_threshold(bits: u8) -> SubPool {
        if bits > BASE_FEE_POOL_MASK {
            SubPool::Pending
        } else if bits < QUEUED_POOL_MASK {
            SubPool::Queued
        } else {
            SubPool::BaseFee
        }
    }

    /// How a transaction moves that goes from `before` to `after`.
    pub open spec fn change(before: SubPool, after: SubPool) -> PoolChange {
        if after.rank() > before.rank() {
            PoolChange::Promoted
        } else if after.rank() < before.rank() {
            PoolChange::Demoted
        } else {
            PoolChange::Unchanged
        }
    }

    /// The priority of the sub-pool as a number.
    pub fn priority(&self) -> (r: u8)
        ensures
            r == self.rank(),
    {
        match self {
            SubPool::Queued => 0,
            SubPool::BaseFee => 1,
            SubPool::Pending => 2,
        }
    }

    /// Whether this is the pending sub-pool.
    pub fn is_pending(&self) -> (r: bool)
        ensures
            r == (*self == SubPool::Pending),
    {
        matches!(self, SubPool::Pending)
    }

    /// Whether a transaction that is in `other` and goes to this sub-pool is
    /// promoted: whether this sub-pool ranks above `other`.
    pub fn is_promoted(&self, other: SubPool) -> (r: bool)
        ensures
            r == (self.rank() > other.rank()),
            r == (SubPool::change(other, *self) == PoolChange::Promoted),
    {
        self.priority() > other.priority()
    }
}

/// For a valid state the rule by threshold and the rule by facts agree.
pub proof fn lemma_threshold_is_facts(state: TxState)
    requires
        state.wf(),
    ensures
        SubPool::by_threshold(state@) == SubPool::by_facts(state),
{
    let v: u8 = state@;
    assert(v < 32 <==> v & 32 != 32) by (bit_vector)
        requires
            v <= 63,
    ;
    assert(v > 60 <==> (v & 32 == 32 && v & 16 == 16 && v & 8 == 8 && v & 4 == 4 && (v & 2 == 2
        || v & 1 == 1))) by (bit_vector)
        requires
            v <= 63,
    ;
}

impl From<TxState> for SubPool {
    /// The sub-pool that a transaction in this state belongs to.
    fn from(value: TxState) -> (r: SubPool)
        ensures
            r == SubPool::by_facts(value),
    {
        proof {
            use_type_invariant(&value);
            lemma_threshold_is_facts(value);
        }
        if value > TxState::BASE_FEE_POOL_BITS() {
            return SubPool::Pending;
        }
        if value < TxState::QUEUED_POOL_BITS() {
            return SubPool::Queued;
        }
        SubPool::BaseFee
    }
}

impl FromSpecImpl<TxState> for SubPool {
    open spec fn obeys_from_spec() -> bool {
        true
    }

    open spec fn from_spec(value: TxState) -> SubPool {
        SubPool::by_threshold(value@)
    }
}

/// The sub-pool that a transaction in the given state belongs to.
pub fn classify(state: TxState) -> (r: SubPool)
    ensures
        r == SubPool::by_threshold(state@),
        r == SubPool::by_facts(state),
{
    SubPool::from(state)
}

/// How a transaction moves whose sub-pool was `before` and is now `after`.
pub fn compare(before: SubPool, after: SubPool) -> (r: PoolChange)
    ensures
        r == SubPool::change(before, after),
{
    if after.is_promoted(before) {
        PoolChange::Promoted
    } else if before.is_promoted(after) {
        PoolChange::Demoted
    } else {
        PoolChange::Unchanged
    }
}

impl PartialOrd for SubPool {
    /// Sub-pools compare as their ranks do.
    fn partial_cmp(&self, other: &SubPool) -> (r: Option<Ordering>) {
        let a: u8 = self.priority();
        let b: u8 = other.priority();
        if a < b {
            Some(Ordering::Less)
        } else if a > b {
            Some(Ordering::Greater)
        } else {
            Some(Ordering::Equal)
        }
    }
}

impl PartialOrdSpecImpl for SubPool {
    open spec fn obeys_partial_cmp_spec() -> bool {
        true
    }

    open spec fn partial_cmp_spec(&self, other: &SubPool) -> Option<Ordering> {
        if self.rank() < other.rank() {
            Some(Ordering::Less)
        } else if self.rank() > other.rank() {
            Some(Ordering::Greater)
        } else {
            Some(Ordering::Equal)
        }
    }
}

} // verus!
