//! What holds of the classification rule and of the comparison of sub-pools,
//! for every state and every pair of sub-pools.

use crate::state::TxState;
use crate::state::ENOUGH_FEE_CAP_PROTOCOL_BIT;
use crate::sub_pool::lemma_threshold_is_facts;
use crate::sub_pool::PoolChange;
use crate::sub_pool::SubPool;
use vstd::prelude::*;

verus! {

/// Every state, valid or not, falls under exactly one of the three cases of
/// the rule by threshold, and that case names its sub-pool.
pub proof fn lemma_one_sub_pool_each(bits: u8)
    ensures
        SubPool::by_threshold(bits) == SubPool::Pending <==> bits > 60,
        SubPool::by_threshold(bits) == SubPool::Queued <==> bits < 32,
        SubPool::by_threshold(bits) == SubPool::BaseFee <==> 32 <= bits <= 60,
{
}

/// A transaction whose fee cap is under the chain's minimum is queued, whatever
/// else holds of it.
pub proof fn lemma_protocol_fee_cap_veto(state: TxState)
    requires
        state.wf(),
        !state.enough_fee_cap_protocol(),
    ensures
        SubPool::by_threshold(state@) == SubPool::Queued,
        SubPool::by_facts(state) == SubPool::Queued,
{
    lemma_threshold_is_facts(state);
}

/// A transaction is pending if and only if protocol fee cap, nonce order,
/// balance and gas limit all hold of it, and it meets the block's fee or is
/// local.
pub proof fn lemma_pending_iff_base_facts(state: TxState)
    requires
        state.wf(),
    ensures
        SubPool::by_threshold(state@) == SubPool::Pending <==> (state.enough_fee_cap_protocol()
            && state.no_nonce_gaps() && state.enough_balance() && state.not_too_much_gas()
            && (state.enough_fee_cap_block() || state.is_local())),
{
    lemma_threshold_is_facts(state);
}

/// A transaction is in the base fee sub-pool if and only if its fee cap meets
/// the chain's minimum and it is not pending.
pub proof fn lemma_base_fee_iff_residual(state: TxState)
    requires
        state.wf(),
    ensures
        SubPool::by_threshold(state@) == SubPool::BaseFee <==> (state.enough_fee_cap_protocol()
            && !(state.no_nonce_gaps() && state.enough_balance() && state.not_too_much_gas()
            && (state.enough_fee_cap_block() || state.is_local()))),
{
    lemma_threshold_is_facts(state);
}

/// Setting further bits on a pending state leaves it pending.
pub proof fn lemma_pending_stays_under_union(state: TxState, more: TxState)
    requires
        state.wf(),
        more.wf(),
        SubPool::by_threshold(state@) == SubPool::Pending,
    ensures
        SubPool::by_threshold(state@ | more@) == SubPool::Pending,
        TxState::with_bits(state@ | more@).wf(),
        SubPool::by_facts(TxState::with_bits(state@ | more@)) == SubPool::Pending,
{
    let a: u8 = state@;
    let b: u8 = more@;
    assert((a | b) > 60 && (a | b) <= 63) by (bit_vector)
        requires
            a > 60,
            a <= 63,
            b <= 63,
    ;
    crate::state::lemma_with_bits(a | b);
    lemma_threshold_is_facts(TxState::with_bits(a | b));
}

/// Clearing the protocol fee cap bit makes any state queued.
pub proof fn lemma_queued_without_protocol_fee_cap(state: TxState)
    requires
        state.wf(),
    ensures
        SubPool::by_threshold(state@ & !ENOUGH_FEE_CAP_PROTOCOL_BIT) == SubPool::Queued,
{
    let a: u8 = state@;
    assert((a & !32u8) < 32) by (bit_vector)
        requires
            a <= 63,
    ;
}

/// Going from `a` to `b` and going from `b` to `a` are opposite changes: one
/// is a promotion where the other is a demotion, and there is no change
/// exactly where `a` and `b` are the same sub-pool.
pub proof fn lemma_change_reverses(a: SubPool, b: SubPool)
    ensures
        SubPool::change(b, a) == SubPool::change(a, b).reversed(),
        a == b <==> SubPool::change(a, b) == PoolChange::Unchanged,
        a != b ==> SubPool::change(a, b) != SubPool::change(b, a),
{
}

/// The ranks order the sub-pools: queued below base fee, base fee below
/// pending, and no two sub-pools share a rank.
pub proof fn lemma_rank_orders_sub_pools(a: SubPool, b: SubPool)
    ensures
        SubPool::Queued.rank() < SubPool::BaseFee.rank() < SubPool::Pending.rank(),
        a.rank() == b.rank() <==> a == b,
{
}

} // verus!
