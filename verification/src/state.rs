//! The bit set of facts about a pooled transaction.

use core::cmp::Ordering;
use vstd::prelude::*;
use vstd::std_specs::cmp::PartialOrdSpecImpl;
use vstd::std_specs::ops::BitAndSpecImpl;
use vstd::std_specs::ops::BitOrSpecImpl;

verus! {

/// Bit of [`TxState::ENOUGH_FEE_CAP_PROTOCOL`].
pub const ENOUGH_FEE_CAP_PROTOCOL_BIT: u8 = 0b100000;

/// Bit of [`TxState::NO_NONCE_GAPS`].
pub const NO_NONCE_GAPS_BIT: u8 = 0b010000;

/// Bit of [`TxState::ENOUGH_BALANCE`].
pub const ENOUGH_BALANCE_BIT: u8 = 0b001000;

/// Bit of [`TxState::NOT_TOO_MUCH_GAS`].
pub const NOT_TOO_MUCH_GAS_BIT: u8 = 0b000100;

/// Bit of [`TxState::ENOUGH_FEE_CAP_BLOCK`].
pub const ENOUGH_FEE_CAP_BLOCK_BIT: u8 = 0b000010;

/// Bit of [`TxState::IS_LOCAL`].
pub const IS_LOCAL_BIT: u8 = 0b000001;

/// The four bits of [`TxState::BASE_FEE_POOL_BITS`].
pub const BASE_FEE_POOL_MASK: u8 = 0b111100;

/// The one bit of [`TxState::QUEUED_POOL_BITS`].
pub const QUEUED_POOL_MASK: u8 = 0b100000;

/// All six defined bits.
pub const ALL_MASK: u8 = 0b111111;

/// Whether `bits` holds nothing but the six defined bits.
pub open spec fn only_defined_bits(bits: u8) -> bool {
    bits <= ALL_MASK
}

/// The facts about a transaction in the pool from which its sub-pool is derived.
///
/// The view of a state is its bits as one byte. A state never holds a bit
/// outside the six defined ones.
#[derive(Copy, Clone, Debug, PartialEq, Eq, Structural, Ord, Hash)]
pub struct TxState {
    bits: u8,
}

impl View for TxState {
    type V = u8;

    closed spec fn view(&self) -> u8 {
        self.bits
    }
}

impl TxState {
    /// Validity of a state: only defined bits are set. Every state that
    /// executable code can hold is valid.
    #[verifier::type_invariant]
    pub open spec fn wf(self) -> bool {
        only_defined_bits(self@)
    }

    /// The state whose bits are `bits`.
    pub closed spec fn with_bits(bits: u8) -> TxState {
        TxState { bits }
    }

    /// Whether every bit of `mask` is set in this state.
    pub open spec fn has(self, mask: u8) -> bool {
        self@ & mask == mask
    }

    /// The fee cap meets the chain's minimum fee cap.
    pub open spec fn enough_fee_cap_protocol(self) -> bool {
        self.has(ENOUGH_FEE_CAP_PROTOCOL_BIT)
    }

    /// No earlier transaction of the sender is missing from the pool.
    pub open spec fn no_nonce_gaps(self) -> bool {
        self.has(NO_NONCE_GAPS_BIT)
    }

    /// The sender's balance covers this transaction and all earlier ones.
    pub open spec fn enough_balance(self) -> bool {
        self.has(ENOUGH_BALANCE_BIT)
    }

    /// The gas limit fits into the block's gas limit.
    pub open spec fn not_too_much_gas(self) -> bool {
        self.has(NOT_TOO_MUCH_GAS_BIT)
    }

    /// The fee cap meets the requirement of the pending block.
    pub open spec fn enough_fee_cap_block(self) -> bool {
        self.has(ENOUGH_FEE_CAP_BLOCK_BIT)
    }

    /// The transaction came from a local source.
    pub open spec fn is_local(self) -> bool {
        self.has(IS_LOCAL_BIT)
    }

    /// Set if the fee cap of the transaction meets the chain's minimum fee
    /// cap. Unlike [`TxState::ENOUGH_FEE_CAP_BLOCK`] this does not change
    /// from block to block.
    #[allow(non_snake_case)]
    pub fn ENOUGH_FEE_CAP_PROTOCOL() -> (r: TxState)
        ensures
            r@ == ENOUGH_FEE_CAP_PROTOCOL_BIT,
    {
        TxState { bits: ENOUGH_FEE_CAP_PROTOCOL_BIT }
    }

    /// Set if the transaction is the sender's next one (its nonce is the
    /// nonce on chain) or all earlier ones are in the pool too.
    #[allow(non_snake_case)]
    pub fn NO_NONCE_GAPS() -> (r: TxState)
        ensures
            r@ == NO_NONCE_GAPS_BIT,
    {
        TxState { bits: NO_NONCE_GAPS_BIT }
    }

    /// Set if the sender's balance covers the maximum cost of this
    /// transaction (fee cap times gas limit, plus value) together with the
    /// maximum cost of all earlier transactions of the sender in the pool.
    #[allow(non_snake_case)]
    pub fn ENOUGH_BALANCE() -> (r: TxState)
        ensures
            r@ == ENOUGH_BALANCE_BIT,
    {
        TxState { bits: ENOUGH_BALANCE_BIT }
    }

    /// Set if the gas limit of the transaction is within the block's gas limit.
    #[allow(non_snake_case)]
    pub fn NOT_TOO_MUCH_GAS() -> (r: TxState)
        ensures
            r@ == NOT_TOO_MUCH_GAS_BIT,
    {
        TxState { bits: NOT_TOO_MUCH_GAS_BIT }
    }

    /// Set if the fee cap of the transaction meets the requirement of the
    /// pending block.
    #[allow(non_snake_case)]
    pub fn ENOUGH_FEE_CAP_BLOCK() -> (r: TxState)
        ensures
            r@ == ENOUGH_FEE_CAP_BLOCK_BIT,
    {
        TxState { bits: ENOUGH_FEE_CAP_BLOCK_BIT }
    }

    /// Set if the transaction came from a trusted local source.
    #[allow(non_snake_case)]
    pub fn IS_LOCAL() -> (r: TxState)
        ensures
            r@ == IS_LOCAL_BIT,
    {
        TxState { bits: IS_LOCAL_BIT }
    }

    /// The four bits without which a transaction cannot leave the base fee
    /// sub-pool: protocol fee cap, nonce order, balance and gas limit.
    #[allow(non_snake_case)]
    pub fn BASE_FEE_POOL_BITS() -> (r: TxState)
        ensures
            r@ == BASE_FEE_POOL_MASK,
    {
        TxState { bits: BASE_FEE_POOL_MASK }
    }

    /// The bit below which a transaction is queued: the protocol fee cap.
    #[allow(non_snake_case)]
    pub fn QUEUED_POOL_BITS() -> (r: TxState)
        ensures
            r@ == QUEUED_POOL_MASK,
    {
        TxState { bits: QUEUED_POOL_MASK }
    }

    /// The state with no bit set.
    pub fn empty() -> (r: TxState)
        ensures
            r@ == 0,
    {
        TxState { bits: 0 }
    }

    /// The state with all six bits set.
    pub fn all() -> (r: TxState)
        ensures
            r@ == ALL_MASK,
    {
        TxState { bits: ALL_MASK }
    }

    /// The bits of this state.
    pub fn bits(&self) -> (r: u8)
        ensures
            r == self@,
            self.wf(),
    {
        proof {
            use_type_invariant(self);
        }
        self.bits
    }

    /// The state with exactly the given bits, unless one of them is not defined.
    pub fn from_bits(bits: u8) -> (r: Option<TxState>)
        ensures
            only_defined_bits(bits) ==> r.is_some() && r.unwrap()@ == bits,
            !only_defined_bits(bits) ==> r.is_none(),
    {
        if bits <= ALL_MASK {
            Some(TxState { bits })
        } else {
            None
        }
    }
}

impl TxState {
    /// Whether no bit is set.
    pub fn is_empty(&self) -> (r: bool)
        ensures
            r == (self@ == 0),
    {
        self.bits == 0
    }

    /// Whether all six bits are set.
    pub fn is_all(&self) -> (r: bool)
        ensures
            r == (self@ == ALL_MASK),
    {
        self.bits == ALL_MASK
    }

    /// Whether every bit of `other` is set in this state.
    pub fn contains(&self, other: TxState) -> (r: bool)
        ensures
            r == self.has(other@),
    {
        (self.bits & other.bits) == other.bits
    }

    /// Whether this state and `other` have a set bit in common.
    pub fn intersects(&self, other: TxState) -> (r: bool)
        ensures
            r == (self@ & other@ != 0),
    {
        (self.bits & other.bits) != 0
    }

    /// The bits set in this state or in `other`.
    pub fn union(self, other: TxState) -> (r: TxState)
        ensures
            r@ == self@ | other@,
    {
        let a: u8 = self.bits();
        let b: u8 = other.bits();
        proof {
            lemma_or_stays_defined(a, b);
        }
        TxState { bits: a | b }
    }

    /// The bits set in this state and in `other`.
    pub fn intersection(self, other: TxState) -> (r: TxState)
        ensures
            r@ == self@ & other@,
    {
        let a: u8 = self.bits();
        let b: u8 = other.bits();
        proof {
            lemma_and_stays_defined(a, b);
        }
        TxState { bits: a & b }
    }

    /// The bits set in this state and not in `other`.
    pub fn difference(self, other: TxState) -> (r: TxState)
        ensures
            r@ == self@ & !other@,
    {
        let a: u8 = self.bits();
        let b: u8 = !other.bits();
        proof {
            lemma_and_stays_defined(a, b);
        }
        TxState { bits: a & b }
    }

    /// Sets the bits of `other` in this state.
    pub fn insert(&mut self, other: TxState)
        ensures
            final(self)@ == old(self)@ | other@,
    {
        *self = self.union(other);
    }

    /// Clears the bits of `other` in this state.
    pub fn remove(&mut self, other: TxState)
        ensures
            final(self)@ == old(self)@ & !other@,
    {
        *self = self.difference(other);
    }

    /// Sets the bits of `other` if `value` is true, and clears them if not.
    pub fn set(&mut self, other: TxState, value: bool)
        ensures
            value ==> final(self)@ == old(self)@ | other@,
            !value ==> final(self)@ == old(self)@ & !other@,
    {
        if value {
            self.insert(other);
        } else {
            self.remove(other);
        }
    }
}

/// The two masks and the set of all bits are the unions of the single bits
/// that they are made of.
pub proof fn lemma_masks_are_unions()
    ensures
        BASE_FEE_POOL_MASK == ENOUGH_FEE_CAP_PROTOCOL_BIT | NO_NONCE_GAPS_BIT | ENOUGH_BALANCE_BIT
            | NOT_TOO_MUCH_GAS_BIT,
        QUEUED_POOL_MASK == ENOUGH_FEE_CAP_PROTOCOL_BIT,
        ALL_MASK == BASE_FEE_POOL_MASK | ENOUGH_FEE_CAP_BLOCK_BIT | IS_LOCAL_BIT,
{
    assert(0b111100u8 == 0b100000u8 | 0b010000u8 | 0b001000u8 | 0b000100u8) by (bit_vector);
    assert(0b111111u8 == 0b111100u8 | 0b000010u8 | 0b000001u8) by (bit_vector);
}

/// The union of two bytes with defined bits only has defined bits only.
pub proof fn lemma_or_stays_defined(a: u8, b: u8)
    requires
        only_defined_bits(a),
        only_defined_bits(b),
    ensures
        only_defined_bits(a | b),
{
    assert(a <= 63 && b <= 63 ==> (a | b) <= 63) by (bit_vector);
}

/// What a byte with defined bits only has in common with any byte has
/// defined bits only.
pub proof fn lemma_and_stays_defined(a: u8, b: u8)
    requires
        only_defined_bits(a),
    ensures
        only_defined_bits(a & b),
{
    assert(a <= 63 ==> (a & b) <= 63) by (bit_vector);
}

/// The state made of given bits has those bits.
pub proof fn lemma_with_bits(bits: u8)
    ensures
        TxState::with_bits(bits)@ == bits,
{
}

/// Two states with the same bits are the same state.
pub proof fn lemma_same_bits_same_state(a: TxState, b: TxState)
    requires
        a@ == b@,
    ensures
        a == b,
{
}

impl Default for TxState {
    /// The state with no bit set.
    fn default() -> (r: TxState)
        ensures
            r@ == 0,
    {
        TxState { bits: 0 }
    }
}

impl core::ops::BitOr for TxState {
    type Output = TxState;

    /// The union of the two states.
    fn bitor(self, other: TxState) -> (r: TxState)
        ensures
            r@ == self@ | other@,
    {
        self.union(other)
    }
}

impl BitOrSpecImpl for TxState {
    open spec fn obeys_bitor_spec() -> bool {
        true
    }

    open spec fn bitor_req(self, other: TxState) -> bool {
        true
    }

    open spec fn bitor_spec(self, other: TxState) -> TxState {
        TxState::with_bits(self@ | other@)
    }
}

impl core::ops::BitAnd for TxState {
    type Output = TxState;

    /// The intersection of the two states.
    fn bitand(self, other: TxState) -> (r: TxState)
        ensures
            r@ == self@ & other@,
    {
        self.intersection(other)
    }
}

impl BitAndSpecImpl for TxState {
    open spec fn obeys_bitand_spec() -> bool {
        true
    }

    open spec fn bitand_req(self, other: TxState) -> bool {
        true
    }

    open spec fn bitand_spec(self, other: TxState) -> TxState {
        TxState::with_bits(self@ & other@)
    }
}

impl core::ops::BitOrAssign for TxState {
    /// Sets the bits of `other` in this state.
    fn bitor_assign(&mut self, other: TxState)
        ensures
            final(self)@ == old(self)@ | other@,
    {
        self.insert(other);
    }
}

impl PartialOrd for TxState {
    /// States compare as their bits do, as unsigned numbers.
    fn partial_cmp(&self, other: &TxState) -> (r: Option<Ordering>) {
        if self.bits < other.bits {
            Some(Ordering::Less)
        } else if self.bits > other.bits {
            Some(Ordering::Greater)
        } else {
            Some(Ordering::Equal)
        }
    }
}

impl PartialOrdSpecImpl for TxState {
    open spec fn obeys_partial_cmp_spec() -> bool {
        true
    }

    open spec fn partial_cmp_spec(&self, other: &TxState) -> Option<Ordering> {
        if self@ < other@ {
            Some(Ordering::Less)
        } else if self@ > other@ {
            Some(Ordering::Greater)
        } else {
            Some(Ordering::Equal)
        }
    }
}

} // verus!
