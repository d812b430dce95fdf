//! The bit-packed operation-and-comparison word used by the
//! wake-and-modify call.
//!
//! The word packs four fields into 32 bits: a modify op-code in bits 28..32,
//! a comparison op-code in bits 24..28, the modify argument in bits 12..24
//! and the comparison argument in bits 0..12.  The kernel applies the modify
//! operation to a second cell, remembers the old value, and wakes waiters on
//! that cell only if the old value satisfies the comparison.

use vstd::prelude::*;

verus! {

/// Exclusive upper bound on an operation or comparison argument: each
/// argument field of the packed word is 12 bits wide.
pub const ARG_LIMIT: u32 = 4096;

/// Modify op-code: assign the argument.
pub const OP_ASSIGN: u32 = 0;
/// Modify op-code: add the argument.
pub const OP_ADD: u32 = 1;
/// Modify op-code: bitwise-or with the argument.
pub const OP_OR: u32 = 2;
/// Modify op-code: bitwise-and with the complement of the argument.
pub const OP_ANDN: u32 = 3;
/// Modify op-code: xor with the argument.
pub const OP_XOR: u32 = 4;
/// Modify op-code: assign `1 << bit`.  The bit-index variants are the plain
/// op-codes with bit 3 of the op-code field set, which tells the kernel to
/// shift `1` by the argument first.
pub const OP_ASSIGN_BIT: u32 = 8;
/// Modify op-code: add `1 << bit`.
pub const OP_ADD_BIT: u32 = 9;
/// Modify op-code: set the `bit`th bit.
pub const OP_SET_BIT: u32 = 10;
/// Modify op-code: clear the `bit`th bit.
pub const OP_CLEAR_BIT: u32 = 11;
/// Modify op-code: toggle the `bit`th bit.
pub const OP_TOGGLE_BIT: u32 = 12;

/// Comparison op-code: old value equals the argument.
pub const CMP_EQ: u32 = 0;
/// Comparison op-code: old value does not equal the argument.
pub const CMP_NE: u32 = 1;
/// Comparison op-code: old value is less than the argument.
pub const CMP_LT: u32 = 2;
/// Comparison op-code: old value is at most the argument.
pub const CMP_LE: u32 = 3;
/// Comparison op-code: old value is greater than the argument.
pub const CMP_GT: u32 = 4;
/// Comparison op-code: old value is at least the argument.
pub const CMP_GE: u32 = 5;

/// The modify half of the word: op-code in bits 28..32, argument in
/// bits 12..24.
pub open spec fn op_word(code: u32, arg: u32) -> u32 {
    (arg << 12) | (code << 28)
}

/// The comparison half of the word: op-code in bits 24..28, argument in
/// bits 0..12.
pub open spec fn cmp_word(code: u32, arg: u32) -> u32 {
    arg | (code << 24)
}

/// The modify op-code a packed word carries.
pub open spec fn word_op_code(w: u32) -> u32 {
    w >> 28
}

/// The modify argument a packed word carries.
pub open spec fn word_op_arg(w: u32) -> u32 {
    (w >> 12) & 0xfff
}

/// The comparison op-code a packed word carries.
pub open spec fn word_cmp_code(w: u32) -> u32 {
    (w >> 24) & 0xf
}

/// The comparison argument a packed word carries.
pub open spec fn word_cmp_arg(w: u32) -> u32 {
    w & 0xfff
}

/// The ten modify op-codes the kernel accepts.
pub open spec fn valid_op_code(code: u32) -> bool {
    ||| code == OP_ASSIGN
    ||| code == OP_ADD
    ||| code == OP_OR
    ||| code == OP_ANDN
    ||| code == OP_XOR
    ||| code == OP_ASSIGN_BIT
    ||| code == OP_ADD_BIT
    ||| code == OP_SET_BIT
    ||| code == OP_CLEAR_BIT
    ||| code == OP_TOGGLE_BIT
}

/// The six comparison op-codes the kernel accepts.
pub open spec fn valid_cmp_code(code: u32) -> bool {
    ||| code == CMP_EQ
    ||| code == CMP_NE
    ||| code == CMP_LT
    ||| code == CMP_LE
    ||| code == CMP_GT
    ||| code == CMP_GE
}

/// Law: packing a modify operation and a comparison into one word and
/// reading the four fields back recovers both op-codes and both arguments
/// exactly, for every argument below `ARG_LIMIT`.  The two halves occupy
/// disjoint bit ranges, so combining them loses nothing.
pub proof fn lemma_word_round_trip(op_code: u32, op_arg: u32, cmp_code: u32, cmp_arg: u32)
    requires
        valid_op_code(op_code),
        op_arg < ARG_LIMIT,
        valid_cmp_code(cmp_code),
        cmp_arg < ARG_LIMIT,
    ensures
        word_op_code(op_word(op_code, op_arg) | cmp_word(cmp_code, cmp_arg)) == op_code,
        word_op_arg(op_word(op_code, op_arg) | cmp_word(cmp_code, cmp_arg)) == op_arg,
        word_cmp_code(op_word(op_code, op_arg) | cmp_word(cmp_code, cmp_arg)) == cmp_code,
        word_cmp_arg(op_word(op_code, op_arg) | cmp_word(cmp_code, cmp_arg)) == cmp_arg,
{
    assert(op_code < 16 && cmp_code < 16);
    assert(word_op_code(op_word(op_code, op_arg) | cmp_word(cmp_code, cmp_arg)) == op_code
        && word_op_arg(op_word(op_code, op_arg) | cmp_word(cmp_code, cmp_arg)) == op_arg
        && word_cmp_code(op_word(op_code, op_arg) | cmp_word(cmp_code, cmp_arg)) == cmp_code
        && word_cmp_arg(op_word(op_code, op_arg) | cmp_word(cmp_code, cmp_arg)) == cmp_arg)
        by (bit_vector)
        requires
            op_code < 16,
            op_arg < ARG_LIMIT,
            cmp_code < 16,
            cmp_arg < ARG_LIMIT,
    ;
}

/// The modify half of a wake-and-modify instruction: an operation on the
/// second cell's value, with one argument below [`ARG_LIMIT`].
///
/// Combine it with a [`Cmp`] through [`OpAndCmp::new`].
#[derive(Clone, Copy, Debug, PartialEq, Eq, Structural)]
pub struct Op {
    bits: u32,
}

impl View for Op {
    type V = u32;

    closed spec fn view(&self) -> u32 {
        self.bits
    }
}

impl Op {
    fn new(code: u32, arg: u32) -> (r: Self)
        requires
            arg < ARG_LIMIT,
        ensures
            r@ == op_word(code, arg),
    {
        Op { bits: (arg << 12u32) | (code << 28u32) }
    }

    /// Assign the argument to the cell's value: `value = arg`.
    pub fn assign(arg: u32) -> (r: Self)
        requires
            arg < ARG_LIMIT,
        ensures
            r@ == op_word(OP_ASSIGN, arg),
    {
        Self::new(OP_ASSIGN, arg)
    }

    /// Add the argument to the cell's value: `value += arg`.
    pub fn add(arg: u32) -> (r: Self)
        requires
            arg < ARG_LIMIT,
        ensures
            r@ == op_word(OP_ADD, arg),
    {
        Self::new(OP_ADD, arg)
    }

    /// Bitwise-or the cell's value with the argument: `value |= arg`.
    pub fn or(arg: u32) -> (r: Self)
        requires
            arg < ARG_LIMIT,
        ensures
            r@ == op_word(OP_OR, arg),
    {
        Self::new(OP_OR, arg)
    }

    /// Bitwise-and the cell's value with the complement of the argument:
    /// `value &= !arg`.
    pub fn and_not(arg: u32) -> (r: Self)
        requires
            arg < ARG_LIMIT,
        ensures
            r@ == op_word(OP_ANDN, arg),
    {
        Self::new(OP_ANDN, arg)
    }

    /// Xor the cell's value with the argument: `value ^= arg`.
    pub fn xor(arg: u32) -> (r: Self)
        requires
            arg < ARG_LIMIT,
        ensures
            r@ == op_word(OP_XOR, arg),
    {
        Self::new(OP_XOR, arg)
    }

    /// Assign `1 << bit` to the cell's value: `value = 1 << bit`.
    pub fn assign_bit(bit: u32) -> (r: Self)
        requires
            bit < ARG_LIMIT,
        ensures
            r@ == op_word(OP_ASSIGN_BIT, bit),
    {
        Self::new(OP_ASSIGN_BIT, bit)
    }

    /// Add `1 << bit` to the cell's value: `value += 1 << bit`.
    pub fn add_bit(bit: u32) -> (r: Self)
        requires
            bit < ARG_LIMIT,
        ensures
            r@ == op_word(OP_ADD_BIT, bit),
    {
        Self::new(OP_ADD_BIT, bit)
    }

    /// Set the `bit`th bit of the cell's value: `value |= 1 << bit`.
    pub fn set_bit(bit: u32) -> (r: Self)
        requires
            bit < ARG_LIMIT,
        ensures
            r@ == op_word(OP_SET_BIT, bit),
    {
        Self::new(OP_SET_BIT, bit)
    }

    /// Clear the `bit`th bit of the cell's value: `value &= !(1 << bit)`.
    pub fn clear_bit(bit: u32) -> (r: Self)
        requires
            bit < ARG_LIMIT,
        ensures
            r@ == op_word(OP_CLEAR_BIT, bit),
    {
        Self::new(OP_CLEAR_BIT, bit)
    }

    /// Toggle the `bit`th bit of the cell's value: `value ^= 1 << bit`.
    pub fn toggle_bit(bit: u32) -> (r: Self)
        requires
            bit < ARG_LIMIT,
        ensures
            r@ == op_word(OP_TOGGLE_BIT, bit),
    {
        Self::new(OP_TOGGLE_BIT, bit)
    }

    /// Build a modify operation from its op-code, refusing an oversized
    /// argument: nothing is constructed when the argument does not fit
    /// the 12-bit field.
    pub fn checked(code: u32, arg: u32) -> (r: Option<Op>)
        requires
            valid_op_code(code),
        ensures
            arg < ARG_LIMIT ==> (r matches Some(op) && op@ == op_word(code, arg)),
            arg >= ARG_LIMIT ==> r is None,
    {
        if arg < ARG_LIMIT {
            Some(Self::new(code, arg))
        } else {
            None
        }
    }
}

/// The comparison half of a wake-and-modify instruction: a condition on the
/// second cell's *old* value, observed atomically with the modify, with one
/// argument below [`ARG_LIMIT`].
///
/// Combine it with an [`Op`] through [`OpAndCmp::new`].
#[derive(Clone, Copy, Debug, PartialEq, Eq, Structural)]
pub struct Cmp {
    bits: u32,
}

impl View for Cmp {
    type V = u32;

    closed spec fn view(&self) -> u32 {
        self.bits
    }
}

impl Cmp {
    fn new(code: u32, arg: u32) -> (r: Self)
        requires
            arg < ARG_LIMIT,
        ensures
            r@ == cmp_word(code, arg),
    {
        Cmp { bits: arg | (code << 24u32) }
    }

    /// Fire if the old value equals the argument.
    pub fn eq(value: u32) -> (r: Self)
        requires
            value < ARG_LIMIT,
        ensures
            r@ == cmp_word(CMP_EQ, value),
    {
        Self::new(CMP_EQ, value)
    }

    /// Fire if the old value does not equal the argument.
    pub fn ne(value: u32) -> (r: Self)
        requires
            value < ARG_LIMIT,
        ensures
            r@ == cmp_word(CMP_NE, value),
    {
        Self::new(CMP_NE, value)
    }

    /// Fire if the old value is less than the argument.
    pub fn lt(value: u32) -> (r: Self)
        requires
            value < ARG_LIMIT,
        ensures
            r@ == cmp_word(CMP_LT, value),
    {
        Self::new(CMP_LT, value)
    }

    /// Fire if the old value is at most the argument.
    pub fn le(value: u32) -> (r: Self)
        requires
            value < ARG_LIMIT,
        ensures
            r@ == cmp_word(CMP_LE, value),
    {
        Self::new(CMP_LE, value)
    }

    /// Fire if the old value is greater than the argument.
    pub fn gt(value: u32) -> (r: Self)
        requires
            value < ARG_LIMIT,
        ensures
            r@ == cmp_word(CMP_GT, value),
    {
        Self::new(CMP_GT, value)
    }

    /// Fire if the old value is at least the argument.
    pub fn ge(value: u32) -> (r: Self)
        requires
            value < ARG_LIMIT,
        ensures
            r@ == cmp_word(CMP_GE, value),
    {
        Self::new(CMP_GE, value)
    }

    /// Build a comparison from its op-code, refusing an oversized
    /// argument: nothing is constructed when the argument does not fit
    /// the 12-bit field.
    pub fn checked(code: u32, arg: u32) -> (r: Option<Cmp>)
        requires
            valid_cmp_code(code),
        ensures
            arg < ARG_LIMIT ==> (r matches Some(cmp) && cmp@ == cmp_word(code, arg)),
            arg >= ARG_LIMIT ==> r is None,
    {
        if arg < ARG_LIMIT {
            Some(Self::new(code, arg))
        } else {
            None
        }
    }
}

/// A complete wake-and-modify instruction: one [`Op`] and one [`Cmp`] packed
/// into the 32-bit word the kernel call carries.  Immutable once built.
#[derive(Clone, Copy, Debug, PartialEq, Eq, Structural)]
pub struct OpAndCmp {
    bits: u32,
}

impl View for OpAndCmp {
    type V = u32;

    closed spec fn view(&self) -> u32 {
        self.bits
    }
}

impl OpAndCmp {
    /// Combine a modify operation and a comparison.  The two halves occupy
    /// disjoint bit ranges, so either order gives the same word.
    pub fn new(op: Op, cmp: Cmp) -> (r: Self)
        ensures
            r@ == (op@ | cmp@),
    {
        OpAndCmp { bits: op.bits | cmp.bits }
    }

    /// Adopt an already-packed word unchanged.
    pub fn from_raw_bits(bits: u32) -> (r: Self)
        ensures
            r@ == bits,
    {
        OpAndCmp { bits }
    }

    /// The packed word.
    pub fn raw_bits(self) -> (r: u32)
        ensures
            r == self@,
    {
        self.bits
    }

    /// The modify op-code of the packed word.
    pub fn op_code(self) -> (r: u32)
        ensures
            r == word_op_code(self@),
    {
        self.bits >> 28u32
    }

    /// The modify argument of the packed word.
    pub fn op_arg(self) -> (r: u32)
        ensures
            r == word_op_arg(self@),
    {
        (self.bits >> 12u32) & 0xfff
    }

    /// The comparison op-code of the packed word.
    pub fn cmp_code(self) -> (r: u32)
        ensures
            r == word_cmp_code(self@),
    {
        (self.bits >> 24u32) & 0xf
    }

    /// The comparison argument of the packed word.
    pub fn cmp_arg(self) -> (r: u32)
        ensures
            r == word_cmp_arg(self@),
    {
        self.bits & 0xfff
    }
}

} // verus!
