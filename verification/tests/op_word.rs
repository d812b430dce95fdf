//! The packed operation-and-comparison word: exact bit layouts and
//! round trips through the field readers.

use linux_futex::op::{
    Cmp, Op, OpAndCmp, ARG_LIMIT, CMP_EQ, CMP_GE, OP_ADD, OP_TOGGLE_BIT,
};

fn word(op: Op, cmp: Cmp) -> OpAndCmp {
    OpAndCmp::new(op, cmp)
}

#[test]
fn add_eq_exact_bits() {
    // op-code 1 in bits 28..32, argument 1 in bits 12..24, comparison 0
    // with argument 0 in the low half.
    let w = word(Op::add(1), Cmp::eq(0));
    assert_eq!(w.raw_bits(), 0x1000_1000);
}

#[test]
fn assign_eq_exact_bits() {
    let w = word(Op::assign(1), Cmp::eq(0));
    assert_eq!(w.raw_bits(), 0x0000_1000);
}

#[test]
fn xor_ge_exact_bits() {
    let w = word(Op::xor(0xabc), Cmp::ge(0xdef));
    assert_eq!(w.raw_bits(), (4 << 28) | (0xabc << 12) | (5 << 24) | 0xdef);
}

#[test]
fn round_trip_all_op_codes() {
    let ops = [
        (Op::assign(5), 0u32),
        (Op::add(5), 1),
        (Op::or(5), 2),
        (Op::and_not(5), 3),
        (Op::xor(5), 4),
        (Op::assign_bit(5), 8),
        (Op::add_bit(5), 9),
        (Op::set_bit(5), 10),
        (Op::clear_bit(5), 11),
        (Op::toggle_bit(5), 12),
    ];
    for (op, code) in ops {
        let w = word(op, Cmp::eq(9));
        assert_eq!(w.op_code(), code);
        assert_eq!(w.op_arg(), 5);
        assert_eq!(w.cmp_code(), 0);
        assert_eq!(w.cmp_arg(), 9);
    }
}

#[test]
fn round_trip_all_cmp_codes() {
    let cmps = [
        (Cmp::eq(7), 0u32),
        (Cmp::ne(7), 1),
        (Cmp::lt(7), 2),
        (Cmp::le(7), 3),
        (Cmp::gt(7), 4),
        (Cmp::ge(7), 5),
    ];
    for (cmp, code) in cmps {
        let w = word(Op::or(3), cmp);
        assert_eq!(w.op_code(), 2);
        assert_eq!(w.op_arg(), 3);
        assert_eq!(w.cmp_code(), code);
        assert_eq!(w.cmp_arg(), 7);
    }
}

#[test]
fn round_trip_argument_extremes() {
    for arg in [0u32, 1, 2047, 4095] {
        let w = word(Op::add(arg), Cmp::lt(4095 - arg));
        assert_eq!(w.op_code(), 1);
        assert_eq!(w.op_arg(), arg);
        assert_eq!(w.cmp_code(), 2);
        assert_eq!(w.cmp_arg(), 4095 - arg);
    }
}

#[test]
fn oversized_arguments_construct_nothing() {
    // The 12-bit argument fields end at 4095: 4096 and up are refused.
    assert!(Op::checked(OP_ADD, ARG_LIMIT).is_none());
    assert!(Op::checked(OP_TOGGLE_BIT, 100_000).is_none());
    assert!(Cmp::checked(CMP_EQ, ARG_LIMIT).is_none());
    assert!(Cmp::checked(CMP_GE, u32::MAX).is_none());
}

#[test]
fn largest_argument_still_constructs() {
    let op = Op::checked(OP_ADD, ARG_LIMIT - 1).unwrap();
    let cmp = Cmp::checked(CMP_EQ, ARG_LIMIT - 1).unwrap();
    let w = OpAndCmp::new(op, cmp);
    assert_eq!(w.op_code(), OP_ADD);
    assert_eq!(w.op_arg(), 4095);
    assert_eq!(w.cmp_code(), CMP_EQ);
    assert_eq!(w.cmp_arg(), 4095);
    // The checked and the named constructors build the same word.
    assert_eq!(op, Op::add(4095));
    assert_eq!(cmp, Cmp::eq(4095));
}

#[test]
fn raw_bits_round_trip() {
    let w = OpAndCmp::from_raw_bits(0xdead_beef);
    assert_eq!(w.raw_bits(), 0xdead_beef);
}

#[test]
fn combination_is_order_independent_in_effect() {
    // The two halves live in disjoint bit ranges: the packed word is the
    // bitwise-or of the halves, so equal halves give equal words however
    // they are produced.
    let a = word(Op::set_bit(31), Cmp::ne(0));
    let b = word(Op::set_bit(31), Cmp::ne(0));
    assert_eq!(a.raw_bits(), b.raw_bits());
    assert_eq!(a, b);
}
