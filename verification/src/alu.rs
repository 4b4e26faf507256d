//! Arithmetic helpers shared by the instruction handlers.

use vstd::prelude::*;
use crate::flags::{bit_of, flag_bit, ConditionCodes};

verus! {

/// The eight operations between the accumulator and an 8-bit operand.
#[derive(Clone, Copy, Debug, PartialEq, Eq, Structural)]
pub enum AluOp {
    Add,
    Adc,
    Sub,
    Sbb,
    Ana,
    Xra,
    Ora,
    Compare,
}

/// The byte that an integer leaves when it is reduced to eight bits.
pub open spec fn wrap8(x: int) -> u8 {
    (x % 0x100) as u8
}

/// The word that an integer leaves when it is reduced to sixteen bits.
pub open spec fn wrap16(x: int) -> u16 {
    (x % 0x10000) as u16
}

/// Number of one bits in the binary expansion of `n`.
pub open spec fn popcount(n: nat) -> nat
    decreases n,
{
    if n == 0 {
        0
    } else {
        (n % 2) + popcount(n / 2)
    }
}

/// Even parity: the number of one bits is even.
pub open spec fn even_parity(n: nat) -> bool {
    popcount(n) % 2 == 0
}

/// Reports whether `bitstring` holds an even number of one bits.
pub fn parity(bitstring: u16) -> (even: bool)
    ensures
        even == even_parity(bitstring as nat),
{
    let mut rest: u16 = bitstring;
    let mut even: bool = true;
    while rest != 0
        invariant
            even_parity(bitstring as nat) == (even == even_parity(rest as nat)),
        decreases rest,
    {
        if rest % 2 == 1 {
            even = !even;
        }
        rest = rest / 2;
    }
    even
}

/// Adds two bytes without truncation, so that the carry out of bit 7 stays visible.
pub fn add(a: u8, b: u8) -> (sum: u16)
    ensures
        sum == a + b,
{
    (a as u16) + (b as u16)
}

/// Sum of the accumulator, an operand and a carry in, with the flags it leaves.
///
/// Carry is set when the sum does not fit in a byte, auxiliary carry when the sum
/// of the low nibbles does not fit in a nibble.
pub open spec fn add_result(a: u8, operand: u8, carry: bool, cc: ConditionCodes) -> (
    u8,
    ConditionCodes,
) {
    let sum = a + operand + flag_bit(carry);
    let result = wrap8(sum);
    (
        result,
        ConditionCodes {
            cy: sum > 0xff,
            ac: a % 16 + operand % 16 + flag_bit(carry) > 0xf,
            ..cc.with_zsp(result)
        },
    )
}

/// Difference of the accumulator, an operand and a borrow in, with the flags it
/// leaves.
///
/// Carry is set when a borrow occurred, that is when the accumulator is smaller
/// than what is taken from it. The processor subtracts by adding the two's
/// complement, so auxiliary carry is set when the low nibble needed no borrow.
pub open spec fn sub_result(a: u8, operand: u8, borrow: bool, cc: ConditionCodes) -> (
    u8,
    ConditionCodes,
) {
    let difference = a - operand - flag_bit(borrow);
    let result = wrap8(difference);
    (
        result,
        ConditionCodes {
            cy: difference < 0,
            ac: a % 16 >= operand % 16 + flag_bit(borrow),
            ..cc.with_zsp(result)
        },
    )
}

/// Flags after a logical operation: carry is cleared, auxiliary carry is as given.
pub open spec fn logic_flags(result: u8, ac: bool, cc: ConditionCodes) -> ConditionCodes {
    ConditionCodes { cy: false, ac, ..cc.with_zsp(result) }
}

/// The new accumulator and flags after `op` on the accumulator `a` and `operand`.
///
/// A comparison leaves the flags of a subtraction and the accumulator as it was.
/// AND sets auxiliary carry to the OR of bit 3 of its two operands; OR and XOR
/// clear it.
pub open spec fn alu_spec(op: AluOp, a: u8, operand: u8, cc: ConditionCodes) -> (
    u8,
    ConditionCodes,
) {
    match op {
        AluOp::Add => add_result(a, operand, false, cc),
        AluOp::Adc => add_result(a, operand, cc.cy, cc),
        AluOp::Sub => sub_result(a, operand, false, cc),
        AluOp::Sbb => sub_result(a, operand, cc.cy, cc),
        AluOp::Ana => (
            a & operand,
            logic_flags(a & operand, bit_of(a, 3) || bit_of(operand, 3), cc),
        ),
        AluOp::Xra => (a ^ operand, logic_flags(a ^ operand, false, cc)),
        AluOp::Ora => (a | operand, logic_flags(a | operand, false, cc)),
        AluOp::Compare => (a, sub_result(a, operand, false, cc).1),
    }
}

/// Increment of a byte: zero, sign, parity and auxiliary carry follow the result,
/// carry is kept.
pub open spec fn inr_result(value: u8, cc: ConditionCodes) -> (u8, ConditionCodes) {
    let result = wrap8(value + 1);
    (result, ConditionCodes { ac: value % 16 == 15, ..cc.with_zsp(result) })
}

/// Decrement of a byte: zero, sign, parity and auxiliary carry follow the result,
/// carry is kept.
pub open spec fn dcr_result(value: u8, cc: ConditionCodes) -> (u8, ConditionCodes) {
    let result = wrap8(value - 1);
    (result, ConditionCodes { ac: value % 16 != 0, ..cc.with_zsp(result) })
}

/// Decimal adjustment of the accumulator after an addition of two packed
/// binary-coded decimal numbers.
///
/// 6 is added to the low digit when it exceeds 9 or auxiliary carry is set, and 6
/// to the high digit when it exceeds 9 (counting the carry that the first step
/// sends into it) or carry is set. Carry stays set or becomes set with the second
/// correction; auxiliary carry is the carry out of the low digit.
pub open spec fn daa_result(a: u8, cc: ConditionCodes) -> (u8, ConditionCodes) {
    let low = a % 16;
    let high = a / 16;
    let low_fix: int = if low > 9 || cc.ac {
        0x06
    } else {
        0
    };
    let high_fixed = high > 9 || cc.cy || (high >= 9 && low > 9);
    let high_fix: int = if high_fixed {
        0x60
    } else {
        0
    };
    let result = wrap8(a + low_fix + high_fix);
    (result, ConditionCodes { cy: high_fixed, ac: low + low_fix > 0xf, ..cc.with_zsp(result) })
}

/// Rotate left: bit 7 moves to bit 0 and to carry.
pub open spec fn rlc_result(a: u8) -> (u8, bool) {
    (wrap8(a * 2 + a / 128), a >= 128)
}

/// Rotate right: bit 0 moves to bit 7 and to carry.
pub open spec fn rrc_result(a: u8) -> (u8, bool) {
    (wrap8(a / 2 + (a % 2) * 128), a % 2 == 1)
}

/// Rotate left through carry: carry moves to bit 0, bit 7 to carry.
pub open spec fn ral_result(a: u8, cy: bool) -> (u8, bool) {
    (wrap8(a * 2 + flag_bit(cy)), a >= 128)
}

/// Rotate right through carry: carry moves to bit 7, bit 0 to carry.
pub open spec fn rar_result(a: u8, cy: bool) -> (u8, bool) {
    (wrap8(a / 2 + flag_bit(cy) * 128), a % 2 == 1)
}

} // verus!
