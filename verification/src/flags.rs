//! The five condition bits and the flag byte of the processor status word.

use vstd::prelude::*;
use crate::alu::{even_parity, parity};

verus! {

/// The condition bits set by arithmetic and logical instructions.
#[derive(Clone, Copy, Debug, PartialEq, Eq, Structural)]
pub struct ConditionCodes {
    /// Zero: the result byte is 0.
    pub z: bool,
    /// Sign: bit 7 of the result byte is set.
    pub s: bool,
    /// Parity: the result byte holds an even number of one bits.
    pub p: bool,
    /// Carry: a carry out of bit 7, or a borrow into it.
    pub cy: bool,
    /// Auxiliary carry: a carry out of bit 3 into bit 4.
    pub ac: bool,
}

/// The branch conditions of the conditional jumps, calls and returns.
#[derive(Clone, Copy, Debug, PartialEq, Eq, Structural)]
pub enum Condition {
    /// Zero flag clear.
    NotZero,
    /// Zero flag set.
    Zero,
    /// Carry flag clear.
    NoCarry,
    /// Carry flag set.
    Carry,
    /// Parity flag clear (odd parity).
    ParityOdd,
    /// Parity flag set (even parity).
    ParityEven,
    /// Sign flag clear.
    Plus,
    /// Sign flag set.
    Minus,
}

/// Zero flag of a result byte.
pub open spec fn zero_of(result: u8) -> bool {
    result == 0
}

/// Sign flag of a result byte: its bit 7.
pub open spec fn sign_of(result: u8) -> bool {
    result >= 128
}

/// Parity flag of a result byte.
pub open spec fn parity_of(result: u8) -> bool {
    even_parity(result as nat)
}

/// Bit `n` of `byte`.
pub open spec fn bit_of(byte: u8, n: nat) -> bool
    recommends
        n < 8,
{
    (byte as int / pow2_of(n)) % 2 == 1
}

/// Two to the power `n`, for the eight bit positions of a byte.
pub open spec fn pow2_of(n: nat) -> int {
    if n == 0 {
        1
    } else if n == 1 {
        2
    } else if n == 2 {
        4
    } else if n == 3 {
        8
    } else if n == 4 {
        16
    } else if n == 5 {
        32
    } else if n == 6 {
        64
    } else {
        128
    }
}

/// 1 for a set flag, 0 for a clear one.
pub open spec fn flag_bit(flag: bool) -> int {
    if flag {
        1
    } else {
        0
    }
}

/// The flag byte: bit 0 carry, bit 1 always set, bit 2 parity, bit 3 clear, bit 4
/// auxiliary carry, bit 5 clear, bit 6 zero, bit 7 sign.
pub open spec fn flag_byte(cc: ConditionCodes) -> u8 {
    (flag_bit(cc.cy) + 2 + 4 * flag_bit(cc.p) + 16 * flag_bit(cc.ac) + 64 * flag_bit(cc.z) + 128
        * flag_bit(cc.s)) as u8
}

/// The condition bits held in a flag byte. Bits 1, 3 and 5 are ignored.
pub open spec fn flags_of_byte(byte: u8) -> ConditionCodes {
    ConditionCodes {
        cy: bit_of(byte, 0),
        p: bit_of(byte, 2),
        ac: bit_of(byte, 4),
        z: bit_of(byte, 6),
        s: bit_of(byte, 7),
    }
}

impl ConditionCodes {
    /// These flags with zero, sign and parity taken from `result`; carry and
    /// auxiliary carry are kept.
    pub open spec fn with_zsp(self, result: u8) -> ConditionCodes {
        ConditionCodes { z: zero_of(result), s: sign_of(result), p: parity_of(result), ..self }
    }

    /// Whether the branch condition `condition` holds of these flags.
    pub open spec fn holds(self, condition: Condition) -> bool {
        match condition {
            Condition::NotZero => !self.z,
            Condition::Zero => self.z,
            Condition::NoCarry => !self.cy,
            Condition::Carry => self.cy,
            Condition::ParityOdd => !self.p,
            Condition::ParityEven => self.p,
            Condition::Plus => !self.s,
            Condition::Minus => self.s,
        }
    }

    /// All five flags clear.
    pub fn new() -> (cc: ConditionCodes)
        ensures
            cc == (ConditionCodes { z: false, s: false, p: false, cy: false, ac: false }),
    {
        ConditionCodes { z: false, s: false, p: false, cy: false, ac: false }
    }

    /// Evaluates a branch condition.
    pub fn test(&self, condition: Condition) -> (taken: bool)
        ensures
            taken == self.holds(condition),
    {
        match condition {
            Condition::NotZero => !self.z,
            Condition::Zero => self.z,
            Condition::NoCarry => !self.cy,
            Condition::Carry => self.cy,
            Condition::ParityOdd => !self.p,
            Condition::ParityEven => self.p,
            Condition::Plus => !self.s,
            Condition::Minus => self.s,
        }
    }

    /// Sets zero, sign and parity from a result byte and keeps the carries.
    pub fn set_zsp(&mut self, result: u8)
        ensures
            *final(self) == old(self).with_zsp(result),
    {
        self.z = result == 0;
        self.s = result >= 0x80;
        self.p = parity(result as u16);
    }

    /// Packs the flags into the flag byte of the processor status word.
    pub fn to_byte(&self) -> (byte: u8)
        ensures
            byte == flag_byte(*self),
    {
        let mut byte: u8 = 0x02;
        if self.cy {
            byte = byte + 0x01;
        }
        if self.p {
            byte = byte + 0x04;
        }
        if self.ac {
            byte = byte + 0x10;
        }
        if self.z {
            byte = byte + 0x40;
        }
        if self.s {
            byte = byte + 0x80;
        }
        byte
    }

    /// Unpacks a flag byte of the processor status word.
    pub fn from_byte(byte: u8) -> (cc: ConditionCodes)
        ensures
            cc == flags_of_byte(byte),
    {
        ConditionCodes {
            cy: byte % 2 == 1,
            p: (byte / 4) % 2 == 1,
            ac: (byte / 16) % 2 == 1,
            z: (byte / 64) % 2 == 1,
            s: (byte / 128) % 2 == 1,
        }
    }
}

/// Unpacking a packed flag byte gives the flags back.
pub proof fn lemma_flag_byte_roundtrip(cc: ConditionCodes)
    ensures
        flags_of_byte(flag_byte(cc)) == cc,
{
}

} // verus!
