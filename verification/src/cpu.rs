//! The interpreter: instruction handlers, the dispatcher and the execution loop.
//!
//! A handler changes registers, flags, memory and ports and says how the program
//! counter is to move; it never writes the program counter itself. The dispatcher
//! then either advances the program counter past the instruction or sets it to
//! the address that the handler returned, never both.

use vstd::prelude::*;
use crate::alu::{
    add_result, logic_flags, parity, ral_result, rar_result, rlc_result, rrc_result, sub_result,
    wrap16, AluOp,
};
use crate::flags::ConditionCodes;
use crate::instruction::{
    decode, Arithmetic, Branch, Control, IndexPair, Instruction, Logical, Reg, RegPair, StackOp,
    StackPair, Transfer,
};
use crate::machine::{
    accumulate, arithmetic_spec, branch_spec, control_spec, execute_spec, guarded, logical_spec,
    run_spec, stack_spec, step_spec, transfer_spec, Fault, Machine, Status,
};
use crate::memory::{
    hi_byte, high_byte, lo_byte, low_byte, make_word, with_word_at, word_at, Memory,
};
use crate::state::{initial, State8080};

verus! {

/// How the program counter moves after an instruction.
#[derive(Clone, Copy, Debug, PartialEq, Eq, Structural)]
pub enum Flow {
    /// On to the instruction that follows in memory.
    Next,
    /// To the given address.
    Jump(u16),
}

/// Where the program counter lands: at `next` unless the handler jumped.
pub open spec fn landing(flow: Flow, next: u16) -> u16 {
    match flow {
        Flow::Next => next,
        Flow::Jump(target) => target,
    }
}

/// What a handler owes: where `expected` is a state it succeeds and leaves that
/// state; where `expected` is a fault it reports that fault and leaves `before`.
pub open spec fn fulfils<T>(
    before: Machine,
    expected: Result<Machine, Fault>,
    after: Machine,
    r: Result<T, Fault>,
) -> bool {
    match expected {
        Ok(then) => r is Ok && after == then,
        Err(fault) => r == Err::<T, Fault>(fault) && after == before,
    }
}

impl State8080 {
    /// Reads an 8-bit operand: a register, or the memory byte at HL.
    pub fn read_reg(&self, r: Reg) -> (result: Result<u8, Fault>)
        ensures
            self@.reg_ok(r) ==> result == Ok::<u8, Fault>(self@.reg(r)),
            !self@.reg_ok(r) ==> result == Err::<u8, Fault>(self@.fault()),
    {
        match r {
            Reg::B => Ok(self.b),
            Reg::C => Ok(self.c),
            Reg::D => Ok(self.d),
            Reg::E => Ok(self.e),
            Reg::H => Ok(self.h),
            Reg::L => Ok(self.l),
            Reg::M => self.get_mem(self.get_hl()),
            Reg::A => Ok(self.a),
        }
    }

    /// Writes an 8-bit operand: a register, or the memory byte at HL.
    pub fn write_reg(&mut self, r: Reg, value: u8) -> (result: Result<(), Fault>)
        ensures
            fulfils(
                old(self)@,
                guarded(old(self)@, old(self)@.reg_ok(r), old(self)@.with_reg(r, value)),
                final(self)@,
                result,
            ),
    {
        match r {
            Reg::B => {
                self.b = value;
                Ok(())
            },
            Reg::C => {
                self.c = value;
                Ok(())
            },
            Reg::D => {
                self.d = value;
                Ok(())
            },
            Reg::E => {
                self.e = value;
                Ok(())
            },
            Reg::H => {
                self.h = value;
                Ok(())
            },
            Reg::L => {
                self.l = value;
                Ok(())
            },
            Reg::M => {
                let hl = self.get_hl();
                self.set_mem(hl, value)
            },
            Reg::A => {
                self.a = value;
                Ok(())
            },
        }
    }

    /// Reads a 16-bit operand.
    pub fn read_pair(&self, rp: RegPair) -> (value: u16)
        ensures
            value == self@.pair(rp),
    {
        match rp {
            RegPair::BC => self.get_bc(),
            RegPair::DE => self.get_de(),
            RegPair::HL => self.get_hl(),
            RegPair::SP => self.sp,
        }
    }

    /// Writes a 16-bit operand.
    pub fn write_pair(&mut self, rp: RegPair, value: u16)
        ensures
            final(self)@ == old(self)@.with_pair(rp, value),
    {
        match rp {
            RegPair::BC => self.set_bc(value),
            RegPair::DE => self.set_de(value),
            RegPair::HL => self.set_hl(value),
            RegPair::SP => {
                self.sp = value;
            },
        }
    }

    /// Pushes a word: high byte to SP-1, low byte to SP-2, then SP drops by 2.
    /// Unless both bytes lie inside the image nothing is changed.
    pub fn push_word(&mut self, value: u16) -> (result: Result<(), Fault>)
        ensures
            fulfils(
                old(self)@,
                guarded(old(self)@, old(self)@.can_push(), old(self)@.pushed(value)),
                final(self)@,
                result,
            ),
    {
        let high_addr: u16 = self.sp.wrapping_sub(1);
        let low_addr: u16 = self.sp.wrapping_sub(2);
        if self.memory.read_byte(high_addr).is_err() || self.memory.read_byte(low_addr).is_err() {
            return Err(self.fault());
        }
        let _ = self.memory.write_byte(high_addr, high_byte(value));
        let _ = self.memory.write_byte(low_addr, low_byte(value));
        self.sp = low_addr;
        Ok(())
    }

    /// Pops a word: low byte from SP, high byte from SP+1, then SP rises by 2.
    pub fn pop_word(&mut self) -> (result: Result<u16, Fault>)
        ensures
            fulfils(
                old(self)@,
                guarded(old(self)@, old(self)@.can_pop(), old(self)@.popped()),
                final(self)@,
                result,
            ),
            old(self)@.can_pop() ==> result == Ok::<u16, Fault>(old(self)@.top()),
    {
        let high_addr: u16 = self.sp.wrapping_add(1);
        let low: u8 = match self.memory.read_byte(self.sp) {
            Ok(byte) => byte,
            Err(_) => {
                return Err(self.fault());
            },
        };
        let high: u8 = match self.memory.read_byte(high_addr) {
            Ok(byte) => byte,
            Err(_) => {
                return Err(self.fault());
            },
        };
        self.sp = self.sp.wrapping_add(2);
        Ok(make_word(high, low))
    }
}

// Data transfer.
impl State8080 {
    /// MOV: copies the source operand to the destination operand.
    pub fn mov(&mut self, dst: Reg, src: Reg) -> (result: Result<(), Fault>)
        ensures
            fulfils(
                old(self)@,
                guarded(
                    old(self)@,
                    old(self)@.reg_ok(dst) && old(self)@.reg_ok(src),
                    old(self)@.with_reg(dst, old(self)@.reg(src)),
                ),
                final(self)@,
                result,
            ),
    {
        match self.read_reg(src) {
            Ok(value) => self.write_reg(dst, value),
            Err(fault) => Err(fault),
        }
    }

    /// LDA: loads the accumulator from memory at `addr`.
    pub fn lda(&mut self, addr: u16) -> (result: Result<(), Fault>)
        ensures
            fulfils(
                old(self)@,
                guarded(
                    old(self)@,
                    old(self)@.mapped(addr as int),
                    Machine { a: old(self)@.memory[addr as int], ..old(self)@ },
                ),
                final(self)@,
                result,
            ),
    {
        match self.get_mem(addr) {
            Ok(value) => {
                self.a = value;
                Ok(())
            },
            Err(fault) => Err(fault),
        }
    }

    /// STA: stores the accumulator in memory at `addr`.
    pub fn sta(&mut self, addr: u16) -> (result: Result<(), Fault>)
        ensures
            fulfils(
                old(self)@,
                guarded(
                    old(self)@,
                    old(self)@.mapped(addr as int),
                    old(self)@.with_byte(addr as int, old(self)@.a),
                ),
                final(self)@,
                result,
            ),
    {
        let a = self.a;
        self.set_mem(addr, a)
    }

    /// The address held in the pair that LDAX or STAX names.
    pub fn read_index_pair(&self, pair: IndexPair) -> (addr: u16)
        ensures
            addr == self@.index_pair(pair),
    {
        match pair {
            IndexPair::BC => self.get_bc(),
            IndexPair::DE => self.get_de(),
        }
    }

    /// LHLD: loads L from memory at `addr` and H from `addr + 1`.
    pub fn lhld(&mut self, addr: u16) -> (result: Result<(), Fault>)
        ensures
            fulfils(
                old(self)@,
                guarded(
                    old(self)@,
                    old(self)@.mapped(addr + 1),
                    old(self)@.with_hl(word_at(old(self)@.memory, addr as int)),
                ),
                final(self)@,
                result,
            ),
    {
        match self.memory.read_word(addr) {
            Ok(value) => {
                self.set_hl(value);
                Ok(())
            },
            Err(_) => Err(self.fault()),
        }
    }

    /// SHLD: stores L in memory at `addr` and H at `addr + 1`.
    pub fn shld(&mut self, addr: u16) -> (result: Result<(), Fault>)
        ensures
            fulfils(
                old(self)@,
                guarded(
                    old(self)@,
                    old(self)@.mapped(addr + 1),
                    Machine {
                        memory: with_word_at(old(self)@.memory, addr as int, old(self)@.hl()),
                        ..old(self)@
                    },
                ),
                final(self)@,
                result,
            ),
    {
        let hl = self.get_hl();
        match self.memory.write_word(addr, hl) {
            Ok(()) => Ok(()),
            Err(_) => Err(self.fault()),
        }
    }

    /// XCHG: swaps H:L with D:E.
    pub fn xchg(&mut self)
        ensures
            final(self)@ == (Machine {
                d: old(self).h,
                e: old(self).l,
                h: old(self).d,
                l: old(self).e,
                ..old(self)@
            }),
    {
        let d = self.d;
        let e = self.e;
        self.d = self.h;
        self.e = self.l;
        self.h = d;
        self.l = e;
    }
}

// Arithmetic.
impl State8080 {
    /// Sets zero, sign, carry and parity from the untruncated result of an 8-bit
    /// operation and stores its low byte in the accumulator unless `keep` is set.
    fn finish(&mut self, result: u16, keep: bool)
        ensures
            final(self)@ == (Machine {
                a: if keep {
                    old(self).a
                } else {
                    (result % 256) as u8
                },
                cc: ConditionCodes {
                    cy: result > 0xff,
                    ..old(self).cc.with_zsp((result % 256) as u8)
                },
                ..old(self)@
            }),
    {
        self.set_zero_flag(result);
        self.set_sign_flag(result);
        self.set_carry_flag(result);
        self.cc.p = parity(result % 256);
        if !keep {
            self.a = low_byte(result);
        }
    }

    /// Adds `operand` and a carry in to the accumulator.
    fn add_with(&mut self, operand: u8, carry: bool)
        ensures
            final(self)@ == (Machine {
                a: add_result(old(self).a, operand, carry, old(self).cc).0,
                cc: add_result(old(self).a, operand, carry, old(self).cc).1,
                ..old(self)@
            }),
    {
        let a: u8 = self.a;
        let carry_in: u8 = if carry {
            1
        } else {
            0
        };
        let sum: u16 = crate::alu::add(a, operand) + carry_in as u16;
        self.finish(sum, false);
        self.cc.ac = (a % 16) + (operand % 16) + carry_in > 0xf;
    }

    /// Subtracts `operand` and a borrow in from the accumulator. With `keep` set
    /// only the flags change.
    fn subtract_with(&mut self, operand: u8, borrow: bool, keep: bool)
        ensures
            final(self)@ == (Machine {
                a: if keep {
                    old(self).a
                } else {
                    sub_result(old(self).a, operand, borrow, old(self).cc).0
                },
                cc: sub_result(old(self).a, operand, borrow, old(self).cc).1,
                ..old(self)@
            }),
    {
        let a: u8 = self.a;
        let borrow_in: u8 = if borrow {
            1
        } else {
            0
        };
        // In 16 bits a borrow shows as a result above 0xff.
        let difference: u16 = (a as u16).wrapping_sub(operand as u16 + borrow_in as u16);
        assert(difference % 256 == (a - operand - borrow_in) % 256);
        self.finish(difference, keep);
        self.cc.ac = a % 16 >= operand % 16 + borrow_in;
    }

    /// Stores the result of a logical operation: carry is cleared and auxiliary
    /// carry is as given.
    fn logic_with(&mut self, value: u8, ac: bool)
        ensures
            final(self)@ == (Machine {
                a: value,
                cc: logic_flags(value, ac, old(self).cc),
                ..old(self)@
            }),
    {
        self.finish(value as u16, false);
        self.cc.ac = ac;
    }

    /// ADD, ADC, SUB, SBB, ANA, XRA, ORA and CMP: combines the accumulator with
    /// `operand` and sets all five flags.
    pub fn alu(&mut self, op: AluOp, operand: u8)
        ensures
            final(self)@ == old(self)@.with_alu(op, operand),
    {
        let a: u8 = self.a;
        let carry: bool = self.cc.cy;
        match op {
            AluOp::Add => self.add_with(operand, false),
            AluOp::Adc => self.add_with(operand, carry),
            AluOp::Sub => self.subtract_with(operand, false, false),
            AluOp::Sbb => self.subtract_with(operand, carry, false),
            AluOp::Ana => self.logic_with(a & operand, (a / 8) % 2 == 1 || (operand / 8) % 2 == 1),
            AluOp::Xra => self.logic_with(a ^ operand, false),
            AluOp::Ora => self.logic_with(a | operand, false),
            AluOp::Compare => self.subtract_with(operand, false, true),
        }
    }

    /// INR: adds 1 to an 8-bit operand. Carry is not touched.
    pub fn inr(&mut self, r: Reg) -> (result: Result<(), Fault>)
        ensures
            fulfils(
                old(self)@,
                guarded(old(self)@, old(self)@.reg_ok(r), old(self)@.incremented(r)),
                final(self)@,
                result,
            ),
    {
        match self.read_reg(r) {
            Ok(value) => {
                let incremented: u8 = value.wrapping_add(1);
                let _ = self.write_reg(r, incremented);
                self.cc.ac = value % 16 == 15;
                self.cc.set_zsp(incremented);
                Ok(())
            },
            Err(fault) => Err(fault),
        }
    }

    /// DCR: subtracts 1 from an 8-bit operand. Carry is not touched.
    pub fn dcr(&mut self, r: Reg) -> (result: Result<(), Fault>)
        ensures
            fulfils(
                old(self)@,
                guarded(old(self)@, old(self)@.reg_ok(r), old(self)@.decremented(r)),
                final(self)@,
                result,
            ),
    {
        match self.read_reg(r) {
            Ok(value) => {
                let decremented: u8 = value.wrapping_sub(1);
                let _ = self.write_reg(r, decremented);
                self.cc.ac = value % 16 != 0;
                self.cc.set_zsp(decremented);
                Ok(())
            },
            Err(fault) => Err(fault),
        }
    }

    /// INX: adds 1 to a 16-bit operand. No flag is touched.
    pub fn inx(&mut self, rp: RegPair)
        ensures
            final(self)@ == old(self)@.with_pair(rp, wrap16(old(self)@.pair(rp) + 1)),
    {
        let value = self.read_pair(rp);
        self.write_pair(rp, value.wrapping_add(1));
    }

    /// DCX: subtracts 1 from a 16-bit operand. No flag is touched.
    pub fn dcx(&mut self, rp: RegPair)
        ensures
            final(self)@ == old(self)@.with_pair(rp, wrap16(old(self)@.pair(rp) - 1)),
    {
        let value = self.read_pair(rp);
        self.write_pair(rp, value.wrapping_sub(1));
    }

    /// DAD: adds a 16-bit operand to H:L. Only carry is touched: it is the carry
    /// out of bit 15.
    pub fn dad(&mut self, rp: RegPair)
        ensures
            final(self)@ == old(self)@.double_added(rp),
    {
        let sum: u32 = self.get_hl() as u32 + self.read_pair(rp) as u32;
        self.set_hl((sum % 0x10000) as u16);
        self.set_carry_flag_double(sum);
    }

    /// DAA: adjusts the accumulator to two binary-coded decimal digits.
    pub fn daa(&mut self)
        ensures
            final(self)@ == old(self)@.decimal_adjusted(),
    {
        let a: u8 = self.a;
        let low: u8 = a % 16;
        let high: u8 = a / 16;
        let low_fix: u8 = if low > 9 || self.cc.ac {
            0x06
        } else {
            0
        };
        let high_fixed: bool = high > 9 || self.cc.cy || (high >= 9 && low > 9);
        let high_fix: u8 = if high_fixed {
            0x60
        } else {
            0
        };
        let sum: u16 = crate::alu::add(a, low_fix + high_fix);
        self.finish(sum, false);
        self.cc.ac = low + low_fix > 0xf;
        self.cc.cy = high_fixed;
    }
}

// Logical.
impl State8080 {
    /// CMA: complements the accumulator. No flag is touched.
    pub fn cma(&mut self)
        ensures
            final(self)@ == (Machine { a: (255 - old(self).a) as u8, ..old(self)@ }),
    {
        let a: u8 = self.a;
        let complement: u8 = !a;
        assert(complement == 255 - a) by (bit_vector)
            requires
                complement == !a,
        ;
        self.a = complement;
    }

    /// RLC: rotates the accumulator left; bit 7 goes to bit 0 and to carry.
    pub fn rlc(&mut self)
        ensures
            final(self)@ == old(self)@.with_rotation(rlc_result(old(self).a)),
    {
        let a: u8 = self.a;
        let rotated: u8 = (a << 1) | (a >> 7);
        assert(rotated == (a * 2 + a / 128) % 0x100) by (bit_vector)
            requires
                rotated == (a << 1) | (a >> 7),
        ;
        self.cc.cy = a >= 0x80;
        self.a = rotated;
    }

    /// RRC: rotates the accumulator right; bit 0 goes to bit 7 and to carry.
    pub fn rrc(&mut self)
        ensures
            final(self)@ == old(self)@.with_rotation(rrc_result(old(self).a)),
    {
        let a: u8 = self.a;
        let rotated: u8 = ((a & 1) << 7) | (a >> 1);
        assert(rotated == (a / 2 + (a % 2) * 128) % 0x100) by (bit_vector)
            requires
                rotated == ((a & 1) << 7) | (a >> 1),
        ;
        self.cc.cy = a % 2 == 1;
        self.a = rotated;
    }

    /// RAL: rotates the accumulator left through carry.
    pub fn ral(&mut self)
        ensures
            final(self)@ == old(self)@.with_rotation(ral_result(old(self).a, old(self).cc.cy)),
    {
        let a: u8 = self.a;
        let carry: u8 = if self.cc.cy {
            1
        } else {
            0
        };
        let rotated: u8 = (a << 1) | carry;
        assert(rotated == (a * 2 + carry) % 0x100) by (bit_vector)
            requires
                rotated == (a << 1) | carry,
                carry <= 1,
        ;
        self.cc.cy = a >= 0x80;
        self.a = rotated;
    }

    /// RAR: rotates the accumulator right through carry.
    pub fn rar(&mut self)
        ensures
            final(self)@ == old(self)@.with_rotation(rar_result(old(self).a, old(self).cc.cy)),
    {
        let a: u8 = self.a;
        let carry: u8 = if self.cc.cy {
            1
        } else {
            0
        };
        let rotated: u8 = (carry << 7) | (a >> 1);
        assert(rotated == (a / 2 + carry * 128) % 0x100) by (bit_vector)
            requires
                rotated == (carry << 7) | (a >> 1),
                carry <= 1,
        ;
        self.cc.cy = a % 2 == 1;
        self.a = rotated;
    }
}

// Stack.
impl State8080 {
    /// The word that PUSH stores for `pair`.
    pub fn read_stack_pair(&self, pair: StackPair) -> (value: u16)
        ensures
            value == self@.stack_pair(pair),
    {
        match pair {
            StackPair::BC => self.get_bc(),
            StackPair::DE => self.get_de(),
            StackPair::HL => self.get_hl(),
            StackPair::PSW => make_word(self.a, self.cc.to_byte()),
        }
    }

    /// Loads `pair` with a word that POP took from the stack.
    pub fn write_stack_pair(&mut self, pair: StackPair, value: u16)
        ensures
            final(self)@ == old(self)@.with_stack_pair(pair, value),
    {
        match pair {
            StackPair::BC => self.set_bc(value),
            StackPair::DE => self.set_de(value),
            StackPair::HL => self.set_hl(value),
            StackPair::PSW => {
                self.a = high_byte(value);
                self.cc = ConditionCodes::from_byte(low_byte(value));
            },
        }
    }

    /// PUSH: stores a register pair, or the accumulator and the flag byte, on the
    /// stack. No flag is touched.
    pub fn push(&mut self, pair: StackPair) -> (result: Result<(), Fault>)
        ensures
            fulfils(
                old(self)@,
                guarded(
                    old(self)@,
                    old(self)@.can_push(),
                    old(self)@.pushed(old(self)@.stack_pair(pair)),
                ),
                final(self)@,
                result,
            ),
    {
        let value = self.read_stack_pair(pair);
        self.push_word(value)
    }

    /// POP: loads a register pair, or the accumulator and the flags, from the
    /// stack.
    pub fn pop(&mut self, pair: StackPair) -> (result: Result<(), Fault>)
        ensures
            fulfils(
                old(self)@,
                guarded(
                    old(self)@,
                    old(self)@.can_pop(),
                    old(self)@.popped().with_stack_pair(pair, old(self)@.top()),
                ),
                final(self)@,
                result,
            ),
    {
        match self.pop_word() {
            Ok(value) => {
                self.write_stack_pair(pair, value);
                Ok(())
            },
            Err(fault) => Err(fault),
        }
    }

    /// XTHL: swaps L with the byte at SP and H with the byte at SP+1.
    pub fn xthl(&mut self) -> (result: Result<(), Fault>)
        ensures
            fulfils(
                old(self)@,
                guarded(old(self)@, old(self)@.can_pop(), old(self)@.with_top_exchanged()),
                final(self)@,
                result,
            ),
    {
        let low_addr: u16 = self.sp;
        let high_addr: u16 = self.sp.wrapping_add(1);
        let low: u8 = match self.memory.read_byte(low_addr) {
            Ok(byte) => byte,
            Err(_) => {
                return Err(self.fault());
            },
        };
        let high: u8 = match self.memory.read_byte(high_addr) {
            Ok(byte) => byte,
            Err(_) => {
                return Err(self.fault());
            },
        };
        let _ = self.memory.write_byte(low_addr, self.l);
        let _ = self.memory.write_byte(high_addr, self.h);
        self.l = low;
        self.h = high;
        Ok(())
    }
}

// Branch.
impl State8080 {
    /// CALL and RST: pushes the return address `ret` and jumps to `target`.
    pub fn call(&mut self, target: u16, ret: u16) -> (result: Result<Flow, Fault>)
        ensures
            fulfils(
                old(self)@,
                guarded(old(self)@, old(self)@.can_push(), old(self)@.pushed(ret)),
                final(self)@,
                result,
            ),
            old(self)@.can_push() ==> result == Ok::<Flow, Fault>(Flow::Jump(target)),
    {
        match self.push_word(ret) {
            Ok(()) => Ok(Flow::Jump(target)),
            Err(fault) => Err(fault),
        }
    }

    /// RET: pops the return address and jumps to it.
    pub fn ret(&mut self) -> (result: Result<Flow, Fault>)
        ensures
            fulfils(
                old(self)@,
                guarded(old(self)@, old(self)@.can_pop(), old(self)@.popped()),
                final(self)@,
                result,
            ),
            old(self)@.can_pop() ==> result == Ok::<Flow, Fault>(Flow::Jump(old(self)@.top())),
    {
        match self.pop_word() {
            Ok(target) => Ok(Flow::Jump(target)),
            Err(fault) => Err(fault),
        }
    }
}

// Control.
impl State8080 {
    /// IN: loads the accumulator from a port.
    pub fn input(&mut self, port: u8)
        ensures
            final(self)@ == (Machine { a: old(self)@.ports[port as int], ..old(self)@ }),
    {
        self.a = self.get_port(port);
    }

    /// OUT: puts the accumulator on a port.
    pub fn output(&mut self, port: u8)
        ensures
            final(self)@ == old(self)@.with_port(port, old(self).a),
    {
        let a = self.a;
        self.set_port(port, a);
    }
}

// The handlers, one for each group of instructions.
impl State8080 {
    /// Runs a data transfer instruction. `lo` and `hi` are the two bytes that
    /// follow the opcode.
    pub fn transfer(&mut self, op: Transfer, lo: u8, hi: u8) -> (r: Result<(), Fault>)
        ensures
            fulfils(old(self)@, transfer_spec(old(self)@, op, lo, hi), final(self)@, r),
    {
        proof {
            reveal(transfer_spec);
        }
        match op {
            Transfer::Mov(dst, src) => self.mov(dst, src),
            Transfer::Mvi(r) => self.write_reg(r, lo),
            Transfer::Lxi(rp) => {
                self.write_pair(rp, make_word(hi, lo));
                Ok(())
            },
            Transfer::Lda => self.lda(make_word(hi, lo)),
            Transfer::Sta => self.sta(make_word(hi, lo)),
            Transfer::Ldax(pair) => self.lda(self.read_index_pair(pair)),
            Transfer::Stax(pair) => self.sta(self.read_index_pair(pair)),
            Transfer::Lhld => self.lhld(make_word(hi, lo)),
            Transfer::Shld => self.shld(make_word(hi, lo)),
            Transfer::Xchg => {
                self.xchg();
                Ok(())
            },
        }
    }

    /// Runs the accumulator operation `op` with the 8-bit operand `r`.
    pub fn alu_reg(&mut self, op: AluOp, r: Reg) -> (result: Result<(), Fault>)
        ensures
            fulfils(old(self)@, accumulate(old(self)@, op, r), final(self)@, result),
    {
        match self.read_reg(r) {
            Ok(operand) => {
                self.alu(op, operand);
                Ok(())
            },
            Err(fault) => Err(fault),
        }
    }

    /// Runs an arithmetic instruction. `lo` is the byte that follows the opcode.
    pub fn arithmetic(&mut self, op: Arithmetic, lo: u8) -> (r: Result<(), Fault>)
        ensures
            fulfils(old(self)@, arithmetic_spec(old(self)@, op, lo), final(self)@, r),
    {
        proof {
            reveal(arithmetic_spec);
        }
        match op {
            Arithmetic::Add(r) => self.alu_reg(AluOp::Add, r),
            Arithmetic::Adc(r) => self.alu_reg(AluOp::Adc, r),
            Arithmetic::Sub(r) => self.alu_reg(AluOp::Sub, r),
            Arithmetic::Sbb(r) => self.alu_reg(AluOp::Sbb, r),
            Arithmetic::Adi => {
                self.alu(AluOp::Add, lo);
                Ok(())
            },
            Arithmetic::Aci => {
                self.alu(AluOp::Adc, lo);
                Ok(())
            },
            Arithmetic::Sui => {
                self.alu(AluOp::Sub, lo);
                Ok(())
            },
            Arithmetic::Sbi => {
                self.alu(AluOp::Sbb, lo);
                Ok(())
            },
            Arithmetic::Inr(r) => self.inr(r),
            Arithmetic::Dcr(r) => self.dcr(r),
            Arithmetic::Inx(rp) => {
                self.inx(rp);
                Ok(())
            },
            Arithmetic::Dcx(rp) => {
                self.dcx(rp);
                Ok(())
            },
            Arithmetic::Dad(rp) => {
                self.dad(rp);
                Ok(())
            },
            Arithmetic::Daa => {
                self.daa();
                Ok(())
            },
        }
    }

    /// Runs a logical instruction. `lo` is the byte that follows the opcode.
    pub fn logical(&mut self, op: Logical, lo: u8) -> (r: Result<(), Fault>)
        ensures
            fulfils(old(self)@, logical_spec(old(self)@, op, lo), final(self)@, r),
    {
        proof {
            reveal(logical_spec);
        }
        match op {
            Logical::Ana(r) => self.alu_reg(AluOp::Ana, r),
            Logical::Xra(r) => self.alu_reg(AluOp::Xra, r),
            Logical::Ora(r) => self.alu_reg(AluOp::Ora, r),
            Logical::Compare(r) => self.alu_reg(AluOp::Compare, r),
            Logical::Ani => {
                self.alu(AluOp::Ana, lo);
                Ok(())
            },
            Logical::Xri => {
                self.alu(AluOp::Xra, lo);
                Ok(())
            },
            Logical::Ori => {
                self.alu(AluOp::Ora, lo);
                Ok(())
            },
            Logical::Cpi => {
                self.alu(AluOp::Compare, lo);
                Ok(())
            },
            Logical::Cma => {
                self.cma();
                Ok(())
            },
            Logical::Stc => {
                self.cc.cy = true;
                Ok(())
            },
            Logical::Cmc => {
                self.cc.cy = !self.cc.cy;
                Ok(())
            },
            Logical::Rlc => {
                self.rlc();
                Ok(())
            },
            Logical::Rrc => {
                self.rrc();
                Ok(())
            },
            Logical::Ral => {
                self.ral();
                Ok(())
            },
            Logical::Rar => {
                self.rar();
                Ok(())
            },
        }
    }

    /// Runs a stack instruction.
    pub fn stack(&mut self, op: StackOp) -> (r: Result<(), Fault>)
        ensures
            fulfils(old(self)@, stack_spec(old(self)@, op), final(self)@, r),
    {
        proof {
            reveal(stack_spec);
        }
        match op {
            StackOp::Push(pair) => self.push(pair),
            StackOp::Pop(pair) => self.pop(pair),
            StackOp::Xthl => self.xthl(),
            StackOp::Sphl => {
                self.sp = self.get_hl();
                Ok(())
            },
        }
    }

    /// Runs a control instruction. `lo` is the byte that follows the opcode.
    pub fn control(&mut self, op: Control, lo: u8)
        ensures
            final(self)@ == control_spec(old(self)@, op, lo),
    {
        proof {
            reveal(control_spec);
        }
        match op {
            Control::Nop => {},
            Control::Hlt => {
                self.status = Status::Halted;
            },
            Control::Ei => {
                self.int_enable = true;
            },
            Control::Di => {
                self.int_enable = false;
            },
            Control::In => self.input(lo),
            Control::Out => self.output(lo),
        }
    }

    /// Runs a branch instruction and says where the program counter is to go; it
    /// does not write the program counter. `target` is the immediate word and
    /// `next` the address of the instruction that follows.
    pub fn branch(&mut self, op: Branch, target: u16, next: u16) -> (r: Result<Flow, Fault>)
        ensures
            match branch_spec(old(self)@, op, target, next) {
                Ok(then) => r is Ok && final(self)@.at(landing(r->Ok_0, next)) == then
                    && final(self).pc == old(self).pc,
                Err(fault) => r == Err::<Flow, Fault>(fault) && final(self)@ == old(self)@,
            },
    {
        proof {
            reveal(branch_spec);
        }
        match op {
            Branch::Jmp => Ok(Flow::Jump(target)),
            Branch::JmpIf(condition) => if self.cc.test(condition) {
                Ok(Flow::Jump(target))
            } else {
                Ok(Flow::Next)
            },
            Branch::Call => self.call(target, next),
            Branch::CallIf(condition) => if self.cc.test(condition) {
                self.call(target, next)
            } else {
                Ok(Flow::Next)
            },
            Branch::Ret => self.ret(),
            Branch::RetIf(condition) => if self.cc.test(condition) {
                self.ret()
            } else {
                Ok(Flow::Next)
            },
            Branch::Rst(n) => self.call((n as u16) * 8, next),
            Branch::Pchl => Ok(Flow::Jump(self.get_hl())),
        }
    }
}

/// Turns the result of a handler that never jumps into a flow.
fn advance(result: Result<(), Fault>) -> (r: Result<Flow, Fault>)
    ensures
        result is Ok ==> r == Ok::<Flow, Fault>(Flow::Next),
        result is Err ==> r == Err::<Flow, Fault>(result->Err_0),
{
    match result {
        Ok(()) => Ok(Flow::Next),
        Err(fault) => Err(fault),
    }
}

/// Executes one decoded instruction: runs its handler, then moves the program
/// counter. `lo` and `hi` are the two bytes that follow the opcode.
///
/// The program counter advances past the instruction unless the handler produced
/// an address, in which case it is set to that address. An instruction that
/// faults leaves the state as it was.
pub fn execute(state: &mut State8080, instruction: Instruction, lo: u8, hi: u8) -> (r: Result<
    (),
    Fault,
>)
    ensures
        fulfils(old(state)@, execute_spec(old(state)@, instruction, lo, hi), final(state)@, r),
{
    let next: u16 = state.pc.wrapping_add(1 + instruction.operand_count() as u16);
    let flow = match instruction {
        Instruction::Transfer(op) => advance(state.transfer(op, lo, hi)),
        Instruction::Arithmetic(op) => advance(state.arithmetic(op, lo)),
        Instruction::Logical(op) => advance(state.logical(op, lo)),
        Instruction::Branch(op) => state.branch(op, make_word(hi, lo), next),
        Instruction::Stack(op) => advance(state.stack(op)),
        Instruction::Control(op) => {
            state.control(op, lo);
            Ok(Flow::Next)
        },
    };
    match flow {
        Ok(Flow::Next) => {
            state.pc = next;
            Ok(())
        },
        Ok(Flow::Jump(target)) => {
            state.pc = target;
            Ok(())
        },
        Err(fault) => Err(fault),
    }
}

/// Executes the instruction at the program counter: fetches the opcode and the
/// two bytes after it, decodes the opcode and executes the instruction.
///
/// On a halted processor this does nothing and reports `Halted`. A fault leaves
/// the state as it was.
pub fn emulate(state: &mut State8080) -> (r: Result<Status, Fault>)
    ensures
        match step_spec(old(state)@) {
            Ok(then) => r == Ok::<Status, Fault>(then.status) && final(state)@ == then,
            Err(fault) => r == Err::<Status, Fault>(fault) && final(state)@ == old(state)@,
        },
{
    match state.status {
        Status::Halted => {
            return Ok(Status::Halted);
        },
        Status::Running => {},
    }
    let (opcode, lo, hi) = match state.memory.read_triple(state.pc) {
        Ok(bytes) => bytes,
        Err(_) => {
            return Err(state.fault());
        },
    };
    match execute(state, decode(opcode), lo, hi) {
        Ok(()) => Ok(state.status),
        Err(fault) => Err(fault),
    }
}

/// Runs the processor until it halts, faults or has executed `max_steps`
/// instructions, whichever comes first, and reports which: `Ok(Halted)`, the
/// fault, or `Ok(Running)` when the budget ran out. After a fault the state is
/// the one in which the faulting instruction was fetched.
pub fn run_until_halt(state: &mut State8080, max_steps: u64) -> (r: Result<Status, Fault>)
    ensures
        (final(state)@, r) == run_spec(old(state)@, max_steps as nat),
{
    let mut remaining: u64 = max_steps;
    loop
        invariant
            run_spec(state@, remaining as nat) == run_spec(old(state)@, max_steps as nat),
        decreases remaining,
    {
        if remaining == 0 {
            return Ok(state.status);
        }
        match state.status {
            Status::Halted => {
                return Ok(Status::Halted);
            },
            Status::Running => {},
        }
        match emulate(state) {
            Ok(_) => {
                remaining = remaining - 1;
            },
            Err(fault) => {
                return Err(fault);
            },
        }
    }
}

/// The memory image that a dump of 16-bit words stands for: of each word the
/// high byte first, then the low byte.
pub open spec fn image_of_words(words: Seq<u16>) -> Seq<u8> {
    Seq::new(
        2 * words.len(),
        |i: int|
            if i % 2 == 0 {
                hi_byte(words[i / 2])
            } else {
                lo_byte(words[i / 2])
            },
    )
}

/// Lays a dump of 16-bit words out as bytes: of each word the high byte first,
/// then the low byte.
pub fn words_to_bytes(words: &[u16]) -> (bytes: Vec<u8>)
    ensures
        bytes@ == image_of_words(words@),
{
    let mut bytes: Vec<u8> = Vec::new();
    let mut k: usize = 0;
    while k < words.len()
        invariant
            k <= words@.len(),
            bytes@ == image_of_words(words@.subrange(0, k as int)),
        decreases words@.len() - k,
    {
        let w: u16 = words[k];
        bytes.push(high_byte(w));
        bytes.push(low_byte(w));
        assert(bytes@ =~= image_of_words(words@.subrange(0, k + 1)));
        k = k + 1;
    }
    assert(words@.subrange(0, k as int) =~= words@);
    bytes
}

/// Loads a dump of 16-bit words as the whole memory image, starts a processor at
/// rest on it with the program counter at 0, and runs it for at most `max_steps`
/// instructions. Returns the processor as the run left it and what ended the run.
pub fn emulate_all(hex_dump: &[u16], max_steps: u64) -> (r: (State8080, Result<Status, Fault>))
    ensures
        (r.0@, r.1) == run_spec(initial(image_of_words(hex_dump@)), max_steps as nat),
{
    let mut state = State8080::with_memory(Memory::from_bytes(words_to_bytes(hex_dump)));
    let outcome = run_until_halt(&mut state, max_steps);
    (state, outcome)
}

} // verus!
