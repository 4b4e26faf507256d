//! The mathematical model of the processor: its state as plain values and the
//! effect of every instruction as a function from state to state.
//!
//! The executable interpreter is proved against the functions of this module.

use vstd::prelude::*;
use crate::alu::{
    alu_spec, daa_result, dcr_result, inr_result, ral_result, rar_result, rlc_result, rrc_result,
    wrap16, AluOp,
};
use crate::flags::{flag_byte, flags_of_byte, ConditionCodes};
use crate::instruction::{
    decode_spec, Arithmetic, Branch, Control, IndexPair, Instruction, Logical, Reg, RegPair,
    StackOp, StackPair, Transfer,
};
use crate::memory::{hi_byte, lo_byte, mapped, with_word_at, word, word_at};

verus! {

/// The two states of the processor.
#[derive(Clone, Copy, Debug, PartialEq, Eq, Structural)]
pub enum Status {
    /// Instructions are fetched and executed.
    Running,
    /// HLT was executed; no further instruction runs.
    Halted,
}

/// What stops a run other than a halt.
#[derive(Clone, Copy, Debug, PartialEq, Eq)]
pub enum Fault {
    /// An instruction, its operands or its stack access fell outside the memory
    /// image. `pc` is the address of the instruction and `opcode` its first byte,
    /// where that byte itself lies inside the image.
    OutOfBoundsMemoryAccess { pc: u16, opcode: Option<u8> },
    /// A broken internal invariant. The interpreter is proved never to report it.
    UnrecoverableFault,
}

/// The processor state as plain values: registers, flags, the memory image and
/// the port table.
pub struct Machine {
    pub a: u8,
    pub b: u8,
    pub c: u8,
    pub d: u8,
    pub e: u8,
    pub h: u8,
    pub l: u8,
    pub sp: u16,
    pub pc: u16,
    pub cc: ConditionCodes,
    pub int_enable: bool,
    pub status: Status,
    pub memory: Seq<u8>,
    pub ports: Seq<u8>,
}

impl Machine {
    /// Whether `addr` lies inside the memory image.
    pub open spec fn mapped(self, addr: int) -> bool {
        mapped(self.memory, addr)
    }

    /// The fault that the instruction at the program counter raises.
    pub open spec fn fault(self) -> Fault {
        Fault::OutOfBoundsMemoryAccess {
            pc: self.pc,
            opcode: if self.mapped(self.pc as int) {
                Some(self.memory[self.pc as int])
            } else {
                None
            },
        }
    }

    /// The pair B:C, B high.
    pub open spec fn bc(self) -> u16 {
        word(self.b, self.c)
    }

    /// The pair D:E, D high.
    pub open spec fn de(self) -> u16 {
        word(self.d, self.e)
    }

    /// The pair H:L, H high.
    pub open spec fn hl(self) -> u16 {
        word(self.h, self.l)
    }

    /// This state with B:C holding `value`.
    pub open spec fn with_bc(self, value: u16) -> Machine {
        Machine { b: hi_byte(value), c: lo_byte(value), ..self }
    }

    /// This state with D:E holding `value`.
    pub open spec fn with_de(self, value: u16) -> Machine {
        Machine { d: hi_byte(value), e: lo_byte(value), ..self }
    }

    /// This state with H:L holding `value`.
    pub open spec fn with_hl(self, value: u16) -> Machine {
        Machine { h: hi_byte(value), l: lo_byte(value), ..self }
    }

    /// The value of a 16-bit operand.
    pub open spec fn pair(self, rp: RegPair) -> u16 {
        match rp {
            RegPair::BC => self.bc(),
            RegPair::DE => self.de(),
            RegPair::HL => self.hl(),
            RegPair::SP => self.sp,
        }
    }

    /// This state with the 16-bit operand `rp` holding `value`.
    pub open spec fn with_pair(self, rp: RegPair, value: u16) -> Machine {
        match rp {
            RegPair::BC => self.with_bc(value),
            RegPair::DE => self.with_de(value),
            RegPair::HL => self.with_hl(value),
            RegPair::SP => Machine { sp: value, ..self },
        }
    }

    /// The address held in a pair that LDAX and STAX use.
    pub open spec fn index_pair(self, pair: IndexPair) -> u16 {
        match pair {
            IndexPair::BC => self.bc(),
            IndexPair::DE => self.de(),
        }
    }

    /// Whether the 8-bit operand `r` can be accessed: a register always, the
    /// memory operand when HL points inside the image.
    pub open spec fn reg_ok(self, r: Reg) -> bool {
        r != Reg::M || self.mapped(self.hl() as int)
    }

    /// The value of an 8-bit operand.
    pub open spec fn reg(self, r: Reg) -> u8 {
        match r {
            Reg::B => self.b,
            Reg::C => self.c,
            Reg::D => self.d,
            Reg::E => self.e,
            Reg::H => self.h,
            Reg::L => self.l,
            Reg::M => self.memory[self.hl() as int],
            Reg::A => self.a,
        }
    }

    /// This state with the 8-bit operand `r` holding `value`.
    pub open spec fn with_reg(self, r: Reg, value: u8) -> Machine {
        match r {
            Reg::B => Machine { b: value, ..self },
            Reg::C => Machine { c: value, ..self },
            Reg::D => Machine { d: value, ..self },
            Reg::E => Machine { e: value, ..self },
            Reg::H => Machine { h: value, ..self },
            Reg::L => Machine { l: value, ..self },
            Reg::M => self.with_byte(self.hl() as int, value),
            Reg::A => Machine { a: value, ..self },
        }
    }

    /// This state with `value` stored in memory at `addr`.
    pub open spec fn with_byte(self, addr: int, value: u8) -> Machine {
        Machine { memory: self.memory.update(addr, value), ..self }
    }

    /// This state with the program counter at `pc`.
    pub open spec fn at(self, pc: u16) -> Machine {
        Machine { pc, ..self }
    }

    /// Whether the two bytes below the stack pointer lie inside the image.
    pub open spec fn can_push(self) -> bool {
        self.mapped(wrap16(self.sp - 1) as int) && self.mapped(wrap16(self.sp - 2) as int)
    }

    /// This state after pushing `value`: the high byte goes to SP-1, the low byte
    /// to SP-2, and SP drops by 2. The three are computed in 16 bits and wrap.
    pub open spec fn pushed(self, value: u16) -> Machine {
        Machine {
            sp: wrap16(self.sp - 2),
            memory: self.memory.update(wrap16(self.sp - 1) as int, hi_byte(value)).update(
                wrap16(self.sp - 2) as int,
                lo_byte(value),
            ),
            ..self
        }
    }

    /// Whether the two bytes at the top of the stack lie inside the image.
    pub open spec fn can_pop(self) -> bool {
        self.mapped(self.sp as int) && self.mapped(wrap16(self.sp + 1) as int)
    }

    /// The word at the top of the stack: low byte at SP, high byte at SP+1.
    pub open spec fn top(self) -> u16 {
        word(self.memory[wrap16(self.sp + 1) as int], self.memory[self.sp as int])
    }

    /// This state with the top word dropped from the stack: SP rises by 2.
    pub open spec fn popped(self) -> Machine {
        Machine { sp: wrap16(self.sp + 2), ..self }
    }

    /// The value that PUSH stores for `pair`. For the processor status word the
    /// accumulator is the high byte and the flag byte the low byte.
    pub open spec fn stack_pair(self, pair: StackPair) -> u16 {
        match pair {
            StackPair::BC => self.bc(),
            StackPair::DE => self.de(),
            StackPair::HL => self.hl(),
            StackPair::PSW => word(self.a, flag_byte(self.cc)),
        }
    }

    /// This state after POP has loaded `value` into `pair`.
    pub open spec fn with_stack_pair(self, pair: StackPair, value: u16) -> Machine {
        match pair {
            StackPair::BC => self.with_bc(value),
            StackPair::DE => self.with_de(value),
            StackPair::HL => self.with_hl(value),
            StackPair::PSW => Machine {
                a: hi_byte(value),
                cc: flags_of_byte(lo_byte(value)),
                ..self
            },
        }
    }

    /// This state with H:L and the word at the top of the stack exchanged: L goes
    /// to the byte at SP and H to the byte at SP+1.
    pub open spec fn with_top_exchanged(self) -> Machine {
        Machine {
            memory: self.memory.update(self.sp as int, self.l).update(
                wrap16(self.sp + 1) as int,
                self.h,
            ),
            ..self.with_hl(self.top())
        }
    }

    /// This state with `value` on port `n`.
    pub open spec fn with_port(self, n: u8, value: u8) -> Machine {
        Machine { ports: self.ports.update(n as int, value), ..self }
    }

    /// This state after the accumulator operation `op` with `operand`.
    pub open spec fn with_alu(self, op: AluOp, operand: u8) -> Machine {
        let (a, cc) = alu_spec(op, self.a, operand, self.cc);
        Machine { a, cc, ..self }
    }

    /// This state after INR of the 8-bit operand `r`.
    pub open spec fn incremented(self, r: Reg) -> Machine {
        let (value, cc) = inr_result(self.reg(r), self.cc);
        Machine { cc, ..self.with_reg(r, value) }
    }

    /// This state after DCR of the 8-bit operand `r`.
    pub open spec fn decremented(self, r: Reg) -> Machine {
        let (value, cc) = dcr_result(self.reg(r), self.cc);
        Machine { cc, ..self.with_reg(r, value) }
    }

    /// This state after DAD of the 16-bit operand `rp`: H:L receives the low 16
    /// bits of the sum and carry the carry out of bit 15.
    pub open spec fn double_added(self, rp: RegPair) -> Machine {
        let sum = self.hl() + self.pair(rp);
        self.with_hl(wrap16(sum)).with_carry(sum > 0xffff)
    }

    /// This state after the decimal adjustment of the accumulator.
    pub open spec fn decimal_adjusted(self) -> Machine {
        let (a, cc) = daa_result(self.a, self.cc);
        Machine { a, cc, ..self }
    }

    /// This state with the carry flag as given and the other flags kept.
    pub open spec fn with_carry(self, cy: bool) -> Machine {
        Machine { cc: ConditionCodes { cy, ..self.cc }, ..self }
    }

    /// This state after a rotation of the accumulator that left `rotated`.
    pub open spec fn with_rotation(self, rotated: (u8, bool)) -> Machine {
        Machine { a: rotated.0, ..self.with_carry(rotated.1) }
    }
}

/// `then` where the access that the instruction needs is in range, and the fault
/// of `m` where it is not.
pub open spec fn guarded(m: Machine, in_range: bool, then: Machine) -> Result<Machine, Fault> {
    if in_range {
        Ok(then)
    } else {
        Err(m.fault())
    }
}

/// The effect of a data transfer instruction on everything but the program
/// counter. `lo` and `hi` are the two bytes that follow the opcode.
#[verifier::opaque]
pub open spec fn transfer_spec(m: Machine, op: Transfer, lo: u8, hi: u8) -> Result<
    Machine,
    Fault,
> {
    let imm = word(hi, lo);
    match op {
        Transfer::Mov(dst, src) => guarded(
            m,
            m.reg_ok(dst) && m.reg_ok(src),
            m.with_reg(dst, m.reg(src)),
        ),
        Transfer::Mvi(r) => guarded(m, m.reg_ok(r), m.with_reg(r, lo)),
        Transfer::Lxi(rp) => Ok(m.with_pair(rp, imm)),
        Transfer::Lda => guarded(m, m.mapped(imm as int), Machine { a: m.memory[imm as int], ..m }),
        Transfer::Sta => guarded(m, m.mapped(imm as int), m.with_byte(imm as int, m.a)),
        Transfer::Ldax(pair) => guarded(
            m,
            m.mapped(m.index_pair(pair) as int),
            Machine { a: m.memory[m.index_pair(pair) as int], ..m },
        ),
        Transfer::Stax(pair) => guarded(
            m,
            m.mapped(m.index_pair(pair) as int),
            m.with_byte(m.index_pair(pair) as int, m.a),
        ),
        Transfer::Lhld => guarded(m, m.mapped(imm + 1), m.with_hl(word_at(m.memory, imm as int))),
        Transfer::Shld => guarded(
            m,
            m.mapped(imm + 1),
            Machine { memory: with_word_at(m.memory, imm as int, m.hl()), ..m },
        ),
        Transfer::Xchg => Ok(Machine { d: m.h, e: m.l, h: m.d, l: m.e, ..m }),
    }
}

/// The effect of the accumulator operation `op` with the 8-bit operand `r`.
pub open spec fn accumulate(m: Machine, op: AluOp, r: Reg) -> Result<Machine, Fault> {
    guarded(m, m.reg_ok(r), m.with_alu(op, m.reg(r)))
}

/// The effect of an arithmetic instruction on everything but the program
/// counter. `lo` is the byte that follows the opcode.
///
/// INR and DCR leave carry alone, INX and DCX touch no flag, and DAD touches
/// only carry.
#[verifier::opaque]
pub open spec fn arithmetic_spec(m: Machine, op: Arithmetic, lo: u8) -> Result<Machine, Fault> {
    match op {
        Arithmetic::Add(r) => accumulate(m, AluOp::Add, r),
        Arithmetic::Adc(r) => accumulate(m, AluOp::Adc, r),
        Arithmetic::Sub(r) => accumulate(m, AluOp::Sub, r),
        Arithmetic::Sbb(r) => accumulate(m, AluOp::Sbb, r),
        Arithmetic::Adi => Ok(m.with_alu(AluOp::Add, lo)),
        Arithmetic::Aci => Ok(m.with_alu(AluOp::Adc, lo)),
        Arithmetic::Sui => Ok(m.with_alu(AluOp::Sub, lo)),
        Arithmetic::Sbi => Ok(m.with_alu(AluOp::Sbb, lo)),
        Arithmetic::Inr(r) => guarded(m, m.reg_ok(r), m.incremented(r)),
        Arithmetic::Dcr(r) => guarded(m, m.reg_ok(r), m.decremented(r)),
        Arithmetic::Inx(rp) => Ok(m.with_pair(rp, wrap16(m.pair(rp) + 1))),
        Arithmetic::Dcx(rp) => Ok(m.with_pair(rp, wrap16(m.pair(rp) - 1))),
        Arithmetic::Dad(rp) => Ok(m.double_added(rp)),
        Arithmetic::Daa => Ok(m.decimal_adjusted()),
    }
}

/// The effect of a logical instruction on everything but the program counter.
/// `lo` is the byte that follows the opcode.
///
/// The rotations, STC and CMC touch only carry; CMA touches no flag.
#[verifier::opaque]
pub open spec fn logical_spec(m: Machine, op: Logical, lo: u8) -> Result<Machine, Fault> {
    match op {
        Logical::Ana(r) => accumulate(m, AluOp::Ana, r),
        Logical::Xra(r) => accumulate(m, AluOp::Xra, r),
        Logical::Ora(r) => accumulate(m, AluOp::Ora, r),
        Logical::Compare(r) => accumulate(m, AluOp::Compare, r),
        Logical::Ani => Ok(m.with_alu(AluOp::Ana, lo)),
        Logical::Xri => Ok(m.with_alu(AluOp::Xra, lo)),
        Logical::Ori => Ok(m.with_alu(AluOp::Ora, lo)),
        Logical::Cpi => Ok(m.with_alu(AluOp::Compare, lo)),
        Logical::Cma => Ok(Machine { a: (255 - m.a) as u8, ..m }),
        Logical::Stc => Ok(m.with_carry(true)),
        Logical::Cmc => Ok(m.with_carry(!m.cc.cy)),
        Logical::Rlc => Ok(m.with_rotation(rlc_result(m.a))),
        Logical::Rrc => Ok(m.with_rotation(rrc_result(m.a))),
        Logical::Ral => Ok(m.with_rotation(ral_result(m.a, m.cc.cy))),
        Logical::Rar => Ok(m.with_rotation(rar_result(m.a, m.cc.cy))),
    }
}

/// The effect of a stack instruction on everything but the program counter. No
/// flag is touched, except by POP PSW, which loads all five.
#[verifier::opaque]
pub open spec fn stack_spec(m: Machine, op: StackOp) -> Result<Machine, Fault> {
    match op {
        StackOp::Push(pair) => guarded(m, m.can_push(), m.pushed(m.stack_pair(pair))),
        StackOp::Pop(pair) => guarded(m, m.can_pop(), m.popped().with_stack_pair(pair, m.top())),
        StackOp::Xthl => guarded(m, m.can_pop(), m.with_top_exchanged()),
        StackOp::Sphl => Ok(Machine { sp: m.hl(), ..m }),
    }
}

/// The effect of a control instruction on everything but the program counter.
/// `lo` is the byte that follows the opcode.
#[verifier::opaque]
pub open spec fn control_spec(m: Machine, op: Control, lo: u8) -> Machine {
    match op {
        Control::Nop => m,
        Control::Hlt => Machine { status: Status::Halted, ..m },
        Control::Ei => Machine { int_enable: true, ..m },
        Control::Di => Machine { int_enable: false, ..m },
        Control::In => Machine { a: m.ports[lo as int], ..m },
        Control::Out => m.with_port(lo, m.a),
    }
}

/// The state after a branch instruction, program counter included. `target` is
/// the immediate word and `next` the address of the instruction that follows.
///
/// A call pushes `next` as the return address; a return pops the address to go
/// on at. A conditional branch whose condition fails only moves on to `next`.
#[verifier::opaque]
pub open spec fn branch_spec(m: Machine, op: Branch, target: u16, next: u16) -> Result<
    Machine,
    Fault,
> {
    match op {
        Branch::Jmp => Ok(m.at(target)),
        Branch::JmpIf(condition) => Ok(
            m.at(
                if m.cc.holds(condition) {
                    target
                } else {
                    next
                },
            ),
        ),
        Branch::Call => guarded(m, m.can_push(), m.pushed(next).at(target)),
        Branch::CallIf(condition) => if m.cc.holds(condition) {
            guarded(m, m.can_push(), m.pushed(next).at(target))
        } else {
            Ok(m.at(next))
        },
        Branch::Ret => guarded(m, m.can_pop(), m.popped().at(m.top())),
        Branch::RetIf(condition) => if m.cc.holds(condition) {
            guarded(m, m.can_pop(), m.popped().at(m.top()))
        } else {
            Ok(m.at(next))
        },
        Branch::Rst(n) => guarded(m, m.can_push(), m.pushed(next).at(wrap16(n * 8))),
        Branch::Pchl => Ok(m.at(m.hl())),
    }
}

/// The address of the instruction that follows `instruction` in memory. The
/// program counter is a 16-bit register and wraps.
pub open spec fn next_pc(m: Machine, instruction: Instruction) -> u16 {
    wrap16(m.pc + 1 + instruction.operand_len())
}

/// `result` with the program counter moved to `next` where it is a state.
pub open spec fn advanced(result: Result<Machine, Fault>, next: u16) -> Result<Machine, Fault> {
    match result {
        Ok(m) => Ok(m.at(next)),
        Err(fault) => Err(fault),
    }
}

/// The state after `instruction` has run in state `m`, or the fault that it
/// raises. `lo` and `hi` are the two bytes that follow the opcode in memory; an
/// instruction reads only as many of them as it has operand bytes.
///
/// Only a branch sets the program counter itself. After every other instruction
/// it stands at the instruction that follows. An instruction that faults changes
/// nothing.
pub open spec fn execute_spec(m: Machine, instruction: Instruction, lo: u8, hi: u8) -> Result<
    Machine,
    Fault,
> {
    let next = next_pc(m, instruction);
    match instruction {
        Instruction::Transfer(op) => advanced(transfer_spec(m, op, lo, hi), next),
        Instruction::Arithmetic(op) => advanced(arithmetic_spec(m, op, lo), next),
        Instruction::Logical(op) => advanced(logical_spec(m, op, lo), next),
        Instruction::Branch(op) => branch_spec(m, op, word(hi, lo), next),
        Instruction::Stack(op) => advanced(stack_spec(m, op), next),
        Instruction::Control(op) => Ok(control_spec(m, op, lo).at(next)),
    }
}

/// Whether the opcode at the program counter and the two bytes after it lie inside
/// the memory image. The fetch reads all three, whatever the instruction.
pub open spec fn can_fetch(m: Machine) -> bool {
    m.mapped(m.pc + 2)
}

/// One step of the processor.
///
/// A halted processor stays as it is. A running one fetches three bytes at the
/// program counter, decodes the first and executes the instruction; a fetch that
/// leaves the memory image is a fault.
pub open spec fn step_spec(m: Machine) -> Result<Machine, Fault> {
    if m.status == Status::Halted {
        Ok(m)
    } else if !can_fetch(m) {
        Err(m.fault())
    } else {
        execute_spec(
            m,
            decode_spec(m.memory[m.pc as int]),
            m.memory[m.pc + 1],
            m.memory[m.pc + 2],
        )
    }
}

/// The state that a run of at most `budget` steps ends in, with what ended it: the
/// halted state, a fault (the state is then the one in which the faulting
/// instruction was fetched), or the running state when the budget was used up.
pub open spec fn run_spec(m: Machine, budget: nat) -> (Machine, Result<Status, Fault>)
    decreases budget,
{
    if m.status == Status::Halted || budget == 0 {
        (m, Ok(m.status))
    } else {
        match step_spec(m) {
            Ok(after) => run_spec(after, (budget - 1) as nat),
            Err(fault) => (m, Err(fault)),
        }
    }
}

} // verus!
