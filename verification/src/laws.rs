//! Properties of the instruction set, proved from the model of the processor.

use vstd::prelude::*;
use crate::alu::{even_parity, wrap16, AluOp};
use crate::flags::ConditionCodes;
use crate::instruction::{
    decode_spec, Arithmetic, Branch, Control, Instruction, Logical, Reg, RegPair, StackOp,
    StackPair, Transfer,
};
use crate::machine::{
    arithmetic_spec, branch_spec, control_spec, execute_spec, guarded, logical_spec, next_pc,
    stack_spec, step_spec, transfer_spec, Fault, Machine, Status,
};
use crate::memory::{lemma_word_halves, word};

verus! {

/// ADD sets carry exactly when the sum of the accumulator and the operand exceeds
/// 255, zero exactly when the low eight bits of the sum are 0, and parity exactly
/// when those eight bits hold an even number of ones; the accumulator receives
/// those eight bits. This holds for a register or memory operand that can be
/// read, and for an immediate operand.
pub proof fn law_add_flags(m: Machine, r: Reg, lo: u8, hi: u8)
    ensures
        m.reg_ok(r) ==> add_leaves(
            m.a,
            m.reg(r),
            execute_spec(m, Instruction::Arithmetic(Arithmetic::Add(r)), lo, hi),
        ),
        add_leaves(m.a, lo, execute_spec(m, Instruction::Arithmetic(Arithmetic::Adi), lo, hi)),
{
    reveal(arithmetic_spec);
    let a = m.a;
    let b = m.reg(r);
    assert(((a as u16 + b as u16) as u16 & 0xff) == (a + b) % 256) by (bit_vector);
    assert(((a as u16 + lo as u16) as u16 & 0xff) == (a + lo) % 256) by (bit_vector);
}

/// What ADD of `operand` to the accumulator `a` leaves in `result`.
pub open spec fn add_leaves(a: u8, operand: u8, result: Result<Machine, Fault>) -> bool {
    let low_bits: u16 = (a as u16 + operand as u16) as u16 & 0xff;
    &&& result is Ok
    &&& result->Ok_0.a == low_bits
    &&& result->Ok_0.cc.cy <==> a + operand > 255
    &&& result->Ok_0.cc.z <==> low_bits == 0
    &&& result->Ok_0.cc.p <==> even_parity(low_bits as nat)
}

/// PUSH followed by POP of the same pair restores the pair and the stack pointer,
/// and with them every register and flag; only the two bytes below the old stack
/// pointer and the program counter differ. For the processor status word the
/// pair is the accumulator and the five flags.
pub proof fn law_push_pop(m: Machine, pair: StackPair, lo: u8, hi: u8)
    ensures
        execute_spec(m, Instruction::Stack(StackOp::Push(pair)), lo, hi) matches Ok(pushed) ==> {
            &&& pushed.sp == wrap16(m.sp - 2)
            &&& execute_spec(pushed, Instruction::Stack(StackOp::Pop(pair)), lo, hi) matches Ok(
                popped,
            )
            &&& popped.sp == m.sp
            &&& popped.stack_pair(pair) == m.stack_pair(pair)
            &&& popped == Machine { memory: pushed.memory, pc: wrap16(m.pc + 2), ..m }
        },
{
    lemma_execute_push(m, pair, lo, hi);
    if m.can_push() {
        let between = wrap16(m.pc + 1);
        let after = wrap16(m.pc + 2);
        let pushed = m.pushed(m.stack_pair(pair)).at(between);
        lemma_push_pop_restores(m, pair, between, after);
        lemma_push_then_pop(m, m.stack_pair(pair));
        assert(wrap16(between + 1) == after);
        lemma_execute_pop(
            pushed,
            pair,
            lo,
            hi,
            after,
            Machine { memory: pushed.memory, pc: after, ..m },
        );
    }
}

/// PUSH as a whole instruction, written out.
proof fn lemma_execute_push(m: Machine, pair: StackPair, lo: u8, hi: u8)
    ensures
        execute_spec(m, Instruction::Stack(StackOp::Push(pair)), lo, hi) == guarded(
            m,
            m.can_push(),
            m.pushed(m.stack_pair(pair)).at(wrap16(m.pc + 1)),
        ),
{
    reveal(stack_spec);
}

/// POP as a whole instruction, where the stack can be read.
proof fn lemma_execute_pop(
    m: Machine,
    pair: StackPair,
    lo: u8,
    hi: u8,
    next: u16,
    then: Machine,
)
    requires
        m.can_pop(),
        next == wrap16(m.pc + 1),
        m.popped().with_stack_pair(pair, m.top()).at(next) == then,
    ensures
        execute_spec(m, Instruction::Stack(StackOp::Pop(pair)), lo, hi) == Ok::<Machine, Fault>(
            then,
        ),
{
    reveal(stack_spec);
}

/// Popping a pair that was just pushed gives back the state before the push, but
/// for the memory that the push wrote and the program counter.
pub proof fn lemma_push_pop_restores(m: Machine, pair: StackPair, between: u16, after: u16)
    requires
        m.can_push(),
    ensures
        ({
            let pushed = m.pushed(m.stack_pair(pair)).at(between);
            &&& pushed.can_pop()
            &&& pushed.popped().with_stack_pair(pair, pushed.top()).at(after) == Machine {
                memory: pushed.memory,
                pc: after,
                ..m
            }
        }),
{
    let value = m.stack_pair(pair);
    lemma_push_then_pop(m, value);
    lemma_stack_pair_roundtrip(m, pair);
    let pushed = m.pushed(value).at(between);
    assert(pushed.top() == m.pushed(value).top());
    assert(pushed.popped() == Machine { memory: pushed.memory, pc: between, ..m });
    let restored = Machine { memory: pushed.memory, pc: between, ..m };
    assert(restored.with_stack_pair(pair, value) == Machine {
        memory: pushed.memory,
        pc: between,
        ..m.with_stack_pair(pair, value)
    });
}

/// After a push the pushed word is at the top of the stack, and dropping it puts
/// the stack pointer back.
pub proof fn lemma_push_then_pop(m: Machine, value: u16)
    requires
        m.can_push(),
    ensures
        m.pushed(value).can_pop(),
        m.pushed(value).top() == value,
        m.pushed(value).popped().sp == m.sp,
        m.pushed(value).sp == wrap16(m.sp - 2),
{
    lemma_word_halves(value, 0, 0);
    let high_addr = wrap16(m.sp - 1) as int;
    let low_addr = wrap16(m.sp - 2) as int;
    assert(high_addr == wrap16(low_addr + 1));
    assert(high_addr != low_addr);
    assert(wrap16(low_addr + 2) == m.sp);
}

/// Loading a pair with the word that PUSH would store for it changes nothing.
pub proof fn lemma_stack_pair_roundtrip(m: Machine, pair: StackPair)
    ensures
        m.with_stack_pair(pair, m.stack_pair(pair)) == m,
{
    crate::flags::lemma_flag_byte_roundtrip(m.cc);
    lemma_word_halves(0, m.a, crate::flags::flag_byte(m.cc));
    lemma_word_halves(0, m.b, m.c);
    lemma_word_halves(0, m.d, m.e);
    lemma_word_halves(0, m.h, m.l);
}

/// CALL followed by RET goes on at the instruction after the CALL, three bytes
/// past it, and restores the stack pointer. `lo` and `hi` are the operand bytes
/// of the CALL; whatever bytes follow the RET are ignored.
pub proof fn law_call_ret(m: Machine, lo: u8, hi: u8, after_lo: u8, after_hi: u8)
    ensures
        execute_spec(m, Instruction::Branch(Branch::Call), lo, hi) matches Ok(called) ==> {
            &&& called.pc == word(hi, lo)
            &&& execute_spec(called, Instruction::Branch(Branch::Ret), after_lo, after_hi)
                matches Ok(returned)
            &&& returned.pc == wrap16(m.pc + 3)
            &&& m.pc + 3 <= 0xffff ==> returned.pc == m.pc + 3
            &&& returned.sp == m.sp
            &&& returned == Machine { memory: called.memory, pc: returned.pc, ..m }
        },
{
    lemma_execute_call(m, lo, hi);
    if m.can_push() {
        let target = word(hi, lo);
        let back = wrap16(m.pc + 3);
        let called = m.pushed(back).at(target);
        lemma_push_then_pop(m, back);
        assert(called.top() == m.pushed(back).top());
        assert(called.popped().at(back) == Machine { memory: called.memory, pc: back, ..m });
        lemma_execute_ret(
            called,
            after_lo,
            after_hi,
            Machine { memory: called.memory, pc: back, ..m },
        );
    }
}

/// CALL as a whole instruction, written out.
proof fn lemma_execute_call(m: Machine, lo: u8, hi: u8)
    ensures
        execute_spec(m, Instruction::Branch(Branch::Call), lo, hi) == guarded(
            m,
            m.can_push(),
            m.pushed(wrap16(m.pc + 3)).at(word(hi, lo)),
        ),
{
    reveal(branch_spec);
}

/// RET as a whole instruction, where the stack can be read.
proof fn lemma_execute_ret(m: Machine, lo: u8, hi: u8, then: Machine)
    requires
        m.can_pop(),
        m.popped().at(m.top()) == then,
    ensures
        execute_spec(m, Instruction::Branch(Branch::Ret), lo, hi) == Ok::<Machine, Fault>(then),
{
    reveal(branch_spec);
}

/// A word stored in a register pair is the word read back from it, and storing
/// in one pair leaves the other pairs alone.
pub proof fn law_pair_roundtrip(m: Machine, x: u16)
    ensures
        m.with_hl(x).hl() == x,
        m.with_bc(x).bc() == x,
        m.with_de(x).de() == x,
        m.with_hl(x).bc() == m.bc() && m.with_hl(x).de() == m.de(),
        m.with_bc(x).hl() == m.hl() && m.with_bc(x).de() == m.de(),
        m.with_de(x).hl() == m.hl() && m.with_de(x).bc() == m.bc(),
{
    lemma_word_halves(x, 0, 0);
}

/// The same for the 16-bit operands of LXI, INX, DCX and DAD.
pub proof fn law_with_pair(m: Machine, rp: RegPair, x: u16)
    ensures
        m.with_pair(rp, x).pair(rp) == x,
{
    lemma_word_halves(x, 0, 0);
}

/// The program counter belongs either to the handler or to the dispatcher: an
/// instruction outside the branch group that succeeds leaves the program counter
/// at the instruction that follows it, one byte further for the opcode and one
/// for each operand byte.
pub proof fn law_program_counter_advances(m: Machine, instruction: Instruction, lo: u8, hi: u8)
    requires
        !(instruction is Branch),
    ensures
        execute_spec(m, instruction, lo, hi) matches Ok(after) ==> after.pc == wrap16(
            m.pc + 1 + instruction.operand_len(),
        ),
{
}

/// A conditional branch whose condition fails moves on to the next instruction
/// and changes nothing else; a conditional jump needs three bytes, so the program
/// counter advances by 3.
pub proof fn law_branch_not_taken(m: Machine, op: Branch, lo: u8, hi: u8)
    requires
        match op {
            Branch::JmpIf(condition) | Branch::CallIf(condition) | Branch::RetIf(condition) => {
                !m.cc.holds(condition)
            },
            _ => false,
        },
    ensures
        execute_spec(m, Instruction::Branch(op), lo, hi) == Ok::<Machine, Fault>(
            m.at(next_pc(m, Instruction::Branch(op))),
        ),
        op is JmpIf ==> next_pc(m, Instruction::Branch(op)) == wrap16(m.pc + 3),
{
    reveal(branch_spec);
}

/// HLT is the only instruction that halts the processor: any other instruction
/// that succeeds on a running processor leaves it running, and HLT leaves it
/// halted.
pub proof fn law_only_hlt_halts(m: Machine, instruction: Instruction, lo: u8, hi: u8)
    requires
        m.status == Status::Running,
    ensures
        execute_spec(m, instruction, lo, hi) matches Ok(after) ==> (after.status == Status::Halted
            <==> instruction == Instruction::Control(Control::Hlt)),
{
    reveal(transfer_spec);
    reveal(arithmetic_spec);
    reveal(logical_spec);
    reveal(branch_spec);
    reveal(stack_spec);
    reveal(control_spec);
}

/// A halted processor stays halted and unchanged, whatever is in memory.
pub proof fn law_halted_is_terminal(m: Machine)
    requires
        m.status == Status::Halted,
    ensures
        step_spec(m) == Ok::<Machine, Fault>(m),
{
}

/// The only fault that an instruction can raise is an access outside the memory
/// image, reported with the program counter of the instruction and, where it
/// could be read, its opcode.
pub proof fn law_execute_faults(m: Machine, instruction: Instruction, lo: u8, hi: u8)
    ensures
        execute_spec(m, instruction, lo, hi) matches Err(fault) ==> fault == m.fault(),
{
    match instruction {
        Instruction::Transfer(_) => {
            reveal(transfer_spec);
        },
        Instruction::Arithmetic(_) => {
            reveal(arithmetic_spec);
        },
        Instruction::Logical(_) => {
            reveal(logical_spec);
        },
        Instruction::Branch(_) => {
            reveal(branch_spec);
        },
        Instruction::Stack(_) => {
            reveal(stack_spec);
        },
        Instruction::Control(_) => {},
    }
}

/// The same of a whole step, fetch included: a step never reports a broken
/// invariant.
pub proof fn law_faults_are_out_of_bounds(m: Machine)
    ensures
        step_spec(m) matches Err(fault) ==> fault == m.fault() && fault
            != Fault::UnrecoverableFault,
{
    if m.status == Status::Running && m.mapped(m.pc + 2) {
        law_execute_faults(
            m,
            decode_spec(m.memory[m.pc as int]),
            m.memory[m.pc + 1],
            m.memory[m.pc + 2],
        );
    }
}

/// Register moves, immediate loads, exchanges and the other data transfers never
/// change a flag.
pub proof fn law_transfer_keeps_flags(m: Machine, op: Transfer, lo: u8, hi: u8)
    ensures
        transfer_spec(m, op, lo, hi) matches Ok(after) ==> after.cc == m.cc,
{
    reveal(transfer_spec);
}

/// Stack operations never change a flag, except POP of the processor status
/// word, which loads the flags from the stack.
pub proof fn law_stack_keeps_flags(m: Machine, op: StackOp)
    requires
        op != StackOp::Pop(StackPair::PSW),
    ensures
        stack_spec(m, op) matches Ok(after) ==> after.cc == m.cc,
{
    reveal(stack_spec);
}

/// Calls, returns and jumps never change a flag.
pub proof fn law_branch_keeps_flags(m: Machine, op: Branch, target: u16, next: u16)
    ensures
        branch_spec(m, op, target, next) matches Ok(after) ==> after.cc == m.cc,
{
    reveal(branch_spec);
}

/// INX and DCX change no flag. DAD changes at most carry. INR and DCR leave
/// carry as it was.
pub proof fn law_arithmetic_flags(m: Machine, op: Arithmetic, lo: u8)
    ensures
        arithmetic_spec(m, op, lo) matches Ok(after) ==> {
            &&& (op is Inx || op is Dcx) ==> after.cc == m.cc
            &&& op is Dad ==> after.cc == (ConditionCodes { cy: after.cc.cy, ..m.cc })
            &&& (op is Inr || op is Dcr) ==> after.cc.cy == m.cc.cy
        },
{
    reveal(arithmetic_spec);
}

/// The rotations, STC and CMC change at most carry, and CMA changes no flag. The
/// bitwise operations AND, OR and XOR always clear carry. A comparison leaves the
/// accumulator as it was and the flags of the subtraction.
pub proof fn law_logical_flags(m: Machine, op: Logical, lo: u8)
    ensures
        logical_spec(m, op, lo) matches Ok(after) ==> {
            &&& (op is Rlc || op is Rrc || op is Ral || op is Rar || op is Stc || op is Cmc)
                ==> after.cc == (ConditionCodes { cy: after.cc.cy, ..m.cc })
            &&& op is Cma ==> after.cc == m.cc
            &&& (op is Ana || op is Xra || op is Ora || op is Ani || op is Xri || op is Ori)
                ==> !after.cc.cy
            &&& (op is Compare || op is Cpi) ==> after.a == m.a
            &&& op matches Logical::Compare(r) ==> after.cc == m.with_alu(AluOp::Sub, m.reg(r)).cc
            &&& op is Cpi ==> after.cc == m.with_alu(AluOp::Sub, lo).cc
        },
{
    reveal(logical_spec);
    reveal(arithmetic_spec);
}

/// The slots of the opcode table that name no instruction of their own stand for
/// another one: seven of them for NOP, two for RET and three for CALL.
pub proof fn law_opcode_aliases()
    ensures
        decode_spec(0x00) == Instruction::Control(Control::Nop),
        decode_spec(0x08) == decode_spec(0x00),
        decode_spec(0x10) == decode_spec(0x00),
        decode_spec(0x18) == decode_spec(0x00),
        decode_spec(0x20) == decode_spec(0x00),
        decode_spec(0x28) == decode_spec(0x00),
        decode_spec(0x30) == decode_spec(0x00),
        decode_spec(0x38) == decode_spec(0x00),
        decode_spec(0xc9) == Instruction::Branch(Branch::Ret),
        decode_spec(0xcb) == decode_spec(0xc9),
        decode_spec(0xd9) == decode_spec(0xc9),
        decode_spec(0xcd) == Instruction::Branch(Branch::Call),
        decode_spec(0xdd) == decode_spec(0xcd),
        decode_spec(0xed) == decode_spec(0xcd),
        decode_spec(0xfd) == decode_spec(0xcd),
{
}

/// A no-op, under any of its opcodes, changes nothing but the program counter,
/// which moves on by 1.
pub proof fn law_nop(m: Machine, lo: u8, hi: u8)
    ensures
        execute_spec(m, Instruction::Control(Control::Nop), lo, hi) == Ok::<Machine, Fault>(
            m.at(wrap16(m.pc + 1)),
        ),
{
    reveal(control_spec);
}

} // verus!
