//! The instruction set and the decoder that maps every opcode byte to an instruction.
//!
//! An opcode byte is laid out in three fields: bits 7-6 select the group, bits 5-3
//! name a destination, an operation or a condition, and bits 2-0 name a source. The
//! decoder is a table with one entry for each of the 256 byte values; it is proved to
//! agree with the field layout, so no byte is left without an instruction.

use vstd::prelude::*;
use crate::flags::Condition;

verus! {

/// An 8-bit operand: a register, or the memory byte addressed by HL.
#[derive(Clone, Copy, Debug, PartialEq, Eq, Structural)]
pub enum Reg {
    B,
    C,
    D,
    E,
    H,
    L,
    /// The byte in memory at the address held in HL.
    M,
    A,
}

/// A 16-bit operand of LXI, INX, DCX and DAD.
#[derive(Clone, Copy, Debug, PartialEq, Eq, Structural)]
pub enum RegPair {
    BC,
    DE,
    HL,
    SP,
}

/// A register pair that LDAX and STAX can take as an address.
#[derive(Clone, Copy, Debug, PartialEq, Eq, Structural)]
pub enum IndexPair {
    BC,
    DE,
}

/// A 16-bit operand of PUSH and POP.
#[derive(Clone, Copy, Debug, PartialEq, Eq, Structural)]
pub enum StackPair {
    BC,
    DE,
    HL,
    /// The accumulator and the flag byte.
    PSW,
}

/// Data transfer instructions. No flag is touched by any of them.
#[derive(Clone, Copy, Debug, PartialEq, Eq, Structural)]
pub enum Transfer {
    /// Copy between 8-bit operands: destination first, source second.
    Mov(Reg, Reg),
    /// Load an 8-bit operand with the immediate byte.
    Mvi(Reg),
    /// Load a 16-bit operand with the immediate word.
    Lxi(RegPair),
    /// Load the accumulator from the immediate address.
    Lda,
    /// Store the accumulator at the immediate address.
    Sta,
    /// Load the accumulator from the address in a register pair.
    Ldax(IndexPair),
    /// Store the accumulator at the address in a register pair.
    Stax(IndexPair),
    /// Load H:L from the immediate address.
    Lhld,
    /// Store H:L at the immediate address.
    Shld,
    /// Swap H:L with D:E.
    Xchg,
}

/// Arithmetic instructions.
#[derive(Clone, Copy, Debug, PartialEq, Eq, Structural)]
pub enum Arithmetic {
    Add(Reg),
    Adc(Reg),
    Sub(Reg),
    Sbb(Reg),
    /// ADD with the immediate byte.
    Adi,
    /// ADC with the immediate byte.
    Aci,
    /// SUB with the immediate byte.
    Sui,
    /// SBB with the immediate byte.
    Sbi,
    Inr(Reg),
    Dcr(Reg),
    Inx(RegPair),
    Dcx(RegPair),
    Dad(RegPair),
    Daa,
}

/// Logical instructions: bitwise operations, comparison, rotations and the
/// operations on the carry flag.
#[derive(Clone, Copy, Debug, PartialEq, Eq, Structural)]
pub enum Logical {
    Ana(Reg),
    Xra(Reg),
    Ora(Reg),
    /// CMP: compare the accumulator with an 8-bit operand.
    Compare(Reg),
    /// ANA with the immediate byte.
    Ani,
    /// XRA with the immediate byte.
    Xri,
    /// ORA with the immediate byte.
    Ori,
    /// CMP with the immediate byte.
    Cpi,
    Cma,
    Stc,
    Cmc,
    Rlc,
    Rrc,
    Ral,
    Rar,
}

/// Branch instructions: the ones that may set the program counter.
#[derive(Clone, Copy, Debug, PartialEq, Eq, Structural)]
pub enum Branch {
    Jmp,
    JmpIf(Condition),
    Call,
    CallIf(Condition),
    Ret,
    RetIf(Condition),
    /// Call of the fixed vector with this number, 0 to 7, at eight times the number.
    Rst(u8),
    /// Jump to the address in H:L.
    Pchl,
}

/// Stack instructions.
#[derive(Clone, Copy, Debug, PartialEq, Eq, Structural)]
pub enum StackOp {
    Push(StackPair),
    Pop(StackPair),
    /// Swap H:L with the word at the top of the stack.
    Xthl,
    /// Load the stack pointer from H:L.
    Sphl,
}

/// Control instructions.
#[derive(Clone, Copy, Debug, PartialEq, Eq, Structural)]
pub enum Control {
    Nop,
    Hlt,
    Ei,
    Di,
    /// Load the accumulator from the port named by the immediate byte.
    In,
    /// Put the accumulator on the port named by the immediate byte.
    Out,
}

/// A decoded instruction, by group. Immediate operands are not part of it: they
/// are the one or two bytes that follow the opcode.
#[derive(Clone, Copy, Debug, PartialEq, Eq, Structural)]
pub enum Instruction {
    Transfer(Transfer),
    Arithmetic(Arithmetic),
    Logical(Logical),
    Branch(Branch),
    Stack(StackOp),
    Control(Control),
}

/// The 8-bit operand named by a 3-bit field.
pub open spec fn reg_of(code: int) -> Reg {
    if code == 0 {
        Reg::B
    } else if code == 1 {
        Reg::C
    } else if code == 2 {
        Reg::D
    } else if code == 3 {
        Reg::E
    } else if code == 4 {
        Reg::H
    } else if code == 5 {
        Reg::L
    } else if code == 6 {
        Reg::M
    } else {
        Reg::A
    }
}

/// The register pair named by a 2-bit field.
pub open spec fn pair_of(code: int) -> RegPair {
    if code == 0 {
        RegPair::BC
    } else if code == 1 {
        RegPair::DE
    } else if code == 2 {
        RegPair::HL
    } else {
        RegPair::SP
    }
}

/// The PUSH/POP operand named by a 2-bit field.
pub open spec fn stack_pair_of(code: int) -> StackPair {
    if code == 0 {
        StackPair::BC
    } else if code == 1 {
        StackPair::DE
    } else if code == 2 {
        StackPair::HL
    } else {
        StackPair::PSW
    }
}

/// The operation between the accumulator and the 8-bit operand `r` that a 3-bit
/// field names.
pub open spec fn accumulator_op_of(code: int, r: Reg) -> Instruction {
    if code == 0 {
        Instruction::Arithmetic(Arithmetic::Add(r))
    } else if code == 1 {
        Instruction::Arithmetic(Arithmetic::Adc(r))
    } else if code == 2 {
        Instruction::Arithmetic(Arithmetic::Sub(r))
    } else if code == 3 {
        Instruction::Arithmetic(Arithmetic::Sbb(r))
    } else if code == 4 {
        Instruction::Logical(Logical::Ana(r))
    } else if code == 5 {
        Instruction::Logical(Logical::Xra(r))
    } else if code == 6 {
        Instruction::Logical(Logical::Ora(r))
    } else {
        Instruction::Logical(Logical::Compare(r))
    }
}

/// The operation between the accumulator and the immediate byte that a 3-bit
/// field names.
pub open spec fn immediate_op_of(code: int) -> Instruction {
    if code == 0 {
        Instruction::Arithmetic(Arithmetic::Adi)
    } else if code == 1 {
        Instruction::Arithmetic(Arithmetic::Aci)
    } else if code == 2 {
        Instruction::Arithmetic(Arithmetic::Sui)
    } else if code == 3 {
        Instruction::Arithmetic(Arithmetic::Sbi)
    } else if code == 4 {
        Instruction::Logical(Logical::Ani)
    } else if code == 5 {
        Instruction::Logical(Logical::Xri)
    } else if code == 6 {
        Instruction::Logical(Logical::Ori)
    } else {
        Instruction::Logical(Logical::Cpi)
    }
}

/// The branch condition named by a 3-bit field.
pub open spec fn condition_of(code: int) -> Condition {
    if code == 0 {
        Condition::NotZero
    } else if code == 1 {
        Condition::Zero
    } else if code == 2 {
        Condition::NoCarry
    } else if code == 3 {
        Condition::Carry
    } else if code == 4 {
        Condition::ParityOdd
    } else if code == 5 {
        Condition::ParityEven
    } else if code == 6 {
        Condition::Plus
    } else {
        Condition::Minus
    }
}

/// Opcodes 0x00 to 0x3F: loads, stores, 16-bit arithmetic, increments, rotations
/// and flag operations. `y` is bits 5-3 and `z` bits 2-0 of the opcode.
///
/// The seven slots 0x08, 0x10, ..., 0x38 are no-ops like 0x00.
pub open spec fn decode_low(y: int, z: int) -> Instruction {
    let p = y / 2;
    let q = y % 2;
    if z == 0 {
        Instruction::Control(Control::Nop)
    } else if z == 1 {
        if q == 0 {
            Instruction::Transfer(Transfer::Lxi(pair_of(p)))
        } else {
            Instruction::Arithmetic(Arithmetic::Dad(pair_of(p)))
        }
    } else if z == 2 {
        Instruction::Transfer(
            if p == 0 {
                if q == 0 {
                    Transfer::Stax(IndexPair::BC)
                } else {
                    Transfer::Ldax(IndexPair::BC)
                }
            } else if p == 1 {
                if q == 0 {
                    Transfer::Stax(IndexPair::DE)
                } else {
                    Transfer::Ldax(IndexPair::DE)
                }
            } else if p == 2 {
                if q == 0 {
                    Transfer::Shld
                } else {
                    Transfer::Lhld
                }
            } else {
                if q == 0 {
                    Transfer::Sta
                } else {
                    Transfer::Lda
                }
            },
        )
    } else if z == 3 {
        if q == 0 {
            Instruction::Arithmetic(Arithmetic::Inx(pair_of(p)))
        } else {
            Instruction::Arithmetic(Arithmetic::Dcx(pair_of(p)))
        }
    } else if z == 4 {
        Instruction::Arithmetic(Arithmetic::Inr(reg_of(y)))
    } else if z == 5 {
        Instruction::Arithmetic(Arithmetic::Dcr(reg_of(y)))
    } else if z == 6 {
        Instruction::Transfer(Transfer::Mvi(reg_of(y)))
    } else if y == 4 {
        Instruction::Arithmetic(Arithmetic::Daa)
    } else {
        Instruction::Logical(
            if y == 0 {
                Logical::Rlc
            } else if y == 1 {
                Logical::Rrc
            } else if y == 2 {
                Logical::Ral
            } else if y == 3 {
                Logical::Rar
            } else if y == 5 {
                Logical::Cma
            } else if y == 6 {
                Logical::Stc
            } else {
                Logical::Cmc
            },
        )
    }
}

/// Opcodes 0xC0 to 0xFF: branches, stack operations, immediates and control. `y`
/// is bits 5-3 and `z` bits 2-0 of the opcode.
///
/// The slots that name no instruction of their own act as another one: 0xCB and
/// 0xD9 return like 0xC9, and 0xDD, 0xED and 0xFD call like 0xCD.
pub open spec fn decode_high(y: int, z: int) -> Instruction {
    let p = y / 2;
    let q = y % 2;
    if z == 0 {
        Instruction::Branch(Branch::RetIf(condition_of(y)))
    } else if z == 1 {
        if q == 0 {
            Instruction::Stack(StackOp::Pop(stack_pair_of(p)))
        } else if p == 0 || p == 1 {
            Instruction::Branch(Branch::Ret)
        } else if p == 2 {
            Instruction::Branch(Branch::Pchl)
        } else {
            Instruction::Stack(StackOp::Sphl)
        }
    } else if z == 2 {
        Instruction::Branch(Branch::JmpIf(condition_of(y)))
    } else if z == 3 {
        if y == 0 {
            Instruction::Branch(Branch::Jmp)
        } else if y == 1 {
            Instruction::Branch(Branch::Ret)
        } else if y == 2 {
            Instruction::Control(Control::Out)
        } else if y == 3 {
            Instruction::Control(Control::In)
        } else if y == 4 {
            Instruction::Stack(StackOp::Xthl)
        } else if y == 5 {
            Instruction::Transfer(Transfer::Xchg)
        } else if y == 6 {
            Instruction::Control(Control::Di)
        } else {
            Instruction::Control(Control::Ei)
        }
    } else if z == 4 {
        Instruction::Branch(Branch::CallIf(condition_of(y)))
    } else if z == 5 {
        if q == 0 {
            Instruction::Stack(StackOp::Push(stack_pair_of(p)))
        } else {
            Instruction::Branch(Branch::Call)
        }
    } else if z == 6 {
        immediate_op_of(y)
    } else {
        Instruction::Branch(Branch::Rst(y as u8))
    }
}

/// The instruction that an opcode byte stands for, read off its three fields:
/// `x`, bits 7-6, selects the quarter of the table, `y` is bits 5-3 and `z` bits
/// 2-0.
///
/// Every byte has one. In the second quarter the slot that would move memory to
/// memory, 0x76, halts.
pub open spec fn decode_spec(opcode: u8) -> Instruction {
    let x = opcode as int / 64;
    let y = (opcode as int / 8) % 8;
    let z = opcode as int % 8;
    if x == 0 {
        decode_low(y, z)
    } else if x == 1 {
        if opcode == 0x76 {
            Instruction::Control(Control::Hlt)
        } else {
            Instruction::Transfer(Transfer::Mov(reg_of(y), reg_of(z)))
        }
    } else if x == 2 {
        accumulator_op_of(y, reg_of(z))
    } else {
        decode_high(y, z)
    }
}

impl Instruction {
    /// The number of immediate bytes that follow the opcode: 0, 1 or 2.
    pub open spec fn operand_len(self) -> nat {
        match self {
            Instruction::Transfer(
                Transfer::Lxi(_) | Transfer::Lda | Transfer::Sta | Transfer::Lhld | Transfer::Shld,
            ) => 2,
            Instruction::Branch(
                Branch::Jmp | Branch::JmpIf(_) | Branch::Call | Branch::CallIf(_),
            ) => 2,
            Instruction::Transfer(Transfer::Mvi(_)) => 1,
            Instruction::Arithmetic(
                Arithmetic::Adi | Arithmetic::Aci | Arithmetic::Sui | Arithmetic::Sbi,
            ) => 1,
            Instruction::Logical(Logical::Ani | Logical::Xri | Logical::Ori | Logical::Cpi) => 1,
            Instruction::Control(Control::In | Control::Out) => 1,
            _ => 0,
        }
    }

    /// The number of immediate bytes that follow the opcode.
    pub fn operand_count(&self) -> (n: u8)
        ensures
            n == self.operand_len(),
    {
        match self {
            Instruction::Transfer(
                Transfer::Lxi(_) | Transfer::Lda | Transfer::Sta | Transfer::Lhld | Transfer::Shld,
            ) => 2,
            Instruction::Branch(
                Branch::Jmp | Branch::JmpIf(_) | Branch::Call | Branch::CallIf(_),
            ) => 2,
            Instruction::Transfer(Transfer::Mvi(_)) => 1,
            Instruction::Arithmetic(
                Arithmetic::Adi | Arithmetic::Aci | Arithmetic::Sui | Arithmetic::Sbi,
            ) => 1,
            Instruction::Logical(Logical::Ani | Logical::Xri | Logical::Ori | Logical::Cpi) => 1,
            Instruction::Control(Control::In | Control::Out) => 1,
            _ => 0,
        }
    }

    /// The assembler mnemonic of the instruction, without its operands.
    pub open spec fn mnemonic_text(self) -> Seq<char> {
        match self {
            Instruction::Transfer(Transfer::Mov(_, _)) => "MOV"@,
            Instruction::Transfer(Transfer::Mvi(_)) => "MVI"@,
            Instruction::Transfer(Transfer::Lxi(_)) => "LXI"@,
            Instruction::Transfer(Transfer::Lda) => "LDA"@,
            Instruction::Transfer(Transfer::Sta) => "STA"@,
            Instruction::Transfer(Transfer::Ldax(_)) => "LDAX"@,
            Instruction::Transfer(Transfer::Stax(_)) => "STAX"@,
            Instruction::Transfer(Transfer::Lhld) => "LHLD"@,
            Instruction::Transfer(Transfer::Shld) => "SHLD"@,
            Instruction::Transfer(Transfer::Xchg) => "XCHG"@,
            Instruction::Arithmetic(Arithmetic::Add(_)) => "ADD"@,
            Instruction::Arithmetic(Arithmetic::Adc(_)) => "ADC"@,
            Instruction::Arithmetic(Arithmetic::Sub(_)) => "SUB"@,
            Instruction::Arithmetic(Arithmetic::Sbb(_)) => "SBB"@,
            Instruction::Arithmetic(Arithmetic::Adi) => "ADI"@,
            Instruction::Arithmetic(Arithmetic::Aci) => "ACI"@,
            Instruction::Arithmetic(Arithmetic::Sui) => "SUI"@,
            Instruction::Arithmetic(Arithmetic::Sbi) => "SBI"@,
            Instruction::Arithmetic(Arithmetic::Inr(_)) => "INR"@,
            Instruction::Arithmetic(Arithmetic::Dcr(_)) => "DCR"@,
            Instruction::Arithmetic(Arithmetic::Inx(_)) => "INX"@,
            Instruction::Arithmetic(Arithmetic::Dcx(_)) => "DCX"@,
            Instruction::Arithmetic(Arithmetic::Dad(_)) => "DAD"@,
            Instruction::Arithmetic(Arithmetic::Daa) => "DAA"@,
            Instruction::Logical(Logical::Ana(_)) => "ANA"@,
            Instruction::Logical(Logical::Xra(_)) => "XRA"@,
            Instruction::Logical(Logical::Ora(_)) => "ORA"@,
            Instruction::Logical(Logical::Compare(_)) => "CMP"@,
            Instruction::Logical(Logical::Ani) => "ANI"@,
            Instruction::Logical(Logical::Xri) => "XRI"@,
            Instruction::Logical(Logical::Ori) => "ORI"@,
            Instruction::Logical(Logical::Cpi) => "CPI"@,
            Instruction::Logical(Logical::Cma) => "CMA"@,
            Instruction::Logical(Logical::Stc) => "STC"@,
            Instruction::Logical(Logical::Cmc) => "CMC"@,
            Instruction::Logical(Logical::Rlc) => "RLC"@,
            Instruction::Logical(Logical::Rrc) => "RRC"@,
            Instruction::Logical(Logical::Ral) => "RAL"@,
            Instruction::Logical(Logical::Rar) => "RAR"@,
            Instruction::Stack(StackOp::Push(_)) => "PUSH"@,
            Instruction::Stack(StackOp::Pop(_)) => "POP"@,
            Instruction::Stack(StackOp::Xthl) => "XTHL"@,
            Instruction::Stack(StackOp::Sphl) => "SPHL"@,
            Instruction::Control(Control::Nop) => "NOP"@,
            Instruction::Control(Control::Hlt) => "HLT"@,
            Instruction::Control(Control::Ei) => "EI"@,
            Instruction::Control(Control::Di) => "DI"@,
            Instruction::Control(Control::In) => "IN"@,
            Instruction::Control(Control::Out) => "OUT"@,
            Instruction::Branch(Branch::Jmp) => "JMP"@,
            Instruction::Branch(Branch::Call) => "CALL"@,
            Instruction::Branch(Branch::Ret) => "RET"@,
            Instruction::Branch(Branch::Rst(_)) => "RST"@,
            Instruction::Branch(Branch::Pchl) => "PCHL"@,
            Instruction::Branch(Branch::JmpIf(Condition::NotZero)) => "JNZ"@,
            Instruction::Branch(Branch::JmpIf(Condition::Zero)) => "JZ"@,
            Instruction::Branch(Branch::JmpIf(Condition::NoCarry)) => "JNC"@,
            Instruction::Branch(Branch::JmpIf(Condition::Carry)) => "JC"@,
            Instruction::Branch(Branch::JmpIf(Condition::ParityOdd)) => "JPO"@,
            Instruction::Branch(Branch::JmpIf(Condition::ParityEven)) => "JPE"@,
            Instruction::Branch(Branch::JmpIf(Condition::Plus)) => "JP"@,
            Instruction::Branch(Branch::JmpIf(Condition::Minus)) => "JM"@,
            Instruction::Branch(Branch::CallIf(Condition::NotZero)) => "CNZ"@,
            Instruction::Branch(Branch::CallIf(Condition::Zero)) => "CZ"@,
            Instruction::Branch(Branch::CallIf(Condition::NoCarry)) => "CNC"@,
            Instruction::Branch(Branch::CallIf(Condition::Carry)) => "CC"@,
            Instruction::Branch(Branch::CallIf(Condition::ParityOdd)) => "CPO"@,
            Instruction::Branch(Branch::CallIf(Condition::ParityEven)) => "CPE"@,
            Instruction::Branch(Branch::CallIf(Condition::Plus)) => "CP"@,
            Instruction::Branch(Branch::CallIf(Condition::Minus)) => "CM"@,
            Instruction::Branch(Branch::RetIf(Condition::NotZero)) => "RNZ"@,
            Instruction::Branch(Branch::RetIf(Condition::Zero)) => "RZ"@,
            Instruction::Branch(Branch::RetIf(Condition::NoCarry)) => "RNC"@,
            Instruction::Branch(Branch::RetIf(Condition::Carry)) => "RC"@,
            Instruction::Branch(Branch::RetIf(Condition::ParityOdd)) => "RPO"@,
            Instruction::Branch(Branch::RetIf(Condition::ParityEven)) => "RPE"@,
            Instruction::Branch(Branch::RetIf(Condition::Plus)) => "RP"@,
            Instruction::Branch(Branch::RetIf(Condition::Minus)) => "RM"@,
        }
    }

    /// The assembler mnemonic of the instruction, without its operands.
    pub fn mnemonic(&self) -> (name: &'static str)
        ensures
            name@ == self.mnemonic_text(),
    {
        match self {
            Instruction::Transfer(Transfer::Mov(_, _)) => "MOV",
            Instruction::Transfer(Transfer::Mvi(_)) => "MVI",
            Instruction::Transfer(Transfer::Lxi(_)) => "LXI",
            Instruction::Transfer(Transfer::Lda) => "LDA",
            Instruction::Transfer(Transfer::Sta) => "STA",
            Instruction::Transfer(Transfer::Ldax(_)) => "LDAX",
            Instruction::Transfer(Transfer::Stax(_)) => "STAX",
            Instruction::Transfer(Transfer::Lhld) => "LHLD",
            Instruction::Transfer(Transfer::Shld) => "SHLD",
            Instruction::Transfer(Transfer::Xchg) => "XCHG",
            Instruction::Arithmetic(Arithmetic::Add(_)) => "ADD",
            Instruction::Arithmetic(Arithmetic::Adc(_)) => "ADC",
            Instruction::Arithmetic(Arithmetic::Sub(_)) => "SUB",
            Instruction::Arithmetic(Arithmetic::Sbb(_)) => "SBB",
            Instruction::Arithmetic(Arithmetic::Adi) => "ADI",
            Instruction::Arithmetic(Arithmetic::Aci) => "ACI",
            Instruction::Arithmetic(Arithmetic::Sui) => "SUI",
            Instruction::Arithmetic(Arithmetic::Sbi) => "SBI",
            Instruction::Arithmetic(Arithmetic::Inr(_)) => "INR",
            Instruction::Arithmetic(Arithmetic::Dcr(_)) => "DCR",
            Instruction::Arithmetic(Arithmetic::Inx(_)) => "INX",
            Instruction::Arithmetic(Arithmetic::Dcx(_)) => "DCX",
            Instruction::Arithmetic(Arithmetic::Dad(_)) => "DAD",
            Instruction::Arithmetic(Arithmetic::Daa) => "DAA",
            Instruction::Logical(Logical::Ana(_)) => "ANA",
            Instruction::Logical(Logical::Xra(_)) => "XRA",
            Instruction::Logical(Logical::Ora(_)) => "ORA",
            Instruction::Logical(Logical::Compare(_)) => "CMP",
            Instruction::Logical(Logical::Ani) => "ANI",
            Instruction::Logical(Logical::Xri) => "XRI",
            Instruction::Logical(Logical::Ori) => "ORI",
            Instruction::Logical(Logical::Cpi) => "CPI",
            Instruction::Logical(Logical::Cma) => "CMA",
            Instruction::Logical(Logical::Stc) => "STC",
            Instruction::Logical(Logical::Cmc) => "CMC",
            Instruction::Logical(Logical::Rlc) => "RLC",
            Instruction::Logical(Logical::Rrc) => "RRC",
            Instruction::Logical(Logical::Ral) => "RAL",
            Instruction::Logical(Logical::Rar) => "RAR",
            Instruction::Stack(StackOp::Push(_)) => "PUSH",
            Instruction::Stack(StackOp::Pop(_)) => "POP",
            Instruction::Stack(StackOp::Xthl) => "XTHL",
            Instruction::Stack(StackOp::Sphl) => "SPHL",
            Instruction::Control(Control::Nop) => "NOP",
            Instruction::Control(Control::Hlt) => "HLT",
            Instruction::Control(Control::Ei) => "EI",
            Instruction::Control(Control::Di) => "DI",
            Instruction::Control(Control::In) => "IN",
            Instruction::Control(Control::Out) => "OUT",
            Instruction::Branch(Branch::Jmp) => "JMP",
            Instruction::Branch(Branch::Call) => "CALL",
            Instruction::Branch(Branch::Ret) => "RET",
            Instruction::Branch(Branch::Rst(_)) => "RST",
            Instruction::Branch(Branch::Pchl) => "PCHL",
            Instruction::Branch(Branch::JmpIf(Condition::NotZero)) => "JNZ",
            Instruction::Branch(Branch::JmpIf(Condition::Zero)) => "JZ",
            Instruction::Branch(Branch::JmpIf(Condition::NoCarry)) => "JNC",
            Instruction::Branch(Branch::JmpIf(Condition::Carry)) => "JC",
            Instruction::Branch(Branch::JmpIf(Condition::ParityOdd)) => "JPO",
            Instruction::Branch(Branch::JmpIf(Condition::ParityEven)) => "JPE",
            Instruction::Branch(Branch::JmpIf(Condition::Plus)) => "JP",
            Instruction::Branch(Branch::JmpIf(Condition::Minus)) => "JM",
            Instruction::Branch(Branch::CallIf(Condition::NotZero)) => "CNZ",
            Instruction::Branch(Branch::CallIf(Condition::Zero)) => "CZ",
            Instruction::Branch(Branch::CallIf(Condition::NoCarry)) => "CNC",
            Instruction::Branch(Branch::CallIf(Condition::Carry)) => "CC",
            Instruction::Branch(Branch::CallIf(Condition::ParityOdd)) => "CPO",
            Instruction::Branch(Branch::CallIf(Condition::ParityEven)) => "CPE",
            Instruction::Branch(Branch::CallIf(Condition::Plus)) => "CP",
            Instruction::Branch(Branch::CallIf(Condition::Minus)) => "CM",
            Instruction::Branch(Branch::RetIf(Condition::NotZero)) => "RNZ",
            Instruction::Branch(Branch::RetIf(Condition::Zero)) => "RZ",
            Instruction::Branch(Branch::RetIf(Condition::NoCarry)) => "RNC",
            Instruction::Branch(Branch::RetIf(Condition::Carry)) => "RC",
            Instruction::Branch(Branch::RetIf(Condition::ParityOdd)) => "RPO",
            Instruction::Branch(Branch::RetIf(Condition::ParityEven)) => "RPE",
            Instruction::Branch(Branch::RetIf(Condition::Plus)) => "RP",
            Instruction::Branch(Branch::RetIf(Condition::Minus)) => "RM",
        }
    }
}

/// Looks an opcode byte up in the instruction table.
pub fn decode(opcode: u8) -> (instruction: Instruction)
    ensures
        instruction == decode_spec(opcode),
{
    match opcode {
        0x00 => Instruction::Control(Control::Nop),
        0x01 => Instruction::Transfer(Transfer::Lxi(RegPair::BC)),
        0x02 => Instruction::Transfer(Transfer::Stax(IndexPair::BC)),
        0x03 => Instruction::Arithmetic(Arithmetic::Inx(RegPair::BC)),
        0x04 => Instruction::Arithmetic(Arithmetic::Inr(Reg::B)),
        0x05 => Instruction::Arithmetic(Arithmetic::Dcr(Reg::B)),
        0x06 => Instruction::Transfer(Transfer::Mvi(Reg::B)),
        0x07 => Instruction::Logical(Logical::Rlc),
        0x08 => Instruction::Control(Control::Nop),
        0x09 => Instruction::Arithmetic(Arithmetic::Dad(RegPair::BC)),
        0x0a => Instruction::Transfer(Transfer::Ldax(IndexPair::BC)),
        0x0b => Instruction::Arithmetic(Arithmetic::Dcx(RegPair::BC)),
        0x0c => Instruction::Arithmetic(Arithmetic::Inr(Reg::C)),
        0x0d => Instruction::Arithmetic(Arithmetic::Dcr(Reg::C)),
        0x0e => Instruction::Transfer(Transfer::Mvi(Reg::C)),
        0x0f => Instruction::Logical(Logical::Rrc),
        0x10 => Instruction::Control(Control::Nop),
        0x11 => Instruction::Transfer(Transfer::Lxi(RegPair::DE)),
        0x12 => Instruction::Transfer(Transfer::Stax(IndexPair::DE)),
        0x13 => Instruction::Arithmetic(Arithmetic::Inx(RegPair::DE)),
        0x14 => Instruction::Arithmetic(Arithmetic::Inr(Reg::D)),
        0x15 => Instruction::Arithmetic(Arithmetic::Dcr(Reg::D)),
        0x16 => Instruction::Transfer(Transfer::Mvi(Reg::D)),
        0x17 => Instruction::Logical(Logical::Ral),
        0x18 => Instruction::Control(Control::Nop),
        0x19 => Instruction::Arithmetic(Arithmetic::Dad(RegPair::DE)),
        0x1a => Instruction::Transfer(Transfer::Ldax(IndexPair::DE)),
        0x1b => Instruction::Arithmetic(Arithmetic::Dcx(RegPair::DE)),
        0x1c => Instruction::Arithmetic(Arithmetic::Inr(Reg::E)),
        0x1d => Instruction::Arithmetic(Arithmetic::Dcr(Reg::E)),
        0x1e => Instruction::Transfer(Transfer::Mvi(Reg::E)),
        0x1f => Instruction::Logical(Logical::Rar),
        0x20 => Instruction::Control(Control::Nop),
        0x21 => Instruction::Transfer(Transfer::Lxi(RegPair::HL)),
        0x22 => Instruction::Transfer(Transfer::Shld),
        0x23 => Instruction::Arithmetic(Arithmetic::Inx(RegPair::HL)),
        0x24 => Instruction::Arithmetic(Arithmetic::Inr(Reg::H)),
        0x25 => Instruction::Arithmetic(Arithmetic::Dcr(Reg::H)),
        0x26 => Instruction::Transfer(Transfer::Mvi(Reg::H)),
        0x27 => Instruction::Arithmetic(Arithmetic::Daa),
        0x28 => Instruction::Control(Control::Nop),
        0x29 => Instruction::Arithmetic(Arithmetic::Dad(RegPair::HL)),
        0x2a => Instruction::Transfer(Transfer::Lhld),
        0x2b => Instruction::Arithmetic(Arithmetic::Dcx(RegPair::HL)),
        0x2c => Instruction::Arithmetic(Arithmetic::Inr(Reg::L)),
        0x2d => Instruction::Arithmetic(Arithmetic::Dcr(Reg::L)),
        0x2e => Instruction::Transfer(Transfer::Mvi(Reg::L)),
        0x2f => Instruction::Logical(Logical::Cma),
        0x30 => Instruction::Control(Control::Nop),
        0x31 => Instruction::Transfer(Transfer::Lxi(RegPair::SP)),
        0x32 => Instruction::Transfer(Transfer::Sta),
        0x33 => Instruction::Arithmetic(Arithmetic::Inx(RegPair::SP)),
        0x34 => Instruction::Arithmetic(Arithmetic::Inr(Reg::M)),
        0x35 => Instruction::Arithmetic(Arithmetic::Dcr(Reg::M)),
        0x36 => Instruction::Transfer(Transfer::Mvi(Reg::M)),
        0x37 => Instruction::Logical(Logical::Stc),
        0x38 => Instruction::Control(Control::Nop),
        0x39 => Instruction::Arithmetic(Arithmetic::Dad(RegPair::SP)),
        0x3a => Instruction::Transfer(Transfer::Lda),
        0x3b => Instruction::Arithmetic(Arithmetic::Dcx(RegPair::SP)),
        0x3c => Instruction::Arithmetic(Arithmetic::Inr(Reg::A)),
        0x3d => Instruction::Arithmetic(Arithmetic::Dcr(Reg::A)),
        0x3e => Instruction::Transfer(Transfer::Mvi(Reg::A)),
        0x3f => Instruction::Logical(Logical::Cmc),
        0x40 => Instruction::Transfer(Transfer::Mov(Reg::B, Reg::B)),
        0x41 => Instruction::Transfer(Transfer::Mov(Reg::B, Reg::C)),
        0x42 => Instruction::Transfer(Transfer::Mov(Reg::B, Reg::D)),
        0x43 => Instruction::Transfer(Transfer::Mov(Reg::B, Reg::E)),
        0x44 => Instruction::Transfer(Transfer::Mov(Reg::B, Reg::H)),
        0x45 => Instruction::Transfer(Transfer::Mov(Reg::B, Reg::L)),
        0x46 => Instruction::Transfer(Transfer::Mov(Reg::B, Reg::M)),
        0x47 => Instruction::Transfer(Transfer::Mov(Reg::B, Reg::A)),
        0x48 => Instruction::Transfer(Transfer::Mov(Reg::C, Reg::B)),
        0x49 => Instruction::Transfer(Transfer::Mov(Reg::C, Reg::C)),
        0x4a => Instruction::Transfer(Transfer::Mov(Reg::C, Reg::D)),
        0x4b => Instruction::Transfer(Transfer::Mov(Reg::C, Reg::E)),
        0x4c => Instruction::Transfer(Transfer::Mov(Reg::C, Reg::H)),
        0x4d => Instruction::Transfer(Transfer::Mov(Reg::C, Reg::L)),
        0x4e => Instruction::Transfer(Transfer::Mov(Reg::C, Reg::M)),
        0x4f => Instruction::Transfer(Transfer::Mov(Reg::C, Reg::A)),
        0x50 => Instruction::Transfer(Transfer::Mov(Reg::D, Reg::B)),
        0x51 => Instruction::Transfer(Transfer::Mov(Reg::D, Reg::C)),
        0x52 => Instruction::Transfer(Transfer::Mov(Reg::D, Reg::D)),
        0x53 => Instruction::Transfer(Transfer::Mov(Reg::D, Reg::E)),
        0x54 => Instruction::Transfer(Transfer::Mov(Reg::D, Reg::H)),
        0x55 => Instruction::Transfer(Transfer::Mov(Reg::D, Reg::L)),
        0x56 => Instruction::Transfer(Transfer::Mov(Reg::D, Reg::M)),
        0x57 => Instruction::Transfer(Transfer::Mov(Reg::D, Reg::A)),
        0x58 => Instruction::Transfer(Transfer::Mov(Reg::E, Reg::B)),
        0x59 => Instruction::Transfer(Transfer::Mov(Reg::E, Reg::C)),
        0x5a => Instruction::Transfer(Transfer::Mov(Reg::E, Reg::D)),
        0x5b => Instruction::Transfer(Transfer::Mov(Reg::E, Reg::E)),
        0x5c => Instruction::Transfer(Transfer::Mov(Reg::E, Reg::H)),
        0x5d => Instruction::Transfer(Transfer::Mov(Reg::E, Reg::L)),
        0x5e => Instruction::Transfer(Transfer::Mov(Reg::E, Reg::M)),
        0x5f => Instruction::Transfer(Transfer::Mov(Reg::E, Reg::A)),
        0x60 => Instruction::Transfer(Transfer::Mov(Reg::H, Reg::B)),
        0x61 => Instruction::Transfer(Transfer::Mov(Reg::H, Reg::C)),
        0x62 => Instruction::Transfer(Transfer::Mov(Reg::H, Reg::D)),
        0x63 => Instruction::Transfer(Transfer::Mov(Reg::H, Reg::E)),
        0x64 => Instruction::Transfer(Transfer::Mov(Reg::H, Reg::H)),
        0x65 => Instruction::Transfer(Transfer::Mov(Reg::H, Reg::L)),
        0x66 => Instruction::Transfer(Transfer::Mov(Reg::H, Reg::M)),
        0x67 => Instruction::Transfer(Transfer::Mov(Reg::H, Reg::A)),
        0x68 => Instruction::Transfer(Transfer::Mov(Reg::L, Reg::B)),
        0x69 => Instruction::Transfer(Transfer::Mov(Reg::L, Reg::C)),
        0x6a => Instruction::Transfer(Transfer::Mov(Reg::L, Reg::D)),
        0x6b => Instruction::Transfer(Transfer::Mov(Reg::L, Reg::E)),
        0x6c => Instruction::Transfer(Transfer::Mov(Reg::L, Reg::H)),
        0x6d => Instruction::Transfer(Transfer::Mov(Reg::L, Reg::L)),
        0x6e => Instruction::Transfer(Transfer::Mov(Reg::L, Reg::M)),
        0x6f => Instruction::Transfer(Transfer::Mov(Reg::L, Reg::A)),
        0x70 => Instruction::Transfer(Transfer::Mov(Reg::M, Reg::B)),
        0x71 => Instruction::Transfer(Transfer::Mov(Reg::M, Reg::C)),
        0x72 => Instruction::Transfer(Transfer::Mov(Reg::M, Reg::D)),
        0x73 => Instruction::Transfer(Transfer::Mov(Reg::M, Reg::E)),
        0x74 => Instruction::Transfer(Transfer::Mov(Reg::M, Reg::H)),
        0x75 => Instruction::Transfer(Transfer::Mov(Reg::M, Reg::L)),
        0x76 => Instruction::Control(Control::Hlt),
        0x77 => Instruction::Transfer(Transfer::Mov(Reg::M, Reg::A)),
        0x78 => Instruction::Transfer(Transfer::Mov(Reg::A, Reg::B)),
        0x79 => Instruction::Transfer(Transfer::Mov(Reg::A, Reg::C)),
        0x7a => Instruction::Transfer(Transfer::Mov(Reg::A, Reg::D)),
        0x7b => Instruction::Transfer(Transfer::Mov(Reg::A, Reg::E)),
        0x7c => Instruction::Transfer(Transfer::Mov(Reg::A, Reg::H)),
        0x7d => Instruction::Transfer(Transfer::Mov(Reg::A, Reg::L)),
        0x7e => Instruction::Transfer(Transfer::Mov(Reg::A, Reg::M)),
        0x7f => Instruction::Transfer(Transfer::Mov(Reg::A, Reg::A)),
        0x80 => Instruction::Arithmetic(Arithmetic::Add(Reg::B)),
        0x81 => Instruction::Arithmetic(Arithmetic::Add(Reg::C)),
        0x82 => Instruction::Arithmetic(Arithmetic::Add(Reg::D)),
        0x83 => Instruction::Arithmetic(Arithmetic::Add(Reg::E)),
        0x84 => Instruction::Arithmetic(Arithmetic::Add(Reg::H)),
        0x85 => Instruction::Arithmetic(Arithmetic::Add(Reg::L)),
        0x86 => Instruction::Arithmetic(Arithmetic::Add(Reg::M)),
        0x87 => Instruction::Arithmetic(Arithmetic::Add(Reg::A)),
        0x88 => Instruction::Arithmetic(Arithmetic::Adc(Reg::B)),
        0x89 => Instruction::Arithmetic(Arithmetic::Adc(Reg::C)),
        0x8a => Instruction::Arithmetic(Arithmetic::Adc(Reg::D)),
        0x8b => Instruction::Arithmetic(Arithmetic::Adc(Reg::E)),
        0x8c => Instruction::Arithmetic(Arithmetic::Adc(Reg::H)),
        0x8d => Instruction::Arithmetic(Arithmetic::Adc(Reg::L)),
        0x8e => Instruction::Arithmetic(Arithmetic::Adc(Reg::M)),
        0x8f => Instruction::Arithmetic(Arithmetic::Adc(Reg::A)),
        0x90 => Instruction::Arithmetic(Arithmetic::Sub(Reg::B)),
        0x91 => Instruction::Arithmetic(Arithmetic::Sub(Reg::C)),
        0x92 => Instruction::Arithmetic(Arithmetic::Sub(Reg::D)),
        0x93 => Instruction::Arithmetic(Arithmetic::Sub(Reg::E)),
        0x94 => Instruction::Arithmetic(Arithmetic::Sub(Reg::H)),
        0x95 => Instruction::Arithmetic(Arithmetic::Sub(Reg::L)),
        0x96 => Instruction::Arithmetic(Arithmetic::Sub(Reg::M)),
        0x97 => Instruction::Arithmetic(Arithmetic::Sub(Reg::A)),
        0x98 => Instruction::Arithmetic(Arithmetic::Sbb(Reg::B)),
        0x99 => Instruction::Arithmetic(Arithmetic::Sbb(Reg::C)),
        0x9a => Instruction::Arithmetic(Arithmetic::Sbb(Reg::D)),
        0x9b => Instruction::Arithmetic(Arithmetic::Sbb(Reg::E)),
        0x9c => Instruction::Arithmetic(Arithmetic::Sbb(Reg::H)),
        0x9d => Instruction::Arithmetic(Arithmetic::Sbb(Reg::L)),
        0x9e => Instruction::Arithmetic(Arithmetic::Sbb(Reg::M)),
        0x9f => Instruction::Arithmetic(Arithmetic::Sbb(Reg::A)),
        0xa0 => Instruction::Logical(Logical::Ana(Reg::B)),
        0xa1 => Instruction::Logical(Logical::Ana(Reg::C)),
        0xa2 => Instruction::Logical(Logical::Ana(Reg::D)),
        0xa3 => Instruction::Logical(Logical::Ana(Reg::E)),
        0xa4 => Instruction::Logical(Logical::Ana(Reg::H)),
        0xa5 => Instruction::Logical(Logical::Ana(Reg::L)),
        0xa6 => Instruction::Logical(Logical::Ana(Reg::M)),
        0xa7 => Instruction::Logical(Logical::Ana(Reg::A)),
        0xa8 => Instruction::Logical(Logical::Xra(Reg::B)),
        0xa9 => Instruction::Logical(Logical::Xra(Reg::C)),
        0xaa => Instruction::Logical(Logical::Xra(Reg::D)),
        0xab => Instruction::Logical(Logical::Xra(Reg::E)),
        0xac => Instruction::Logical(Logical::Xra(Reg::H)),
        0xad => Instruction::Logical(Logical::Xra(Reg::L)),
        0xae => Instruction::Logical(Logical::Xra(Reg::M)),
        0xaf => Instruction::Logical(Logical::Xra(Reg::A)),
        0xb0 => Instruction::Logical(Logical::Ora(Reg::B)),
        0xb1 => Instruction::Logical(Logical::Ora(Reg::C)),
        0xb2 => Instruction::Logical(Logical::Ora(Reg::D)),
        0xb3 => Instruction::Logical(Logical::Ora(Reg::E)),
        0xb4 => Instruction::Logical(Logical::Ora(Reg::H)),
        0xb5 => Instruction::Logical(Logical::Ora(Reg::L)),
        0xb6 => Instruction::Logical(Logical::Ora(Reg::M)),
        0xb7 => Instruction::Logical(Logical::Ora(Reg::A)),
        0xb8 => Instruction::Logical(Logical::Compare(Reg::B)),
        0xb9 => Instruction::Logical(Logical::Compare(Reg::C)),
        0xba => Instruction::Logical(Logical::Compare(Reg::D)),
        0xbb => Instruction::Logical(Logical::Compare(Reg::E)),
        0xbc => Instruction::Logical(Logical::Compare(Reg::H)),
        0xbd => Instruction::Logical(Logical::Compare(Reg::L)),
        0xbe => Instruction::Logical(Logical::Compare(Reg::M)),
        0xbf => Instruction::Logical(Logical::Compare(Reg::A)),
        0xc0 => Instruction::Branch(Branch::RetIf(Condition::NotZero)),
        0xc1 => Instruction::Stack(StackOp::Pop(StackPair::BC)),
        0xc2 => Instruction::Branch(Branch::JmpIf(Condition::NotZero)),
        0xc3 => Instruction::Branch(Branch::Jmp),
        0xc4 => Instruction::Branch(Branch::CallIf(Condition::NotZero)),
        0xc5 => Instruction::Stack(StackOp::Push(StackPair::BC)),
        0xc6 => Instruction::Arithmetic(Arithmetic::Adi),
        0xc7 => Instruction::Branch(Branch::Rst(0)),
        0xc8 => Instruction::Branch(Branch::RetIf(Condition::Zero)),
        0xc9 => Instruction::Branch(Branch::Ret),
        0xca => Instruction::Branch(Branch::JmpIf(Condition::Zero)),
        0xcb => Instruction::Branch(Branch::Ret),
        0xcc => Instruction::Branch(Branch::CallIf(Condition::Zero)),
        0xcd => Instruction::Branch(Branch::Call),
        0xce => Instruction::Arithmetic(Arithmetic::Aci),
        0xcf => Instruction::Branch(Branch::Rst(1)),
        0xd0 => Instruction::Branch(Branch::RetIf(Condition::NoCarry)),
        0xd1 => Instruction::Stack(StackOp::Pop(StackPair::DE)),
        0xd2 => Instruction::Branch(Branch::JmpIf(Condition::NoCarry)),
        0xd3 => Instruction::Control(Control::Out),
        0xd4 => Instruction::Branch(Branch::CallIf(Condition::NoCarry)),
        0xd5 => Instruction::Stack(StackOp::Push(StackPair::DE)),
        0xd6 => Instruction::Arithmetic(Arithmetic::Sui),
        0xd7 => Instruction::Branch(Branch::Rst(2)),
        0xd8 => Instruction::Branch(Branch::RetIf(Condition::Carry)),
        0xd9 => Instruction::Branch(Branch::Ret),
        0xda => Instruction::Branch(Branch::JmpIf(Condition::Carry)),
        0xdb => Instruction::Control(Control::In),
        0xdc => Instruction::Branch(Branch::CallIf(Condition::Carry)),
        0xdd => Instruction::Branch(Branch::Call),
        0xde => Instruction::Arithmetic(Arithmetic::Sbi),
        0xdf => Instruction::Branch(Branch::Rst(3)),
        0xe0 => Instruction::Branch(Branch::RetIf(Condition::ParityOdd)),
        0xe1 => Instruction::Stack(StackOp::Pop(StackPair::HL)),
        0xe2 => Instruction::Branch(Branch::JmpIf(Condition::ParityOdd)),
        0xe3 => Instruction::Stack(StackOp::Xthl),
        0xe4 => Instruction::Branch(Branch::CallIf(Condition::ParityOdd)),
        0xe5 => Instruction::Stack(StackOp::Push(StackPair::HL)),
        0xe6 => Instruction::Logical(Logical::Ani),
        0xe7 => Instruction::Branch(Branch::Rst(4)),
        0xe8 => Instruction::Branch(Branch::RetIf(Condition::ParityEven)),
        0xe9 => Instruction::Branch(Branch::Pchl),
        0xea => Instruction::Branch(Branch::JmpIf(Condition::ParityEven)),
        0xeb => Instruction::Transfer(Transfer::Xchg),
        0xec => Instruction::Branch(Branch::CallIf(Condition::ParityEven)),
        0xed => Instruction::Branch(Branch::Call),
        0xee => Instruction::Logical(Logical::Xri),
        0xef => Instruction::Branch(Branch::Rst(5)),
        0xf0 => Instruction::Branch(Branch::RetIf(Condition::Plus)),
        0xf1 => Instruction::Stack(StackOp::Pop(StackPair::PSW)),
        0xf2 => Instruction::Branch(Branch::JmpIf(Condition::Plus)),
        0xf3 => Instruction::Control(Control::Di),
        0xf4 => Instruction::Branch(Branch::CallIf(Condition::Plus)),
        0xf5 => Instruction::Stack(StackOp::Push(StackPair::PSW)),
        0xf6 => Instruction::Logical(Logical::Ori),
        0xf7 => Instruction::Branch(Branch::Rst(6)),
        0xf8 => Instruction::Branch(Branch::RetIf(Condition::Minus)),
        0xf9 => Instruction::Stack(StackOp::Sphl),
        0xfa => Instruction::Branch(Branch::JmpIf(Condition::Minus)),
        0xfb => Instruction::Control(Control::Ei),
        0xfc => Instruction::Branch(Branch::CallIf(Condition::Minus)),
        0xfd => Instruction::Branch(Branch::Call),
        0xfe => Instruction::Logical(Logical::Cpi),
        0xff => Instruction::Branch(Branch::Rst(7)),
    }
}

} // verus!
