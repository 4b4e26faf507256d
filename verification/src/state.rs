//! The processor state that the interpreter runs on: registers, flags, memory and
//! ports, owned as one value.

use vstd::prelude::*;
use crate::flags::ConditionCodes;
use crate::machine::{Fault, Machine, Status};
use crate::memory::{high_byte, low_byte, make_word, with_block_at, Memory};
use crate::text::{decimal, push_decimal};

verus! {

/// The state of an 8080 processor together with its memory image and port table.
#[derive(Clone, Debug)]
pub struct State8080 {
    pub a: u8,
    pub b: u8,
    pub c: u8,
    pub d: u8,
    pub e: u8,
    pub h: u8,
    pub l: u8,
    /// Stack pointer.
    pub sp: u16,
    /// Program counter: the address of the next instruction.
    pub pc: u16,
    pub memory: Memory,
    pub cc: ConditionCodes,
    /// Whether interrupts are enabled (set by EI, cleared by DI).
    pub int_enable: bool,
    pub status: Status,
    /// The values that IN reads and OUT writes, one for each port number.
    pub ports: [u8; 256],
}

impl View for State8080 {
    type V = Machine;

    open spec fn view(&self) -> Machine {
        Machine {
            a: self.a,
            b: self.b,
            c: self.c,
            d: self.d,
            e: self.e,
            h: self.h,
            l: self.l,
            sp: self.sp,
            pc: self.pc,
            cc: self.cc,
            int_enable: self.int_enable,
            status: self.status,
            memory: self.memory@,
            ports: self.ports@,
        }
    }
}

/// The state in which a run starts: registers, flags and ports zero, interrupts
/// disabled, the processor running, and `memory` as the memory image.
pub open spec fn initial(memory: Seq<u8>) -> Machine {
    Machine {
        a: 0,
        b: 0,
        c: 0,
        d: 0,
        e: 0,
        h: 0,
        l: 0,
        sp: 0,
        pc: 0,
        cc: ConditionCodes { z: false, s: false, p: false, cy: false, ac: false },
        int_enable: false,
        status: Status::Running,
        memory,
        ports: Seq::new(256, |i: int| 0u8),
    }
}

/// The diagnostic line for a state: the registers, the stack pointer, the program
/// counter and the size of the memory image, each as a label and a decimal number.
pub open spec fn dump_spec(m: Machine) -> Seq<char> {
    "a:"@ + decimal(m.a as nat) + " b:"@ + decimal(m.b as nat) + " c:"@ + decimal(m.c as nat)
        + " d:"@ + decimal(m.d as nat) + " e:"@ + decimal(m.e as nat) + " h:"@ + decimal(
        m.h as nat,
    ) + " l:"@ + decimal(m.l as nat) + " sp:"@ + decimal(m.sp as nat) + " pc:"@ + decimal(
        m.pc as nat,
    ) + " memory size:"@ + decimal(m.memory.len())
}

impl State8080 {
    /// A line of text for diagnostics: the registers, the stack pointer, the
    /// program counter and the size of the memory image.
    pub fn dump_state(&self) -> (s: String)
        ensures
            s@ == dump_spec(self@),
    {
        let mut s = String::from_str("a:");
        push_decimal(&mut s, self.a as u64);
        s.append(" b:");
        push_decimal(&mut s, self.b as u64);
        s.append(" c:");
        push_decimal(&mut s, self.c as u64);
        s.append(" d:");
        push_decimal(&mut s, self.d as u64);
        s.append(" e:");
        push_decimal(&mut s, self.e as u64);
        s.append(" h:");
        push_decimal(&mut s, self.h as u64);
        s.append(" l:");
        push_decimal(&mut s, self.l as u64);
        s.append(" sp:");
        push_decimal(&mut s, self.sp as u64);
        s.append(" pc:");
        push_decimal(&mut s, self.pc as u64);
        s.append(" memory size:");
        push_decimal(&mut s, self.memory.size() as u64);
        s
    }

    /// A processor at rest with a zero-filled memory image of `memory_size` bytes.
    pub fn new(memory_size: usize) -> (state: State8080)
        ensures
            state@ == initial(Seq::new(memory_size as nat, |i: int| 0u8)),
    {
        State8080::with_memory(Memory::new(memory_size))
    }

    /// A processor at rest on the given memory image.
    pub fn with_memory(memory: Memory) -> (state: State8080)
        ensures
            state@ == initial(memory@),
    {
        let state = State8080 {
            a: 0,
            b: 0,
            c: 0,
            d: 0,
            e: 0,
            h: 0,
            l: 0,
            sp: 0,
            pc: 0,
            memory,
            cc: ConditionCodes::new(),
            int_enable: false,
            status: Status::Running,
            ports: [0u8; 256],
        };
        assert(state.ports@ =~= Seq::new(256, |i: int| 0u8));
        state
    }

    /// Sets the zero flag from a result: set when the result byte is 0.
    pub fn set_zero_flag(&mut self, result: u16)
        ensures
            final(self)@ == (Machine {
                cc: ConditionCodes { z: result % 256 == 0, ..old(self).cc },
                ..old(self)@
            }),
    {
        self.cc.z = result % 256 == 0;
    }

    /// Sets the sign flag from a result: set when bit 7 of the result is set.
    pub fn set_sign_flag(&mut self, result: u16)
        ensures
            final(self)@ == (Machine {
                cc: ConditionCodes { s: result % 256 >= 128, ..old(self).cc },
                ..old(self)@
            }),
    {
        self.cc.s = result % 256 >= 128;
    }

    /// Sets the carry flag from the untruncated result of an 8-bit operation: set
    /// when the result does not fit in a byte.
    pub fn set_carry_flag(&mut self, result: u16)
        ensures
            final(self)@ == (Machine {
                cc: ConditionCodes { cy: result > 0xff, ..old(self).cc },
                ..old(self)@
            }),
    {
        self.cc.cy = result > 0xff;
    }

    /// Sets the carry flag from the untruncated result of a 16-bit operation: set
    /// when the result does not fit in a word.
    pub fn set_carry_flag_double(&mut self, result: u32)
        ensures
            final(self)@ == (Machine {
                cc: ConditionCodes { cy: result > 0xffff, ..old(self).cc },
                ..old(self)@
            }),
    {
        self.cc.cy = result > 0xffff;
    }

    /// The register pair B:C as one word, B high.
    pub fn get_bc(&self) -> (bc: u16)
        ensures
            bc == self@.bc(),
    {
        make_word(self.b, self.c)
    }

    /// The register pair D:E as one word, D high.
    pub fn get_de(&self) -> (de: u16)
        ensures
            de == self@.de(),
    {
        make_word(self.d, self.e)
    }

    /// The register pair H:L as one word, H high.
    pub fn get_hl(&self) -> (hl: u16)
        ensures
            hl == self@.hl(),
    {
        make_word(self.h, self.l)
    }

    /// Stores a word in B:C, high byte in B.
    pub fn set_bc(&mut self, value: u16)
        ensures
            final(self)@ == old(self)@.with_bc(value),
    {
        self.b = high_byte(value);
        self.c = low_byte(value);
    }

    /// Stores a word in D:E, high byte in D.
    pub fn set_de(&mut self, value: u16)
        ensures
            final(self)@ == old(self)@.with_de(value),
    {
        self.d = high_byte(value);
        self.e = low_byte(value);
    }

    /// Stores a word in H:L, high byte in H.
    pub fn set_hl(&mut self, value: u16)
        ensures
            final(self)@ == old(self)@.with_hl(value),
    {
        self.h = high_byte(value);
        self.l = low_byte(value);
    }

    /// The fault to report for the instruction at the program counter.
    pub fn fault(&self) -> (fault: Fault)
        ensures
            fault == self@.fault(),
    {
        let opcode: Option<u8> = match self.memory.read_byte(self.pc) {
            Ok(byte) => Some(byte),
            Err(_) => None,
        };
        Fault::OutOfBoundsMemoryAccess { pc: self.pc, opcode }
    }

    /// Reads the memory byte at `addr`. An address outside the image is a fault.
    pub fn get_mem(&self, addr: u16) -> (r: Result<u8, Fault>)
        ensures
            self@.mapped(addr as int) ==> r == Ok::<u8, Fault>(self@.memory[addr as int]),
            !self@.mapped(addr as int) ==> r == Err::<u8, Fault>(self@.fault()),
    {
        match self.memory.read_byte(addr) {
            Ok(byte) => Ok(byte),
            Err(_) => Err(self.fault()),
        }
    }

    /// Stores `val` in memory at `addr`. An address outside the image is a fault
    /// and leaves the state as it was.
    pub fn set_mem(&mut self, addr: u16, val: u8) -> (r: Result<(), Fault>)
        ensures
            old(self)@.mapped(addr as int) ==> r is Ok && final(self)@ == old(self)@.with_byte(
                addr as int,
                val,
            ),
            !old(self)@.mapped(addr as int) ==> r == Err::<(), Fault>(old(self)@.fault())
                && final(self)@ == old(self)@,
    {
        match self.memory.write_byte(addr, val) {
            Ok(()) => Ok(()),
            Err(_) => Err(self.fault()),
        }
    }

    /// The value on port `n`: what the last OUT or `set_port` left there, 0 at first.
    pub fn get_port(&self, n: u8) -> (value: u8)
        ensures
            value == self@.ports[n as int],
    {
        self.ports[n as usize]
    }

    /// Puts `value` on port `n`, for a later IN to read.
    pub fn set_port(&mut self, n: u8, value: u8)
        ensures
            final(self)@ == old(self)@.with_port(n, value),
    {
        self.ports[n as usize] = value;
    }

    /// Copies `bytes` into memory from `start_address` on. A block that does not
    /// fit inside the image is a fault and nothing is copied.
    pub fn load(&mut self, bytes: &[u8], start_address: u16) -> (r: Result<(), Fault>)
        ensures
            start_address + bytes@.len() <= old(self)@.memory.len() ==> r is Ok && final(self)@
                == (Machine {
                memory: with_block_at(old(self)@.memory, start_address as int, bytes@),
                ..old(self)@
            }),
            start_address + bytes@.len() > old(self)@.memory.len() ==> r == Err::<(), Fault>(
                old(self)@.fault(),
            ) && final(self)@ == old(self)@,
    {
        match self.memory.load(bytes, start_address) {
            Ok(()) => Ok(()),
            Err(_) => Err(self.fault()),
        }
    }
}

} // verus!
