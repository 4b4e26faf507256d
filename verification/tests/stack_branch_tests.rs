use intel8080::cpu::{emulate, execute, run_until_halt};
use intel8080::flags::{Condition, ConditionCodes};
use intel8080::instruction::{Branch, Control, Instruction, StackOp, StackPair};
use intel8080::machine::{Fault, Status};
use intel8080::state::State8080;

fn stack(op: StackOp) -> Instruction {
    Instruction::Stack(op)
}

fn branch(op: Branch) -> Instruction {
    Instruction::Branch(op)
}

#[test]
fn push_stores_high_byte_above_low_byte() {
    let mut state = State8080::new(0x100);
    state.sp = 0x0080;
    state.set_de(0x8f9d);
    assert_eq!(execute(&mut state, stack(StackOp::Push(StackPair::DE)), 0, 0), Ok(()));
    assert_eq!(state.sp, 0x007e);
    assert_eq!(state.get_mem(0x7f), Ok(0x8f));
    assert_eq!(state.get_mem(0x7e), Ok(0x9d));
    assert_eq!(state.pc, 1);
}

#[test]
fn pop_reads_low_byte_first() {
    let mut state = State8080::new(0x100);
    state.sp = 0x0040;
    state.set_mem(0x40, 0x3d).unwrap();
    state.set_mem(0x41, 0x93).unwrap();
    assert_eq!(execute(&mut state, stack(StackOp::Pop(StackPair::HL)), 0, 0), Ok(()));
    assert_eq!(state.l, 0x3d);
    assert_eq!(state.h, 0x93);
    assert_eq!(state.sp, 0x0042);
}

#[test]
fn push_then_pop_restores_pair_and_stack_pointer() {
    for pair in [StackPair::BC, StackPair::DE, StackPair::HL, StackPair::PSW] {
        for sp in [0x0002u16, 0x0080, 0x0100, 0x0001, 0x0000] {
            let mut state = State8080::new(0x10000);
            state.sp = sp;
            state.a = 0x1f;
            state.set_bc(0x1234);
            state.set_de(0x5678);
            state.set_hl(0x9abc);
            state.cc = ConditionCodes { z: true, s: false, p: true, cy: true, ac: false };
            let flags = state.cc;
            let value = state.read_stack_pair(pair);
            assert_eq!(execute(&mut state, stack(StackOp::Push(pair)), 0, 0), Ok(()));
            assert_eq!(state.sp, sp.wrapping_sub(2));
            state.a = 0;
            state.set_bc(0);
            state.set_de(0);
            state.set_hl(0);
            state.cc = ConditionCodes::new();
            assert_eq!(execute(&mut state, stack(StackOp::Pop(pair)), 0, 0), Ok(()));
            assert_eq!(state.sp, sp);
            assert_eq!(state.read_stack_pair(pair), value);
            if pair == StackPair::PSW {
                assert_eq!(state.a, 0x1f);
                assert_eq!(state.cc, flags);
            }
        }
    }
}

#[test]
fn stack_wraps_around_the_address_space() {
    let mut state = State8080::new(0x10000);
    state.sp = 0x0001;
    state.set_bc(0xbeef);
    assert_eq!(execute(&mut state, stack(StackOp::Push(StackPair::BC)), 0, 0), Ok(()));
    assert_eq!(state.sp, 0xffff);
    assert_eq!(state.get_mem(0x0000), Ok(0xbe));
    assert_eq!(state.get_mem(0xffff), Ok(0xef));
    assert_eq!(execute(&mut state, stack(StackOp::Pop(StackPair::DE)), 0, 0), Ok(()));
    assert_eq!(state.get_de(), 0xbeef);
    assert_eq!(state.sp, 0x0001);
}

#[test]
fn push_outside_memory_faults_and_changes_nothing() {
    let mut state = State8080::new(0x100);
    state.sp = 0x0000;
    state.set_bc(0xbeef);
    let fault = Fault::OutOfBoundsMemoryAccess { pc: 0, opcode: Some(0) };
    assert_eq!(execute(&mut state, stack(StackOp::Push(StackPair::BC)), 0, 0), Err(fault));
    assert_eq!(state.sp, 0);
    state.sp = 0x0101;
    assert_eq!(execute(&mut state, stack(StackOp::Push(StackPair::BC)), 0, 0), Err(fault));
    assert_eq!(state.sp, 0x0101);
    assert_eq!(state.get_mem(0xff), Ok(0));
    state.sp = 0x00ff;
    assert_eq!(execute(&mut state, stack(StackOp::Pop(StackPair::BC)), 0, 0), Err(fault));
    assert_eq!(state.get_bc(), 0xbeef);
    assert_eq!(state.sp, 0x00ff);
    assert_eq!(execute(&mut state, stack(StackOp::Xthl), 0, 0), Err(fault));
    assert_eq!(execute(&mut state, branch(Branch::Ret), 0, 0), Err(fault));
    assert_eq!(state.pc, 0);
}

#[test]
fn psw_flag_byte_layout() {
    let mut state = State8080::new(0x100);
    state.sp = 0x0010;
    state.a = 0x1f;
    state.cc = ConditionCodes { z: true, s: false, p: true, cy: true, ac: false };
    assert_eq!(execute(&mut state, stack(StackOp::Push(StackPair::PSW)), 0, 0), Ok(()));
    assert_eq!(state.get_mem(0x0f), Ok(0x1f));
    assert_eq!(state.get_mem(0x0e), Ok(0x47));
    assert_eq!(ConditionCodes::new().to_byte(), 0x02);
    let all = ConditionCodes { z: true, s: true, p: true, cy: true, ac: true };
    assert_eq!(all.to_byte(), 0xd7);
    assert_eq!((ConditionCodes { s: true, ..ConditionCodes::new() }).to_byte(), 0x82);
    assert_eq!((ConditionCodes { ac: true, ..ConditionCodes::new() }).to_byte(), 0x12);
}

#[test]
fn pop_psw_unpacks_the_flag_byte() {
    let mut state = State8080::new(0x100);
    state.sp = 0x0020;
    state.set_mem(0x20, 0xc3).unwrap();
    state.set_mem(0x21, 0xff).unwrap();
    assert_eq!(execute(&mut state, stack(StackOp::Pop(StackPair::PSW)), 0, 0), Ok(()));
    assert_eq!(state.a, 0xff);
    assert_eq!(state.cc, ConditionCodes { z: true, s: true, p: false, cy: true, ac: false });
    assert_eq!(ConditionCodes::from_byte(0xff), ConditionCodes {
        z: true,
        s: true,
        p: true,
        cy: true,
        ac: true,
    });
    assert_eq!(ConditionCodes::from_byte(0x28), ConditionCodes::new());
    for byte in 0..=255u8 {
        let flags = ConditionCodes::from_byte(byte);
        assert_eq!(flags.to_byte(), (byte & 0xd5) | 0x02);
        assert_eq!(ConditionCodes::from_byte(flags.to_byte()), flags);
    }
}

#[test]
fn xthl_swaps_hl_with_the_top_of_the_stack() {
    let mut state = State8080::new(0x100);
    state.sp = 0x00ad;
    state.set_hl(0x0b3c);
    state.set_mem(0xad, 0xf0).unwrap();
    state.set_mem(0xae, 0x0d).unwrap();
    assert_eq!(execute(&mut state, stack(StackOp::Xthl), 0, 0), Ok(()));
    assert_eq!(state.get_hl(), 0x0df0);
    assert_eq!(state.get_mem(0xad), Ok(0x3c));
    assert_eq!(state.get_mem(0xae), Ok(0x0b));
    assert_eq!(state.sp, 0x00ad);
}

#[test]
fn sphl_and_pchl() {
    let mut state = State8080::new(0x100);
    state.set_hl(0x506c);
    assert_eq!(execute(&mut state, stack(StackOp::Sphl), 0, 0), Ok(()));
    assert_eq!(state.sp, 0x506c);
    assert_eq!(state.pc, 1);
    assert_eq!(execute(&mut state, branch(Branch::Pchl), 0, 0), Ok(()));
    assert_eq!(state.pc, 0x506c);
}

#[test]
fn jmp_sets_the_program_counter() {
    let mut state = State8080::new(0x100);
    state.load(&[0xc3, 0x00, 0x3e], 0).unwrap();
    assert_eq!(emulate(&mut state), Ok(Status::Running));
    assert_eq!(state.pc, 0x3e00);
}

#[test]
fn conditions_follow_the_flags() {
    let conditions = [
        (Condition::NotZero, ConditionCodes { z: true, ..ConditionCodes::new() }, false),
        (Condition::Zero, ConditionCodes { z: true, ..ConditionCodes::new() }, true),
        (Condition::NoCarry, ConditionCodes { cy: true, ..ConditionCodes::new() }, false),
        (Condition::Carry, ConditionCodes { cy: true, ..ConditionCodes::new() }, true),
        (Condition::ParityOdd, ConditionCodes { p: true, ..ConditionCodes::new() }, false),
        (Condition::ParityEven, ConditionCodes { p: true, ..ConditionCodes::new() }, true),
        (Condition::Plus, ConditionCodes { s: true, ..ConditionCodes::new() }, false),
        (Condition::Minus, ConditionCodes { s: true, ..ConditionCodes::new() }, true),
    ];
    for (condition, flags, taken) in conditions {
        assert_eq!(flags.test(condition), taken);
        assert_eq!(ConditionCodes::new().test(condition), !taken);
        let mut state = State8080::new(0x100);
        state.sp = 0x80;
        state.pc = 0x10;
        state.cc = flags;
        assert_eq!(execute(&mut state, branch(Branch::JmpIf(condition)), 0x50, 0x00), Ok(()));
        assert_eq!(state.pc, if taken { 0x50 } else { 0x13 });
        state.pc = 0x10;
        assert_eq!(execute(&mut state, branch(Branch::CallIf(condition)), 0x50, 0x00), Ok(()));
        assert_eq!(state.pc, if taken { 0x50 } else { 0x13 });
        assert_eq!(state.sp, if taken { 0x7e } else { 0x80 });
        state.sp = 0x80;
        state.pc = 0x10;
        state.set_mem(0x80, 0x34).unwrap();
        state.set_mem(0x81, 0x12).unwrap();
        assert_eq!(execute(&mut state, branch(Branch::RetIf(condition)), 0, 0), Ok(()));
        assert_eq!(state.pc, if taken { 0x1234 } else { 0x11 });
        assert_eq!(state.sp, if taken { 0x82 } else { 0x80 });
        assert_eq!(state.cc, flags);
    }
}

#[test]
fn call_then_ret_returns_after_the_call() {
    let mut state = State8080::new(0x100);
    state.load(&[0x00, 0x00, 0xcd, 0x20, 0x00, 0x3c], 0).unwrap();
    state.load(&[0xc9, 0x00, 0x00], 0x20).unwrap();
    state.pc = 2;
    state.sp = 0x00f0;
    assert_eq!(emulate(&mut state), Ok(Status::Running));
    assert_eq!(state.pc, 0x0020);
    assert_eq!(state.sp, 0x00ee);
    assert_eq!(state.get_mem(0xef), Ok(0x00));
    assert_eq!(state.get_mem(0xee), Ok(0x05));
    assert_eq!(emulate(&mut state), Ok(Status::Running));
    assert_eq!(state.pc, 5);
    assert_eq!(state.sp, 0x00f0);
}

#[test]
fn call_and_ret_aliases() {
    for call in [0xcdu8, 0xdd, 0xed, 0xfd] {
        for ret in [0xc9u8, 0xcb, 0xd9] {
            let mut state = State8080::new(0x100);
            state.load(&[call, 0x40, 0x00, 0x76, 0x00, 0x00], 0).unwrap();
            state.load(&[ret, 0x00, 0x00], 0x40).unwrap();
            state.sp = 0x0090;
            assert_eq!(emulate(&mut state), Ok(Status::Running));
            assert_eq!(state.pc, 0x40);
            assert_eq!(state.sp, 0x008e);
            assert_eq!(emulate(&mut state), Ok(Status::Running));
            assert_eq!(state.pc, 3);
            assert_eq!(state.sp, 0x0090);
            assert_eq!(emulate(&mut state), Ok(Status::Halted));
        }
    }
}

#[test]
fn call_outside_memory_faults_without_a_jump() {
    let mut state = State8080::new(0x100);
    state.load(&[0xcd, 0x40, 0x00], 0).unwrap();
    state.sp = 0x0200;
    assert_eq!(
        emulate(&mut state),
        Err(Fault::OutOfBoundsMemoryAccess { pc: 0, opcode: Some(0xcd) })
    );
    assert_eq!(state.pc, 0);
    assert_eq!(state.sp, 0x0200);
    assert_eq!(
        run_until_halt(&mut state, 5),
        Err(Fault::OutOfBoundsMemoryAccess { pc: 0, opcode: Some(0xcd) })
    );
}

#[test]
fn rst_calls_the_vector() {
    for n in 0..8u8 {
        let mut state = State8080::new(0x100);
        let opcode = 0xc7 | (n << 3);
        state.load(&[opcode, 0x00, 0x00], 0x50).unwrap();
        state.pc = 0x50;
        state.sp = 0x00a0;
        assert_eq!(emulate(&mut state), Ok(Status::Running));
        assert_eq!(state.pc, 8 * n as u16);
        assert_eq!(state.sp, 0x009e);
        assert_eq!(state.get_mem(0x9e), Ok(0x51));
        assert_eq!(state.get_mem(0x9f), Ok(0x00));
    }
}

#[test]
fn program_counter_wraps_at_the_top() {
    let mut state = State8080::new(0x10000);
    state.load(&[0xc2, 0x00, 0x10], 0xfffd).unwrap();
    state.pc = 0xfffd;
    state.cc.z = true;
    assert_eq!(emulate(&mut state), Ok(Status::Running));
    assert_eq!(state.pc, 0x0000);
    state.pc = 0xfffe;
    assert_eq!(
        emulate(&mut state),
        Err(Fault::OutOfBoundsMemoryAccess { pc: 0xfffe, opcode: Some(0x00) })
    );
}

#[test]
fn interrupt_enable_and_ports() {
    let mut state = State8080::new(0x100);
    assert!(!state.int_enable);
    assert_eq!(execute(&mut state, Instruction::Control(Control::Ei), 0, 0), Ok(()));
    assert!(state.int_enable);
    assert_eq!(execute(&mut state, Instruction::Control(Control::Di), 0, 0), Ok(()));
    assert!(!state.int_enable);
    assert_eq!(state.get_port(3), 0);
    state.a = 0x5a;
    assert_eq!(execute(&mut state, Instruction::Control(Control::Out), 3, 0), Ok(()));
    assert_eq!(state.get_port(3), 0x5a);
    assert_eq!(state.get_port(4), 0);
    state.set_port(0xff, 0x77);
    assert_eq!(execute(&mut state, Instruction::Control(Control::In), 0xff, 0), Ok(()));
    assert_eq!(state.a, 0x77);
    assert_eq!(execute(&mut state, Instruction::Control(Control::In), 0x00, 0), Ok(()));
    assert_eq!(state.a, 0x00);
    assert_eq!(state.pc, 8);
    assert_eq!(state.status, Status::Running);
}

#[test]
fn in_and_out_through_steps() {
    let mut state = State8080::new(0x100);
    state.load(&[0xdb, 0x01, 0xd3, 0x02, 0x76, 0x00, 0x00], 0).unwrap();
    state.set_port(1, 0x42);
    assert_eq!(run_until_halt(&mut state, 100), Ok(Status::Halted));
    assert_eq!(state.get_port(2), 0x42);
    assert_eq!(state.pc, 5);
}
