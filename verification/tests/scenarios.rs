use intel8080::cpu::{emulate, execute, run_until_halt};
use intel8080::instruction::{Arithmetic, Instruction, Reg};
use intel8080::machine::{Fault, Status};
use intel8080::state::State8080;

fn machine_with(program: &[u8]) -> State8080 {
    let mut state = State8080::new(0x100);
    state.load(program, 0).unwrap();
    state
}

#[test]
fn add_b_sets_result_and_flags() {
    let mut state = machine_with(&[0x80, 0x00, 0x00]);
    state.a = 0x3e;
    state.b = 0x02;
    assert_eq!(emulate(&mut state), Ok(Status::Running));
    assert_eq!(state.a, 0x40);
    assert!(!state.cc.z);
    assert!(!state.cc.s);
    assert!(!state.cc.cy);
    assert!(!state.cc.p);
    assert_eq!(state.pc, 1);
}

#[test]
fn add_b_through_execute() {
    let mut state = State8080::new(16);
    state.a = 0x3e;
    state.b = 0x02;
    let add_b = Instruction::Arithmetic(Arithmetic::Add(Reg::B));
    assert_eq!(execute(&mut state, add_b, 0, 0), Ok(()));
    assert_eq!(state.a, 0x40);
    assert!(state.cc.ac);
    assert_eq!(state.b, 0x02);
}

#[test]
fn jnz_not_taken_advances_by_three() {
    let mut state = machine_with(&[0xc2, 0x34, 0x12, 0x00, 0x00]);
    state.cc.z = true;
    assert_eq!(emulate(&mut state), Ok(Status::Running));
    assert_eq!(state.pc, 3);
}

#[test]
fn jnz_taken_jumps_to_the_little_endian_address() {
    let mut state = machine_with(&[0xc2, 0x34, 0x12, 0x00, 0x00]);
    state.cc.z = false;
    assert_eq!(emulate(&mut state), Ok(Status::Running));
    assert_eq!(state.pc, 0x1234);
}

#[test]
fn hlt_halts_and_further_steps_do_nothing() {
    let mut state = machine_with(&[0x76, 0x3c, 0x3c, 0x3c]);
    assert_eq!(emulate(&mut state), Ok(Status::Halted));
    assert_eq!(state.status, Status::Halted);
    assert_eq!(state.pc, 1);
    assert_eq!(emulate(&mut state), Ok(Status::Halted));
    assert_eq!(emulate(&mut state), Ok(Status::Halted));
    assert_eq!(state.pc, 1);
    assert_eq!(state.a, 0);
    assert_eq!(run_until_halt(&mut state, 10), Ok(Status::Halted));
    assert_eq!(state.pc, 1);
}

#[test]
fn opcode_08_is_a_nop() {
    let mut aliased = machine_with(&[0x08, 0x00, 0x00]);
    let mut plain = machine_with(&[0x00, 0x00, 0x00]);
    for state in [&mut aliased, &mut plain] {
        state.a = 7;
        state.sp = 0x20;
        state.cc.cy = true;
        assert_eq!(emulate(state), Ok(Status::Running));
        assert_eq!(state.pc, 1);
        assert_eq!(state.a, 7);
        assert_eq!(state.sp, 0x20);
        assert!(state.cc.cy);
        assert!(!state.cc.z);
        assert_eq!(state.status, Status::Running);
    }
    assert_eq!(aliased.get_mem(0), Ok(0x08));
    assert_eq!(aliased.dump_state(), plain.dump_state());
}

#[test]
fn all_nop_aliases_advance_by_one() {
    for opcode in [0x00u8, 0x08, 0x10, 0x18, 0x20, 0x28, 0x30, 0x38] {
        let mut state = machine_with(&[opcode, 0xff, 0xff]);
        state.h = 0x12;
        assert_eq!(emulate(&mut state), Ok(Status::Running));
        assert_eq!(state.pc, 1);
        assert_eq!(state.h, 0x12);
        assert_eq!(state.get_mem(1), Ok(0xff));
    }
}

#[test]
fn fetch_needs_three_bytes_inside_memory() {
    let mut state = State8080::new(4);
    state.pc = 1;
    assert_eq!(emulate(&mut state), Ok(Status::Running));
    assert_eq!(state.pc, 2);
    assert_eq!(
        emulate(&mut state),
        Err(Fault::OutOfBoundsMemoryAccess { pc: 2, opcode: Some(0) })
    );
    assert_eq!(state.pc, 2);
    state.pc = 4;
    assert_eq!(
        emulate(&mut state),
        Err(Fault::OutOfBoundsMemoryAccess { pc: 4, opcode: None })
    );
    assert_eq!(state.pc, 4);
    assert_eq!(state.status, Status::Running);
}
