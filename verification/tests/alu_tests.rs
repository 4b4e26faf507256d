use intel8080::alu::{add, parity, AluOp};
use intel8080::cpu::{emulate, execute};
use intel8080::flags::ConditionCodes;
use intel8080::instruction::{Arithmetic, Instruction, Logical, Reg, RegPair};
use intel8080::machine::Status;
use intel8080::state::State8080;

fn run_one(state: &mut State8080, instruction: Instruction, lo: u8) {
    assert_eq!(execute(state, instruction, lo, 0), Ok(()));
}

#[test]
fn parity_counts_ones() {
    assert!(parity(0));
    assert!(!parity(1));
    assert!(parity(3));
    assert!(!parity(0x40));
    assert!(parity(0xff));
    assert!(!parity(0x8000));
    assert!(parity(0x8001));
    assert!(parity(0xffff));
    for value in 0..=0xffffu16 {
        assert_eq!(parity(value), value.count_ones() % 2 == 0);
    }
}

#[test]
fn add_keeps_the_carry_out() {
    assert_eq!(add(0, 0), 0);
    assert_eq!(add(0xff, 0x01), 0x100);
    assert_eq!(add(0xff, 0xff), 0x1fe);
    assert_eq!(add(0x3e, 0x02), 0x40);
}

#[test]
fn add_flags_for_all_bytes() {
    let mut state = State8080::new(8);
    for a in 0..=255u8 {
        for b in 0..=255u8 {
            state.a = a;
            state.alu(AluOp::Add, b);
            let sum = a as u16 + b as u16;
            assert_eq!(state.a, (sum & 0xff) as u8);
            assert_eq!(state.cc.cy, sum > 255);
            assert_eq!(state.cc.z, sum & 0xff == 0);
            assert_eq!(state.cc.p, (sum & 0xff).count_ones() % 2 == 0);
            assert_eq!(state.cc.s, sum & 0x80 != 0);
            assert_eq!(state.cc.ac, (a & 0xf) + (b & 0xf) > 0xf);
        }
    }
}

#[test]
fn add_instruction_with_register_operand() {
    let mut state = State8080::new(8);
    state.a = 0xf0;
    state.c = 0x10;
    run_one(&mut state, Instruction::Arithmetic(Arithmetic::Add(Reg::C)), 0);
    assert_eq!(state.a, 0x00);
    assert!(state.cc.cy);
    assert!(state.cc.z);
    assert!(state.cc.p);
    assert!(!state.cc.s);
    assert!(!state.cc.ac);
    assert_eq!(state.pc, 1);
}

#[test]
fn adc_adds_the_carry() {
    let mut state = State8080::new(8);
    state.a = 0x3d;
    state.cc.cy = true;
    run_one(&mut state, Instruction::Arithmetic(Arithmetic::Aci), 0x42);
    assert_eq!(state.a, 0x80);
    assert!(!state.cc.cy);
    assert!(state.cc.s);
    assert!(state.cc.ac);
    assert!(!state.cc.p);
    assert_eq!(state.pc, 2);
    state.a = 0xff;
    state.cc.cy = true;
    state.alu(AluOp::Adc, 0xff);
    assert_eq!(state.a, 0xff);
    assert!(state.cc.cy);
}

#[test]
fn sub_sets_carry_on_borrow() {
    let mut state = State8080::new(8);
    state.a = 0x3e;
    state.alu(AluOp::Sub, 0x3e);
    assert_eq!(state.a, 0);
    assert!(state.cc.z);
    assert!(!state.cc.cy);
    assert!(state.cc.ac);
    assert!(state.cc.p);
    state.a = 0x05;
    state.alu(AluOp::Sub, 0x06);
    assert_eq!(state.a, 0xff);
    assert!(state.cc.cy);
    assert!(state.cc.s);
    assert!(!state.cc.z);
    assert!(!state.cc.ac);
    assert!(state.cc.p);
}

#[test]
fn sub_flags_for_all_bytes() {
    let mut state = State8080::new(8);
    for a in 0..=255u8 {
        for b in 0..=255u8 {
            for borrow in [false, true] {
                state.a = a;
                state.cc.cy = borrow;
                state.alu(AluOp::Sbb, b);
                let taken = b as i32 + borrow as i32;
                let result = (a as i32 - taken).rem_euclid(256) as u8;
                assert_eq!(state.a, result);
                assert_eq!(state.cc.cy, (a as i32) < taken);
                assert_eq!(state.cc.z, result == 0);
                assert_eq!(state.cc.s, result >= 0x80);
                assert_eq!(state.cc.p, result.count_ones() % 2 == 0);
                let nibble = (a & 0xf) as u32 + (!b & 0xf) as u32 + (!borrow) as u32;
                assert_eq!(state.cc.ac, nibble > 0xf);
            }
        }
    }
}

#[test]
fn sbb_takes_the_borrow() {
    let mut state = State8080::new(8);
    state.a = 0x04;
    state.cc.cy = true;
    run_one(&mut state, Instruction::Arithmetic(Arithmetic::Sbi), 0x02);
    assert_eq!(state.a, 0x01);
    assert!(!state.cc.cy);
    assert!(!state.cc.z);
    assert!(!state.cc.p);
}

#[test]
fn compare_sets_flags_and_keeps_the_accumulator() {
    let mut state = State8080::new(8);
    state.a = 0x0a;
    state.e = 0x05;
    run_one(&mut state, Instruction::Logical(Logical::Compare(Reg::E)), 0);
    assert_eq!(state.a, 0x0a);
    assert!(!state.cc.cy);
    assert!(!state.cc.z);
    state.a = 0x02;
    run_one(&mut state, Instruction::Logical(Logical::Compare(Reg::E)), 0);
    assert_eq!(state.a, 0x02);
    assert!(state.cc.cy);
    assert!(state.cc.s);
    run_one(&mut state, Instruction::Logical(Logical::Cpi), 0x02);
    assert_eq!(state.a, 0x02);
    assert!(state.cc.z);
    assert!(!state.cc.cy);
}

#[test]
fn logical_operations_clear_carry() {
    let mut state = State8080::new(8);
    state.a = 0xfc;
    state.cc.cy = true;
    state.alu(AluOp::Ana, 0x0f);
    assert_eq!(state.a, 0x0c);
    assert!(!state.cc.cy);
    assert!(state.cc.ac);
    assert!(state.cc.p);
    state.a = 0xf0;
    state.cc.cy = true;
    state.alu(AluOp::Ana, 0x07);
    assert_eq!(state.a, 0x00);
    assert!(state.cc.z);
    assert!(!state.cc.ac);
    state.a = 0x5c;
    state.cc.cy = true;
    state.cc.ac = true;
    state.alu(AluOp::Xra, 0x78);
    assert_eq!(state.a, 0x24);
    assert!(!state.cc.cy);
    assert!(!state.cc.ac);
    state.a = 0x33;
    state.cc.cy = true;
    state.alu(AluOp::Ora, 0x0f);
    assert_eq!(state.a, 0x3f);
    assert!(!state.cc.cy);
    assert!(state.cc.p);
}

#[test]
fn logical_results_for_all_bytes() {
    let mut state = State8080::new(8);
    for a in 0..=255u8 {
        for b in 0..=255u8 {
            state.a = a;
            state.alu(AluOp::Ana, b);
            assert_eq!(state.a, a & b);
            assert_eq!(state.cc.ac, (a | b) & 0x08 != 0);
            state.a = a;
            state.alu(AluOp::Xra, b);
            assert_eq!(state.a, a ^ b);
            state.a = a;
            state.alu(AluOp::Ora, b);
            assert_eq!(state.a, a | b);
            assert_eq!(state.cc.z, a | b == 0);
            assert!(!state.cc.cy);
        }
    }
}

#[test]
fn inr_and_dcr_wrap_and_keep_carry() {
    let mut state = State8080::new(8);
    state.b = 0xff;
    state.cc.cy = true;
    run_one(&mut state, Instruction::Arithmetic(Arithmetic::Inr(Reg::B)), 0);
    assert_eq!(state.b, 0x00);
    assert!(state.cc.z);
    assert!(state.cc.ac);
    assert!(state.cc.cy);
    run_one(&mut state, Instruction::Arithmetic(Arithmetic::Dcr(Reg::B)), 0);
    assert_eq!(state.b, 0xff);
    assert!(state.cc.s);
    assert!(!state.cc.z);
    assert!(!state.cc.ac);
    assert!(state.cc.cy);
    assert!(state.cc.p);
    state.cc.cy = false;
    state.l = 0x0f;
    run_one(&mut state, Instruction::Arithmetic(Arithmetic::Inr(Reg::L)), 0);
    assert_eq!(state.l, 0x10);
    assert!(state.cc.ac);
    assert!(!state.cc.cy);
}

#[test]
fn inr_on_memory_operand() {
    let mut state = State8080::new(0x40);
    state.set_hl(0x0030);
    state.set_mem(0x30, 0x7f).unwrap();
    run_one(&mut state, Instruction::Arithmetic(Arithmetic::Inr(Reg::M)), 0);
    assert_eq!(state.get_mem(0x30), Ok(0x80));
    assert!(state.cc.s);
    assert!(state.cc.ac);
}

#[test]
fn inx_and_dcx_wrap_without_flags() {
    let mut state = State8080::new(8);
    state.set_bc(0xffff);
    state.cc = ConditionCodes { z: true, s: true, p: false, cy: true, ac: false };
    let before = state.cc;
    run_one(&mut state, Instruction::Arithmetic(Arithmetic::Inx(RegPair::BC)), 0);
    assert_eq!(state.get_bc(), 0);
    assert_eq!(state.cc, before);
    run_one(&mut state, Instruction::Arithmetic(Arithmetic::Dcx(RegPair::BC)), 0);
    assert_eq!(state.get_bc(), 0xffff);
    state.sp = 0;
    run_one(&mut state, Instruction::Arithmetic(Arithmetic::Dcx(RegPair::SP)), 0);
    assert_eq!(state.sp, 0xffff);
    run_one(&mut state, Instruction::Arithmetic(Arithmetic::Inx(RegPair::SP)), 0);
    assert_eq!(state.sp, 0);
    state.set_de(0x00ff);
    run_one(&mut state, Instruction::Arithmetic(Arithmetic::Inx(RegPair::DE)), 0);
    assert_eq!((state.d, state.e), (0x01, 0x00));
    assert_eq!(state.cc, before);
}

#[test]
fn dad_touches_only_carry() {
    let mut state = State8080::new(8);
    state.set_hl(0xa17b);
    state.set_bc(0x339f);
    state.cc = ConditionCodes { z: true, s: false, p: true, cy: true, ac: true };
    run_one(&mut state, Instruction::Arithmetic(Arithmetic::Dad(RegPair::BC)), 0);
    assert_eq!(state.get_hl(), 0xd51a);
    assert_eq!(state.cc, ConditionCodes { z: true, s: false, p: true, cy: false, ac: true });
    state.set_hl(0x8000);
    run_one(&mut state, Instruction::Arithmetic(Arithmetic::Dad(RegPair::HL)), 0);
    assert_eq!(state.get_hl(), 0x0000);
    assert!(state.cc.cy);
    assert!(state.cc.z);
    state.sp = 0x0001;
    state.set_hl(0xffff);
    run_one(&mut state, Instruction::Arithmetic(Arithmetic::Dad(RegPair::SP)), 0);
    assert_eq!(state.get_hl(), 0x0000);
    assert!(state.cc.cy);
}

#[test]
fn daa_adjusts_to_decimal() {
    let mut state = State8080::new(8);
    state.a = 0x9b;
    run_one(&mut state, Instruction::Arithmetic(Arithmetic::Daa), 0);
    assert_eq!(state.a, 0x01);
    assert!(state.cc.cy);
    assert!(state.cc.ac);
    assert!(!state.cc.z);
    assert!(!state.cc.p);
    state.a = 0x45;
    state.cc = ConditionCodes::new();
    run_one(&mut state, Instruction::Arithmetic(Arithmetic::Daa), 0);
    assert_eq!(state.a, 0x45);
    assert!(!state.cc.cy);
    assert!(!state.cc.ac);
    state.a = 0x12;
    state.cc = ConditionCodes::new();
    state.cc.ac = true;
    state.cc.cy = true;
    run_one(&mut state, Instruction::Arithmetic(Arithmetic::Daa), 0);
    assert_eq!(state.a, 0x78);
    assert!(state.cc.cy);
    assert!(!state.cc.ac);
}

#[test]
fn daa_after_decimal_addition() {
    // 0x38 + 0x45 is 0x7d in binary and 83 in decimal.
    let mut state = State8080::new(8);
    state.a = 0x38;
    state.alu(AluOp::Add, 0x45);
    state.daa();
    assert_eq!(state.a, 0x83);
    assert!(!state.cc.cy);
    // 0x99 + 0x01 is 100 in decimal: 00 with a carry.
    state.a = 0x99;
    state.alu(AluOp::Add, 0x01);
    state.daa();
    assert_eq!(state.a, 0x00);
    assert!(state.cc.cy);
    assert!(state.cc.z);
}

#[test]
fn rotations() {
    let mut state = State8080::new(8);
    state.a = 0xf2;
    run_one(&mut state, Instruction::Logical(Logical::Rlc), 0);
    assert_eq!(state.a, 0xe5);
    assert!(state.cc.cy);
    state.a = 0xf2;
    run_one(&mut state, Instruction::Logical(Logical::Rrc), 0);
    assert_eq!(state.a, 0x79);
    assert!(!state.cc.cy);
    state.a = 0xb5;
    state.cc.cy = false;
    run_one(&mut state, Instruction::Logical(Logical::Ral), 0);
    assert_eq!(state.a, 0x6a);
    assert!(state.cc.cy);
    state.a = 0x6a;
    state.cc.cy = true;
    run_one(&mut state, Instruction::Logical(Logical::Rar), 0);
    assert_eq!(state.a, 0xb5);
    assert!(!state.cc.cy);
    state.a = 0x01;
    run_one(&mut state, Instruction::Logical(Logical::Rrc), 0);
    assert_eq!(state.a, 0x80);
    assert!(state.cc.cy);
}

#[test]
fn rotations_for_all_bytes() {
    let mut state = State8080::new(8);
    for a in 0..=255u8 {
        for carry in [false, true] {
            state.cc = ConditionCodes { z: true, s: false, p: true, cy: carry, ac: true };
            state.a = a;
            state.rlc();
            assert_eq!((state.a, state.cc.cy), (a.rotate_left(1), a & 0x80 != 0));
            state.cc.cy = carry;
            state.a = a;
            state.rrc();
            assert_eq!((state.a, state.cc.cy), (a.rotate_right(1), a & 1 != 0));
            state.cc.cy = carry;
            state.a = a;
            state.ral();
            assert_eq!((state.a, state.cc.cy), ((a << 1) | carry as u8, a & 0x80 != 0));
            state.cc.cy = carry;
            state.a = a;
            state.rar();
            assert_eq!((state.a, state.cc.cy), ((a >> 1) | ((carry as u8) << 7), a & 1 != 0));
            assert!(state.cc.z && !state.cc.s && state.cc.p && state.cc.ac);
            state.a = a;
            state.cma();
            assert_eq!(state.a, !a);
        }
    }
}

#[test]
fn cma_stc_cmc() {
    let mut state = State8080::new(8);
    state.a = 0x51;
    let flags = ConditionCodes { z: true, s: true, p: true, cy: false, ac: true };
    state.cc = flags;
    run_one(&mut state, Instruction::Logical(Logical::Cma), 0);
    assert_eq!(state.a, 0xae);
    assert_eq!(state.cc, flags);
    run_one(&mut state, Instruction::Logical(Logical::Stc), 0);
    assert_eq!(state.cc, ConditionCodes { cy: true, ..flags });
    run_one(&mut state, Instruction::Logical(Logical::Stc), 0);
    assert!(state.cc.cy);
    run_one(&mut state, Instruction::Logical(Logical::Cmc), 0);
    assert_eq!(state.cc, flags);
    run_one(&mut state, Instruction::Logical(Logical::Cmc), 0);
    assert!(state.cc.cy);
    assert_eq!(state.a, 0xae);
}

#[test]
fn flag_setters_follow_the_result() {
    let mut state = State8080::new(8);
    state.set_zero_flag(0);
    assert!(state.cc.z);
    state.set_zero_flag(0x100);
    assert!(state.cc.z);
    state.set_zero_flag(0x101);
    assert!(!state.cc.z);
    state.set_sign_flag(0x80);
    assert!(state.cc.s);
    state.set_sign_flag(0x17f);
    assert!(!state.cc.s);
    state.set_carry_flag(0xff);
    assert!(!state.cc.cy);
    state.set_carry_flag(0x100);
    assert!(state.cc.cy);
    state.set_carry_flag_double(0xffff);
    assert!(!state.cc.cy);
    state.set_carry_flag_double(0x10000);
    assert!(state.cc.cy);
    assert!(!state.cc.z);
    assert!(!state.cc.s);
    assert_eq!(state.a, 0);
}

#[test]
fn adi_through_a_step() {
    let mut state = State8080::new(8);
    state.load(&[0xc6, 0x42, 0x00], 0).unwrap();
    state.a = 0x14;
    assert_eq!(emulate(&mut state), Ok(Status::Running));
    assert_eq!(state.a, 0x56);
    assert_eq!(state.pc, 2);
    assert!(state.cc.p);
    assert!(!state.cc.cy);
}
