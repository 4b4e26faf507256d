use intel8080::cpu::{emulate_all, run_until_halt, words_to_bytes};
use intel8080::hexdump::{hex_digit_value, is_space_byte, parse_hex_dump, parse_word, BadWord};
use intel8080::machine::{Fault, Status};
use intel8080::state::State8080;
use intel8080::text::push_decimal;

#[test]
fn decimal_digits() {
    for (n, text) in [
        (0u64, "0"),
        (7, "7"),
        (9, "9"),
        (10, "10"),
        (255, "255"),
        (1000, "1000"),
        (65535, "65535"),
        (u64::MAX, "18446744073709551615"),
    ] {
        let mut out = String::from("n=");
        push_decimal(&mut out, n);
        assert_eq!(out, format!("n={}", text));
    }
    for n in 0..3000u64 {
        let mut out = String::new();
        push_decimal(&mut out, n);
        assert_eq!(out, format!("{}", n));
    }
}

#[test]
fn dump_of_a_new_state() {
    let state = State8080::new(0);
    assert_eq!(state.dump_state(), "a:0 b:0 c:0 d:0 e:0 h:0 l:0 sp:0 pc:0 memory size:0");
}

#[test]
fn dump_shows_registers_in_decimal() {
    let mut state = State8080::new(0x2000);
    state.a = 1;
    state.b = 20;
    state.c = 255;
    state.d = 4;
    state.e = 50;
    state.h = 6;
    state.l = 70;
    state.sp = 0xffff;
    state.pc = 0x0100;
    assert_eq!(
        state.dump_state(),
        "a:1 b:20 c:255 d:4 e:50 h:6 l:70 sp:65535 pc:256 memory size:8192"
    );
}

#[test]
fn hex_digits_and_spaces() {
    assert_eq!(hex_digit_value(b'0'), Some(0));
    assert_eq!(hex_digit_value(b'9'), Some(9));
    assert_eq!(hex_digit_value(b'a'), Some(10));
    assert_eq!(hex_digit_value(b'f'), Some(15));
    assert_eq!(hex_digit_value(b'A'), Some(10));
    assert_eq!(hex_digit_value(b'F'), Some(15));
    assert_eq!(hex_digit_value(b'g'), None);
    assert_eq!(hex_digit_value(b'G'), None);
    assert_eq!(hex_digit_value(b'/'), None);
    assert_eq!(hex_digit_value(b':'), None);
    assert_eq!(hex_digit_value(b'@'), None);
    assert_eq!(hex_digit_value(b'`'), None);
    for byte in 0..=255u8 {
        assert_eq!(
            hex_digit_value(byte).map(|d| d as u32),
            (byte as char).to_digit(16).filter(|_| byte < 128)
        );
        assert_eq!(is_space_byte(byte), matches!(byte, b' ' | b'\t' | b'\n' | 0x0b | 0x0c | b'\r'));
    }
}

#[test]
fn words_in_hexadecimal() {
    assert_eq!(parse_word(b"0"), Some(0));
    assert_eq!(parse_word(b"1f"), Some(0x1f));
    assert_eq!(parse_word(b"3E02"), Some(0x3e02));
    assert_eq!(parse_word(b"ffff"), Some(0xffff));
    assert_eq!(parse_word(b"10000"), None);
    assert_eq!(parse_word(b"+7"), Some(7));
    assert_eq!(parse_word(b"+"), None);
    assert_eq!(parse_word(b""), None);
    assert_eq!(parse_word(b"12g4"), None);
    assert_eq!(parse_word(b"-1"), None);
    assert_eq!(parse_word(b"0000000012"), Some(0x12));
    assert_eq!(parse_word(b"++1"), None);
    for token in ["0", "abcd", "ABCD", "+ff", "fffff", "", "+", "0x10", "12 ", "00001"] {
        let expected = u16::from_str_radix(token, 16).ok();
        assert_eq!(parse_word(token.as_bytes()), expected);
    }
}

#[test]
fn dump_skips_line_numbers() {
    let text = b"0000000 3e02 8076\n0000004 0000 c3c3\n";
    assert_eq!(parse_hex_dump(text), Ok(vec![0x3e02, 0x8076, 0x0000, 0xc3c3]));
    assert_eq!(parse_hex_dump(b""), Ok(vec![]));
    assert_eq!(parse_hex_dump(b"\n\n  \n"), Ok(vec![]));
    assert_eq!(parse_hex_dump(b"zzzz"), Ok(vec![]));
    assert_eq!(parse_hex_dump(b"zzzz 12"), Ok(vec![0x12]));
    assert_eq!(parse_hex_dump(b"  x\t1\r\n  y  2"), Ok(vec![1, 2]));
}

#[test]
fn dump_skips_every_ninth_word_of_a_line() {
    let text = b"n 1 2 3 4 5 6 7 8 n 9 a b c d e f 10 n 11\nn 12";
    assert_eq!(
        parse_hex_dump(text),
        Ok(vec![1, 2, 3, 4, 5, 6, 7, 8, 9, 10, 11, 12, 13, 14, 15, 16, 17, 18])
    );
}

#[test]
fn dump_with_a_bad_word() {
    assert_eq!(parse_hex_dump(b"0 12 xy 34"), Err(BadWord { offset: 5 }));
    assert_eq!(parse_hex_dump(b"0 12345"), Err(BadWord { offset: 2 }));
    assert_eq!(parse_hex_dump(b"0 1\n0 2\n0 -3"), Err(BadWord { offset: 10 }));
    assert_eq!(parse_hex_dump(b"0 + 1"), Err(BadWord { offset: 2 }));
    assert_eq!(parse_hex_dump(b"0 1 2 3 4 5 6 7 8 zz 9 g"), Err(BadWord { offset: 23 }));
}

#[test]
fn words_become_bytes_high_byte_first() {
    assert_eq!(words_to_bytes(&[]), Vec::<u8>::new());
    assert_eq!(words_to_bytes(&[0x3e02]), vec![0x3e, 0x02]);
    assert_eq!(words_to_bytes(&[0x3e02, 0x8076, 0x00ff]), vec![0x3e, 0x02, 0x80, 0x76, 0x00, 0xff]);
}

#[test]
fn a_dump_runs_to_its_halt() {
    // MVI A,2; ADD A; HLT, then padding for the fetch.
    let words = parse_hex_dump(b"0000000 3e02 8776 0000\n").unwrap();
    let (state, outcome) = emulate_all(&words, 1000);
    assert_eq!(outcome, Ok(Status::Halted));
    assert_eq!(state.a, 4);
    assert_eq!(state.pc, 4);
    assert_eq!(state.memory.size(), 6);
    assert_eq!(state.dump_state(), "a:4 b:0 c:0 d:0 e:0 h:0 l:0 sp:0 pc:4 memory size:6");
}

#[test]
fn a_run_stops_when_the_budget_is_used_up() {
    // JMP 0 forever.
    let (state, outcome) = emulate_all(&[0xc300, 0x0000], 50);
    assert_eq!(outcome, Ok(Status::Running));
    assert_eq!(state.pc, 0);
    let (state, outcome) = emulate_all(&[0x3c3c, 0x3c3c, 0x3c00, 0x0000], 3);
    assert_eq!(outcome, Ok(Status::Running));
    assert_eq!(state.a, 3);
    assert_eq!(state.pc, 3);
    let (state, outcome) = emulate_all(&[0x3c3c, 0x3c3c, 0x3c00, 0x0000], 0);
    assert_eq!(outcome, Ok(Status::Running));
    assert_eq!(state.pc, 0);
}

#[test]
fn a_run_stops_at_a_fault() {
    // INR A three times, then the fetch runs off the end of memory.
    let (state, outcome) = emulate_all(&[0x3c3c, 0x3c00], 100);
    assert_eq!(outcome, Err(Fault::OutOfBoundsMemoryAccess { pc: 2, opcode: Some(0x3c) }));
    assert_eq!(state.a, 2);
    assert_eq!(state.pc, 2);
    let (state, outcome) = emulate_all(&[], 100);
    assert_eq!(outcome, Err(Fault::OutOfBoundsMemoryAccess { pc: 0, opcode: None }));
    assert_eq!(state.memory.size(), 0);
}

#[test]
fn a_loop_that_counts_down() {
    // MVI B,5; MVI A,0; loop: ADD B; DCR B; JNZ loop; HLT
    let program = [0x06, 0x05, 0x3e, 0x00, 0x80, 0x05, 0xc2, 0x04, 0x00, 0x76, 0x00, 0x00];
    let mut state = State8080::new(0x40);
    state.load(&program, 0).unwrap();
    assert_eq!(run_until_halt(&mut state, 10), Ok(Status::Running));
    assert_eq!(run_until_halt(&mut state, 1000), Ok(Status::Halted));
    assert_eq!(state.a, 15);
    assert_eq!(state.b, 0);
    assert_eq!(state.pc, 10);
    assert!(state.cc.z);
}

#[test]
fn a_subroutine_that_doubles() {
    // LXI SP,0x40; MVI A,0x15; CALL 0x10; HLT ... 0x10: ADD A; RET
    let mut state = State8080::new(0x40);
    state.load(&[0x31, 0x40, 0x00, 0x3e, 0x15, 0xcd, 0x10, 0x00, 0x76, 0x00, 0x00], 0).unwrap();
    state.load(&[0x87, 0xc9], 0x10).unwrap();
    assert_eq!(run_until_halt(&mut state, 100), Ok(Status::Halted));
    assert_eq!(state.a, 0x2a);
    assert_eq!(state.sp, 0x40);
    assert_eq!(state.pc, 9);
    assert_eq!(state.get_mem(0x3e), Ok(0x08));
    assert_eq!(state.get_mem(0x3f), Ok(0x00));
}
