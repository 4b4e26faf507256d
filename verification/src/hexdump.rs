//! Reading a program from the text of a hex dump.
//!
//! A dump is a text of lines. Each line holds words separated by white space; the
//! first word of a line, and every ninth word after it, is a line number and is
//! skipped. Every other word is a 16-bit value in hexadecimal.

use vstd::prelude::*;
use vstd::slice::slice_subrange;

verus! {

/// The error of a word that is not a 16-bit hexadecimal number. `offset` is the
/// position in the text of the first byte of the word.
#[derive(Clone, Copy, Debug, PartialEq, Eq, Structural)]
pub struct BadWord {
    pub offset: usize,
}

/// ASCII white space: blank, tab, line feed, vertical tab, form feed, carriage
/// return.
pub open spec fn is_space(byte: u8) -> bool {
    byte == 32 || (9 <= byte <= 13)
}

/// The value of a hexadecimal digit, in either case.
pub open spec fn hex_digit(byte: u8) -> Option<nat> {
    if 48 <= byte <= 57 {
        Some((byte - 48) as nat)
    } else if 97 <= byte <= 102 {
        Some((byte - 87) as nat)
    } else if 65 <= byte <= 70 {
        Some((byte - 55) as nat)
    } else {
        None
    }
}

/// Whether every byte of `digits` is a hexadecimal digit.
pub open spec fn all_hex(digits: Seq<u8>) -> bool {
    forall|i: int| 0 <= i < digits.len() ==> (#[trigger] hex_digit(digits[i])) is Some
}

/// The number that a sequence of hexadecimal digits stands for.
pub open spec fn hex_number(digits: Seq<u8>) -> nat
    decreases digits.len(),
{
    if digits.len() == 0 {
        0
    } else {
        hex_number(digits.drop_last()) * 16 + hex_digit(digits.last()).unwrap()
    }
}

/// The digits of a word: the word without a leading plus sign.
pub open spec fn digits_of(token: Seq<u8>) -> Seq<u8> {
    if token.len() > 0 && token[0] == 43 {
        token.subrange(1, token.len() as int)
    } else {
        token
    }
}

/// The 16-bit value of a word: an optional plus sign and then one or more
/// hexadecimal digits whose number fits in 16 bits. Any other word has no value.
pub open spec fn hex_word(token: Seq<u8>) -> Option<u16> {
    let digits = digits_of(token);
    if digits.len() > 0 && all_hex(digits) && hex_number(digits) <= 0xffff {
        Some(hex_number(digits) as u16)
    } else {
        None
    }
}

/// The end of the word that starts at `start`: the position of the next white
/// space, or the end of the text.
pub open spec fn word_end(text: Seq<u8>, start: int) -> int
    decreases text.len() - start,
{
    if start < 0 || start >= text.len() || is_space(text[start]) {
        start
    } else {
        word_end(text, start + 1)
    }
}

/// The words of the dump from position `at` on, where `column` words of the
/// current line have been seen: words in a column divisible by 9 are skipped, the
/// others are read as hexadecimal. The first word that cannot be read is an
/// error.
pub open spec fn words_from(text: Seq<u8>, at: int, column: nat) -> Result<Seq<u16>, BadWord>
    decreases text.len() - at,
    via words_from_terminates
{
    if at < 0 || at >= text.len() {
        Ok(Seq::empty())
    } else if text[at] == 10 {
        words_from(text, at + 1, 0)
    } else if is_space(text[at]) {
        words_from(text, at + 1, column)
    } else {
        let end = word_end(text, at);
        if column % 9 == 0 {
            words_from(text, end, column + 1)
        } else {
            match hex_word(text.subrange(at, end)) {
                Some(value) => following(value, words_from(text, end, column + 1)),
                None => Err(BadWord { offset: at as usize }),
            }
        }
    }
}

#[via_fn]
proof fn words_from_terminates(text: Seq<u8>, at: int, column: nat) {
    if 0 <= at < text.len() && !is_space(text[at]) {
        lemma_word_end(text, at);
    }
}

/// `rest` with `value` put in front where it is a sequence of words.
pub open spec fn following(value: u16, rest: Result<Seq<u16>, BadWord>) -> Result<
    Seq<u16>,
    BadWord,
> {
    match rest {
        Ok(words) => Ok(seq![value] + words),
        Err(error) => Err(error),
    }
}

/// The words of a whole dump.
pub open spec fn dump_words(text: Seq<u8>) -> Result<Seq<u16>, BadWord> {
    words_from(text, 0, 0)
}

/// A word ends after its start, at white space or at the end of the text, and
/// holds no white space.
pub proof fn lemma_word_end(text: Seq<u8>, start: int)
    requires
        0 <= start < text.len(),
        !is_space(text[start]),
    ensures
        start < word_end(text, start) <= text.len(),
        word_end(text, start) < text.len() ==> is_space(text[word_end(text, start)]),
        forall|i: int| start <= i < word_end(text, start) ==> !is_space(#[trigger] text[i]),
    decreases text.len() - start,
{
    assert(word_end(text, start) == word_end(text, start + 1));
    if start + 1 < text.len() && !is_space(text[start + 1]) {
        lemma_word_end(text, start + 1);
    } else {
        assert(word_end(text, start + 1) == start + 1);
    }
}

/// Digits put after others only make the number larger.
pub proof fn lemma_hex_number_grows(digits: Seq<u8>, k: int)
    requires
        0 <= k <= digits.len(),
        all_hex(digits),
    ensures
        hex_number(digits.subrange(0, k)) <= hex_number(digits),
    decreases digits.len() - k,
{
    if k < digits.len() {
        let longer = digits.subrange(0, k + 1);
        assert(longer.drop_last() =~= digits.subrange(0, k));
        assert(hex_digit(digits[k]) is Some);
        lemma_hex_number_grows(digits, k + 1);
    } else {
        assert(digits.subrange(0, k) =~= digits);
    }
}

/// Whether a byte is ASCII white space.
pub fn is_space_byte(byte: u8) -> (space: bool)
    ensures
        space == is_space(byte),
{
    byte == 32 || (9 <= byte && byte <= 13)
}

/// The value of a hexadecimal digit, if the byte is one.
pub fn hex_digit_value(byte: u8) -> (value: Option<u8>)
    ensures
        match hex_digit(byte) {
            Some(digit) => value == Some(digit as u8) && digit < 16,
            None => value is None,
        },
{
    if 48 <= byte && byte <= 57 {
        Some(byte - 48)
    } else if 97 <= byte && byte <= 102 {
        Some(byte - 87)
    } else if 65 <= byte && byte <= 70 {
        Some(byte - 55)
    } else {
        None
    }
}

/// Reads a word as a 16-bit hexadecimal number.
pub fn parse_word(token: &[u8]) -> (value: Option<u16>)
    ensures
        value == hex_word(token@),
{
    let end: usize = token.len();
    let first: usize = if end > 0 && token[0] == 43 {
        1
    } else {
        0
    };
    let ghost digits = digits_of(token@);
    assert(digits =~= token@.subrange(first as int, end as int));
    if first == end {
        return None;
    }
    let mut number: u32 = 0;
    let mut k: usize = first;
    while k < end
        invariant
            first <= k <= end == token@.len(),
            digits == token@.subrange(first as int, end as int),
            digits == digits_of(token@),
            all_hex(digits.subrange(0, k - first)),
            number == hex_number(digits.subrange(0, k - first)),
            number <= 0xffff,
        decreases end - k,
    {
        let ghost before = digits.subrange(0, k - first);
        let ghost longer = digits.subrange(0, k - first + 1);
        assert(longer.drop_last() =~= before);
        assert(longer.last() == token@[k as int]);
        match hex_digit_value(token[k]) {
            Some(digit) => {
                assert forall|i: int| 0 <= i < longer.len() implies (#[trigger] hex_digit(
                    longer[i],
                )) is Some by {
                    if i < before.len() {
                        assert(longer[i] == before[i]);
                    }
                }
                let next: u32 = number * 16 + digit as u32;
                assert(next == hex_number(longer));
                if next > 0xffff {
                    proof {
                        if all_hex(digits) {
                            lemma_hex_number_grows(digits, k - first + 1);
                        }
                    }
                    return None;
                }
                number = next;
            },
            None => {
                assert(digits[k - first] == token@[k as int]);
                assert(!all_hex(digits));
                return None;
            },
        }
        k = k + 1;
    }
    assert(digits.subrange(0, end - first) =~= digits);
    Some(number as u16)
}

/// Reads the 16-bit words of a hex dump. The first word of each line and every
/// ninth word after it are skipped as line numbers; a word that is not a 16-bit
/// hexadecimal number is an error.
pub fn parse_hex_dump(text: &[u8]) -> (r: Result<Vec<u16>, BadWord>)
    ensures
        match dump_words(text@) {
            Ok(words) => r is Ok && r->Ok_0@ == words,
            Err(error) => r == Err::<Vec<u16>, BadWord>(error),
        },
{
    let mut words: Vec<u16> = Vec::new();
    let mut at: usize = 0;
    let mut column: usize = 0;
    while at < text.len()
        invariant
            at <= text@.len(),
            column <= at,
            match words_from(text@, at as int, column as nat) {
                Ok(rest) => dump_words(text@) == Ok::<Seq<u16>, BadWord>(words@ + rest),
                Err(error) => dump_words(text@) == Err::<Seq<u16>, BadWord>(error),
            },
        decreases text@.len() - at,
    {
        let byte: u8 = text[at];
        if byte == 10 {
            at = at + 1;
            column = 0;
        } else if is_space_byte(byte) {
            at = at + 1;
        } else {
            proof {
                lemma_word_end(text@, at as int);
            }
            let mut end: usize = at + 1;
            while end < text.len() && !is_space_byte(text[end])
                invariant
                    at < end <= text@.len(),
                    word_end(text@, at as int) == word_end(text@, end as int),
                    at < text@.len(),
                    !is_space(text@[at as int]),
                decreases text@.len() - end,
            {
                end = end + 1;
            }
            assert(end == word_end(text@, at as int));
            if column % 9 != 0 {
                match parse_word(slice_subrange(text, at, end)) {
                    Some(value) => {
                        let ghost before = words@;
                        words.push(value);
                        proof {
                            match words_from(text@, end as int, (column + 1) as nat) {
                                Ok(rest) => {
                                    assert(before + (seq![value] + rest) =~= words@ + rest);
                                },
                                Err(_) => {},
                            }
                        }
                    },
                    None => {
                        return Err(BadWord { offset: at });
                    },
                }
            }
            at = end;
            column = column + 1;
        }
    }
    assert(words@ + Seq::<u16>::empty() =~= words@);
    Ok(words)
}

} // verus!
