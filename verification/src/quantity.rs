//! Quantities on the wire: unsigned integers written as `0x` and hexadecimal
//! digits.

use crate::error::FetchError;
use vstd::prelude::*;
use vstd::string::{is_ascii_spec_bytes, StringExecFns};

verus! {

/// `c` is a hexadecimal digit, in either case.
pub open spec fn is_hex_digit(c: char) -> bool {
    ('0' <= c && c <= '9') || ('a' <= c && c <= 'f') || ('A' <= c && c <= 'F')
}

/// The value of the hexadecimal digit `c`.
pub open spec fn digit_value(c: char) -> nat {
    if '0' <= c && c <= '9' {
        (c as u32 - '0' as u32) as nat
    } else if 'a' <= c && c <= 'f' {
        (c as u32 - 'a' as u32 + 10) as nat
    } else {
        (c as u32 - 'A' as u32 + 10) as nat
    }
}

/// The lower-case hexadecimal digit of value `d`, for `d` below 16.
pub open spec fn digit_char(d: nat) -> char {
    if d < 10 {
        ('0' as u32 + d) as char
    } else {
        ('a' as u32 + d - 10) as char
    }
}

/// Every character of `digits` is a hexadecimal digit.
pub open spec fn all_hex(digits: Seq<char>) -> bool {
    forall|i: int| 0 <= i < digits.len() ==> is_hex_digit(#[trigger] digits[i])
}

/// The number that `digits` write in base 16, most significant digit first.
pub open spec fn hex_value(digits: Seq<char>) -> nat
    decreases digits.len(),
{
    if digits.len() == 0 {
        0
    } else {
        16 * hex_value(digits.drop_last()) + digit_value(digits.last())
    }
}

/// The digits of `n` in base 16, lower case, without leading zeros: the one
/// digit `0` for zero.
pub open spec fn hex_digits(n: nat) -> Seq<char>
    decreases n,
{
    if n < 16 {
        seq![digit_char(n)]
    } else {
        hex_digits(n / 16).push(digit_char(n % 16))
    }
}

/// The text of the quantity `n`: `0x`, then its digits.
pub open spec fn quantity_text(n: nat) -> Seq<char> {
    seq!['0', 'x'] + hex_digits(n)
}

/// The quantity that `text` writes, if it writes one that fits 64 bits:
/// `0x`, then at least one hexadecimal digit and nothing else. Leading zeros
/// and upper-case digits are read; a sign, spaces or an upper-case `X` are
/// not.
pub open spec fn quantity(text: Seq<char>) -> Option<u64> {
    let digits = text.skip(2);
    if text.len() >= 3 && text[0] == '0' && text[1] == 'x' && all_hex(digits) && hex_value(digits)
        <= u64::MAX {
        Some(hex_value(digits) as u64)
    } else {
        None
    }
}

/// A number is no smaller than what any of its leading digits write.
pub proof fn lemma_hex_value_prefix(digits: Seq<char>, n: int)
    requires
        0 <= n <= digits.len(),
    ensures
        hex_value(digits.take(n)) <= hex_value(digits),
    decreases digits.len(),
{
    if n == digits.len() {
        assert(digits.take(n) =~= digits);
    } else {
        lemma_hex_value_prefix(digits.drop_last(), n);
        assert(digits.drop_last().take(n) =~= digits.take(n));
    }
}

/// The digits written for a number are hexadecimal digits, and read back as
/// that number.
pub proof fn lemma_hex_digits_value(n: nat)
    ensures
        hex_digits(n).len() >= 1,
        all_hex(hex_digits(n)),
        hex_value(hex_digits(n)) == n,
    decreases n,
{
    if n < 16 {
        let digits = hex_digits(n);
        assert(hex_value(digits.drop_last()) == 0);
    } else {
        lemma_hex_digits_value(n / 16);
        let digits = hex_digits(n);
        assert(digits.drop_last() =~= hex_digits(n / 16));
    }
}

/// Writing a quantity and reading it back gives the same number.
pub proof fn law_quantity_round_trip(n: u64)
    ensures
        quantity(quantity_text(n as nat)) == Some(n),
{
    lemma_hex_digits_value(n as nat);
    assert(quantity_text(n as nat).skip(2) =~= hex_digits(n as nat));
}

/// The value of the ASCII byte `byte` as a hexadecimal digit, if it is one.
/// `c` is the character that the byte encodes.
fn hex_digit(byte: u8, Ghost(c): Ghost<char>) -> (digit: Option<u64>)
    requires
        c as u32 == byte as u32,
    ensures
        match digit {
            Some(d) => is_hex_digit(c) && d == digit_value(c),
            None => !is_hex_digit(c),
        },
{
    if 48 <= byte && byte <= 57 {
        Some((byte - 48) as u64)
    } else if 97 <= byte && byte <= 102 {
        Some((byte - 97 + 10) as u64)
    } else if 65 <= byte && byte <= 70 {
        Some((byte - 65 + 10) as u64)
    } else {
        None
    }
}

/// Reads the quantity that `text` writes.
///
/// Anything that is not `0x` followed by hexadecimal digits, or that is too
/// large for 64 bits, is a decode error; no value is made up in its place.
pub fn decode_quantity(text: &str) -> (result: Result<u64, FetchError>)
    ensures
        result == (match quantity(text@) {
            Some(n) => Ok::<u64, FetchError>(n),
            None => Err(FetchError::Decode),
        }),
{
    if !text.is_ascii() {
        proof {
            let i = choose|i: int|
                0 <= i < text@.len() && !('\0' <= #[trigger] text@[i] && text@[i] <= '\u{7f}');
            if i >= 2 && text@.len() >= 3 {
                assert(text@.skip(2)[i - 2] == text@[i]);
            }
        }
        return Err(FetchError::Decode);
    }
    let bytes = text.as_bytes();
    let len = bytes.len();
    proof {
        is_ascii_spec_bytes(text);
    }
    if len < 3 || bytes[0] != 48 || bytes[1] != 120 {
        return Err(FetchError::Decode);
    }
    let ghost digits = text@.skip(2);
    let mut value: u64 = 0;
    let mut i: usize = 2;
    while i < len
        invariant
            2 <= i <= len,
            len == text@.len(),
            len == bytes@.len(),
            forall|j: int| 0 <= j < len ==> (#[trigger] bytes@[j]) as u32 == text@[j] as u32,
            digits == text@.skip(2),
            all_hex(digits.take(i - 2)),
            value == hex_value(digits.take(i - 2)),
        decreases len - i,
    {
        let ghost c = text@[i as int];
        assert(digits.take(i - 1).drop_last() =~= digits.take(i - 2));
        assert(digits.take(i - 1).last() == c);
        match hex_digit(bytes[i], Ghost(c)) {
            None => {
                return Err(FetchError::Decode);
            },
            Some(d) => {
                if value > 0x0fff_ffff_ffff_ffff {
                    proof {
                        lemma_hex_value_prefix(digits, i - 1);
                    }
                    return Err(FetchError::Decode);
                }
                value = value * 16 + d;
            },
        }
        i += 1;
    }
    assert(digits.take(len - 2) =~= digits);
    Ok(value)
}

/// The one-character text of the hexadecimal digit of value `d`.
fn digit_text(d: u64) -> (text: &'static str)
    requires
        d < 16,
    ensures
        text@ == seq![digit_char(d as nat)],
{
    proof {
        reveal_strlit("0");
        reveal_strlit("1");
        reveal_strlit("2");
        reveal_strlit("3");
        reveal_strlit("4");
        reveal_strlit("5");
        reveal_strlit("6");
        reveal_strlit("7");
        reveal_strlit("8");
        reveal_strlit("9");
        reveal_strlit("a");
        reveal_strlit("b");
        reveal_strlit("c");
        reveal_strlit("d");
        reveal_strlit("e");
        reveal_strlit("f");
    }
    if d == 0 {
        "0"
    } else if d == 1 {
        "1"
    } else if d == 2 {
        "2"
    } else if d == 3 {
        "3"
    } else if d == 4 {
        "4"
    } else if d == 5 {
        "5"
    } else if d == 6 {
        "6"
    } else if d == 7 {
        "7"
    } else if d == 8 {
        "8"
    } else if d == 9 {
        "9"
    } else if d == 10 {
        "a"
    } else if d == 11 {
        "b"
    } else if d == 12 {
        "c"
    } else if d == 13 {
        "d"
    } else if d == 14 {
        "e"
    } else {
        "f"
    }
}

/// Appends the hexadecimal digits of `n` to `out`.
fn push_hex_digits(out: &mut String, n: u64)
    ensures
        final(out)@ == old(out)@ + hex_digits(n as nat),
    decreases n,
{
    if n >= 16 {
        push_hex_digits(out, n / 16);
    }
    out.append(digit_text(n % 16));
}

/// Writes `n` as a quantity: `0x`, then its hexadecimal digits in lower case
/// without leading zeros.
pub fn encode_quantity(n: u64) -> (text: String)
    ensures
        text@ == quantity_text(n as nat),
        quantity(text@) == Some(n),
{
    proof {
        reveal_strlit("0x");
        law_quantity_round_trip(n);
    }
    let mut text = String::from_str("0x");
    assert(text@ =~= seq!['0', 'x']);
    push_hex_digits(&mut text, n);
    text
}

} // verus!
