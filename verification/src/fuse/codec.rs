//! File contents as text: padded base64 over the standard alphabet.

use base64::Engine;
use vstd::prelude::*;

verus! {

/// The error of a text that is no base64. Which part of the text is at fault does not matter
/// here.
#[verifier::external_type_specification]
#[verifier::external_body]
pub struct ExDecodeError(base64::DecodeError);

/// The digit of the standard alphabet for a number below 64.
pub open spec fn base64_digit(number: int) -> char {
    if number < 26 {
        ('A' as int + number) as char
    } else if number < 52 {
        ('a' as int + (number - 26)) as char
    } else if number < 62 {
        ('0' as int + (number - 52)) as char
    } else if number == 62 {
        '+'
    } else {
        '/'
    }
}

/// The three bytes from `start` on as one number of 24 bits. Those behind the end are zero.
pub open spec fn base64_group(bytes: Seq<u8>, start: int) -> int {
    let second = if start + 1 < bytes.len() {
        bytes[start + 1] as int
    } else {
        0
    };
    let third = if start + 2 < bytes.len() {
        bytes[start + 2] as int
    } else {
        0
    };
    bytes[start] * 0x1_0000 + second * 0x100 + third
}

/// The text that `bytes` are written as. Every three bytes, and what is left over, are four
/// digits of six bits each, the highest bits first. A digit that stands for no bit of a byte is
/// an equals sign.
pub open spec fn base64_text(bytes: Seq<u8>) -> Seq<char> {
    Seq::new(
        (bytes.len() + 2) / 3 * 4,
        |i: int|
            {
                let start = i / 4 * 3;
                let group = base64_group(bytes, start);
                if start + i % 4 > bytes.len() {
                    '='
                } else if i % 4 == 0 {
                    base64_digit(group / 0x4_0000)
                } else if i % 4 == 1 {
                    base64_digit(group / 0x1000 % 64)
                } else if i % 4 == 2 {
                    base64_digit(group / 0x40 % 64)
                } else {
                    base64_digit(group % 64)
                }
            },
    )
}

/// The bytes that `STANDARD.decode` reads from `text`, or none where it reports an error.
pub uninterp spec fn base64_bytes(text: Seq<char>) -> Option<Seq<u8>>;

/// Whether the text of `len` bytes fits in one allocation. Every three bytes, and what is left
/// over, take four characters.
pub open spec fn encodable(len: nat) -> bool {
    (len + 2) / 3 * 4 <= isize::MAX
}

/// Bytes that fill `groups` groups of three, the last one perhaps not wholly, have a text that fits
/// exactly if four times as many characters do.
pub proof fn law_encodable(len: nat, groups: nat)
    requires
        len <= groups * 3 < len + 3,
    ensures
        encodable(len) <==> groups * 4 <= isize::MAX,
{
}

/// The number that a digit of the standard alphabet stands for.
pub open spec fn digit_value(digit: char) -> int {
    if 'A' <= digit <= 'Z' {
        digit as int - 'A' as int
    } else if 'a' <= digit <= 'z' {
        digit as int - 'a' as int + 26
    } else if '0' <= digit <= '9' {
        digit as int - '0' as int + 52
    } else if digit == '+' {
        62
    } else {
        63
    }
}

/// The bytes can be read off their text. The text of every three bytes is four digits, whose values
/// in the base 64 make up the same number as the bytes do in the base 256. Two bytes that are left
/// over are three digits and an equals sign, one byte is two digits and two of them, and the digits
/// stand for the bytes followed by zeros.
pub proof fn law_text_tells_bytes(bytes: Seq<u8>, group: int)
    requires
        0 <= group * 3 < bytes.len(),
    ensures
        ({
            let text = base64_text(bytes);
            let left = bytes.len() - group * 3;
            let first = digit_value(text[group * 4]) * 64 + digit_value(text[group * 4 + 1]);
            &&& text.len() == (bytes.len() + 2) / 3 * 4
            &&& group * 4 + 3 < text.len()
            &&& left >= 3 ==> (first * 64 + digit_value(text[group * 4 + 2])) * 64 + digit_value(
                text[group * 4 + 3],
            ) == (bytes[group * 3] * 256 + bytes[group * 3 + 1]) * 256 + bytes[group * 3 + 2]
            &&& left == 2 ==> {
                &&& first * 64 + digit_value(text[group * 4 + 2]) == (bytes[group * 3] * 256
                    + bytes[group * 3 + 1]) * 4
                &&& text[group * 4 + 3] == '='
            }
            &&& left == 1 ==> {
                &&& first == bytes[group * 3] * 16
                &&& text[group * 4 + 2] == '='
                &&& text[group * 4 + 3] == '='
            }
        }),
{
    let number = base64_group(bytes, group * 3);
    lemma_digits_of_group(bytes, group);
    lemma_digits_join(number);
}

/// The digits of a group, as far as there are bytes for them.
proof fn lemma_digits_of_group(bytes: Seq<u8>, group: int)
    requires
        0 <= group * 3 < bytes.len(),
    ensures
        ({
            let text = base64_text(bytes);
            let number = base64_group(bytes, group * 3);
            let left = bytes.len() - group * 3;
            &&& group * 4 + 3 < text.len()
            &&& 0 <= number < 0x100_0000
            &&& digit_value(text[group * 4]) == number / 0x4_0000
            &&& digit_value(text[group * 4 + 1]) == number / 0x1000 % 64
            &&& left >= 2 ==> digit_value(text[group * 4 + 2]) == number / 0x40 % 64
            &&& left >= 3 ==> digit_value(text[group * 4 + 3]) == number % 64
            &&& left < 2 ==> text[group * 4 + 2] == '='
            &&& left < 3 ==> text[group * 4 + 3] == '='
        }),
{
    let number = base64_group(bytes, group * 3);
    assert((group * 4) / 4 * 3 == group * 3 && (group * 4) % 4 == 0);
    assert((group * 4 + 1) / 4 * 3 == group * 3 && (group * 4 + 1) % 4 == 1);
    assert((group * 4 + 2) / 4 * 3 == group * 3 && (group * 4 + 2) % 4 == 2);
    assert((group * 4 + 3) / 4 * 3 == group * 3 && (group * 4 + 3) % 4 == 3);
    lemma_digit_value(number / 0x4_0000);
    lemma_digit_value(number / 0x1000 % 64);
    lemma_digit_value(number / 0x40 % 64);
    lemma_digit_value(number % 64);
}

proof fn lemma_digits_join(number: int)
    requires
        0 <= number,
    ensures
        number / 0x4_0000 * 64 + number / 0x1000 % 64 == number / 0x1000,
        number / 0x1000 * 64 + number / 0x40 % 64 == number / 0x40,
        number / 0x40 * 64 + number % 64 == number,
{
}

proof fn lemma_digit_value(number: int)
    requires
        0 <= number < 64,
    ensures
        digit_value(base64_digit(number)) == number,
{
}

/// Whether the text of `len` bytes fits in one allocation.
pub fn is_encodable(len: usize) -> (answer: bool)
    ensures
        answer == encodable(len as nat),
{
    let groups: usize = len / 3 + if len % 3 > 0 {
        1
    } else {
        0
    };
    groups <= isize::MAX as usize / 4
}

/// `base64::Engine::encode` of the engine `base64::engine::general_purpose::STANDARD`. Claims
/// that the text is padded base64 over the standard alphabet, and that `STANDARD.decode` reads the
/// same bytes back from it. It panics where the text would not fit in one allocation.
#[verifier::external_body]
pub(crate) fn standard_encode(bytes: &[u8]) -> (text: String)
    requires
        encodable(bytes@.len()),
    ensures
        text@ == base64_text(bytes@),
        base64_bytes(text@) == Some(bytes@),
{
    base64::engine::general_purpose::STANDARD.encode(bytes)
}

/// `base64::Engine::decode` of the engine `base64::engine::general_purpose::STANDARD`. Claims
/// that the outcome depends on the text alone.
#[verifier::external_body]
fn standard_decode(text: &str) -> (outcome: Result<Vec<u8>, base64::DecodeError>)
    ensures
        match outcome {
            Ok(bytes) => base64_bytes(text@) == Some(bytes@),
            Err(_) => base64_bytes(text@) is None,
        },
{
    base64::engine::general_purpose::STANDARD.decode(text)
}

/// The bytes that `text` stands for, if it is base64.
pub fn decode(text: &str) -> (bytes: Option<Vec<u8>>)
    ensures
        match bytes {
            Some(read) => base64_bytes(text@) == Some(read@),
            None => base64_bytes(text@) is None,
        },
{
    match standard_decode(text) {
        Ok(bytes) => Some(bytes),
        Err(_) => None,
    }
}

} // verus!
