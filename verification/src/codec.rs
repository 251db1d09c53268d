use vstd::prelude::*;
use base64::Engine;

verus! {

/// The lower-case hexadecimal digit of a value below sixteen.
pub open spec fn hex_digit(n: int) -> char {
    if n < 10 {
        (('0' as int) + n) as char
    } else {
        (('a' as int) + n - 10) as char
    }
}

/// The `k`-th hexadecimal digit of a 128-bit value, from the most significant.
pub open spec fn nibble(v: u128, k: int) -> int {
    ((v as int) / vstd::arithmetic::power::pow(16, (31 - k) as nat)) % 16
}

/// The position among the 32 digits of the `i`-th character of the hyphenated form.
pub open spec fn digit_position(i: int) -> int {
    if i < 8 {
        i
    } else if i < 13 {
        i - 1
    } else if i < 18 {
        i - 2
    } else if i < 23 {
        i - 3
    } else {
        i - 4
    }
}

/// The hyphenated lower-case text of a UUID given as a big-endian 128-bit value:
/// 32 hexadecimal digits in groups of 8, 4, 4, 4 and 12, separated by `-`.
pub open spec fn uuid_text_spec(v: u128) -> Seq<char> {
    Seq::new(36, |i: int|
        if i == 8 || i == 13 || i == 18 || i == 23 {
            '-'
        } else {
            hex_digit(nibble(v, digit_position(i)))
        })
}

/// `uuid::Uuid::from_u128(id).to_string()`: the hyphenated lower-case text of the UUID.
#[verifier::external_body]
pub fn uuid_text(id: u128) -> (s: String)
    ensures
        s@ == uuid_text_spec(id),
{
    uuid::Uuid::from_u128(id).to_string()
}

/// The character of the standard base64 alphabet for a value below 64.
pub open spec fn base64_char(n: int) -> char {
    if n < 26 {
        (('A' as int) + n) as char
    } else if n < 52 {
        (('a' as int) + n - 26) as char
    } else if n < 62 {
        (('0' as int) + n - 52) as char
    } else if n == 62 {
        '+'
    } else {
        '/'
    }
}

/// The standard base64 encoding (RFC 4648, section 4) with `=` padding.
pub open spec fn base64_standard(b: Seq<u8>) -> Seq<char>
    decreases b.len(),
{
    if b.len() == 0 {
        Seq::<char>::empty()
    } else {
        let x = b[0] as int;
        let y = if b.len() > 1 { b[1] as int } else { 0 };
        let z = if b.len() > 2 { b[2] as int } else { 0 };
        if b.len() == 1 {
            seq![base64_char(x / 4), base64_char((x % 4) * 16), '=', '=']
        } else if b.len() == 2 {
            seq![base64_char(x / 4), base64_char((x % 4) * 16 + y / 16), base64_char((y % 16) * 4), '=']
        } else {
            seq![
                base64_char(x / 4),
                base64_char((x % 4) * 16 + y / 16),
                base64_char((y % 16) * 4 + z / 64),
                base64_char(z % 64),
            ] + base64_standard(b.subrange(3, b.len() as int))
        }
    }
}

/// The padded base64 length of `n` bytes fits in `usize`: the one condition
/// under which the engine does not panic.
pub open spec fn base64_length_fits(n: nat) -> bool {
    (n / 3) * 4 + (if n % 3 > 0 { 4int } else { 0int }) <= usize::MAX
}

/// `base64::engine::general_purpose::STANDARD.encode(bytes)`: the standard
/// base64 encoding with padding. The engine panics only when the encoded
/// length overflows `usize`, which the requirement rules out.
#[verifier::external_body]
pub fn encode_base64_standard(bytes: &[u8]) -> (s: String)
    requires
        base64_length_fits(bytes@.len()),
    ensures
        s@ == base64_standard(bytes@),
{
    base64::engine::general_purpose::STANDARD.encode(bytes)
}

} // verus!
