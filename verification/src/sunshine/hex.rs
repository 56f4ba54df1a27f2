//! Hexadecimal text, as the pairing protocol carries binary values.
use vstd::prelude::*;
use vstd::utf8::*;

verus! {

/// The value of a hexadecimal digit, given as its ASCII byte.
pub open spec fn hex_digit(byte: u8) -> Option<u8> {
    if '0' as u8 <= byte <= '9' as u8 {
        Some((byte - '0' as u8) as u8)
    } else if 'a' as u8 <= byte <= 'f' as u8 {
        Some((byte - 'a' as u8 + 10) as u8)
    } else if 'A' as u8 <= byte <= 'F' as u8 {
        Some((byte - 'A' as u8 + 10) as u8)
    } else {
        None
    }
}

/// The byte string that a row of hexadecimal digits writes, two digits to a byte.
pub open spec fn decode_hex(text: Seq<u8>) -> Option<Seq<u8>> {
    if text.len() % 2 == 0 && (forall|i: int|
        0 <= i < text.len() ==> hex_digit(#[trigger] text[i]) is Some) {
        Some(
            Seq::new(
                text.len() / 2,
                |i: int|
                    (hex_digit(text[2 * i])->0 * 16 + hex_digit(text[2 * i + 1])->0) as u8,
            ),
        )
    } else {
        None
    }
}

/// The lower-case digit of a value below sixteen.
pub open spec fn hex_char(v: u8) -> char {
    if v < 10 {
        (v + '0' as u8) as u8 as char
    } else {
        (v - 10 + 'a' as u8) as u8 as char
    }
}

/// Two lower-case digits for every byte, the high half first.
pub open spec fn encode_hex(bytes: Seq<u8>) -> Seq<char> {
    Seq::new(
        2 * bytes.len(),
        |i: int|
            if i % 2 == 0 {
                hex_char(bytes[i / 2] / 16)
            } else {
                hex_char(bytes[i / 2] % 16)
            },
    )
}

/// The value of a hexadecimal digit.
pub fn hex_val(byte: u8) -> (r: Option<u8>)
    ensures
        r == hex_digit(byte),
{
    if 48 <= byte && byte <= 57 {
        Some(byte - 48)
    } else if 97 <= byte && byte <= 102 {
        Some(byte - 97 + 10)
    } else if 65 <= byte && byte <= 70 {
        Some(byte - 65 + 10)
    } else {
        None
    }
}

/// Reads hexadecimal text. Fails on an odd number of bytes and on anything but digits.
pub fn hex_decode(input: &str) -> (r: Result<Vec<u8>, ()>)
    ensures
        match r {
            Ok(v) => decode_hex(encode_utf8(input@)) == Some(v@),
            Err(_) => decode_hex(encode_utf8(input@)) is None,
        },
{
    let text = input.as_bytes();
    let n: usize = text.len();
    if n % 2 != 0 {
        return Err(());
    }
    let mut out: Vec<u8> = Vec::new();
    let mut i: usize = 0;
    while i < n
        invariant
            i <= n,
            n == text@.len(),
            n % 2 == 0,
            i % 2 == 0,
            text@ == encode_utf8(input@),
            out@.len() == i / 2,
            forall|j: int| 0 <= j < i ==> hex_digit(#[trigger] text@[j]) is Some,
            forall|k: int|
                0 <= k < i / 2 ==> #[trigger] out@[k] == (hex_digit(text@[2 * k])->0 * 16
                    + hex_digit(text@[2 * k + 1])->0) as u8,
        decreases n - i,
    {
        let hi: u8 = match hex_val(text[i]) {
            Some(v) => v,
            None => {
                return Err(());
            },
        };
        let lo: u8 = match hex_val(text[i + 1]) {
            Some(v) => v,
            None => {
                return Err(());
            },
        };
        assert((hi << 4) | lo == (hi * 16 + lo) as u8) by (bit_vector)
            requires
                hi < 16,
                lo < 16,
        ;
        out.push((hi << 4) | lo);
        i = i + 2;
    }
    assert(out@ == decode_hex(encode_utf8(input@))->0);
    Ok(out)
}

/// Writes bytes as lower-case hexadecimal text.
pub fn hex_encode(input: &[u8]) -> (r: String)
    ensures
        r@ == encode_hex(input@),
{
    let mut out = String::new();
    let mut i: usize = 0;
    while i < input.len()
        invariant
            i <= input.len(),
            out@ == encode_hex(input@.take(i as int)),
        decreases input.len() - i,
    {
        let b: u8 = input[i];
        let ghost before = out@;
        out.push(digit_char(b / 16));
        out.push(digit_char(b % 16));
        i = i + 1;
        assert(encode_hex(input@.take(i as int)) == before.push(hex_char(b / 16)).push(
            hex_char((b % 16) as u8),
        ));
    }
    assert(input@.take(input@.len() as int) == input@);
    out
}

/// The lower-case digit of a value below sixteen.
fn digit_char(v: u8) -> (c: char)
    requires
        v < 16,
    ensures
        c == hex_char(v),
{
    if v < 10 {
        (v + 48) as char
    } else {
        (v - 10 + 97) as char
    }
}

/// Hexadecimal digits are ASCII, so their UTF-8 form has one byte per digit.
pub proof fn lemma_encode_hex_bytes(bytes: Seq<u8>)
    ensures
        encode_utf8(encode_hex(bytes)) == Seq::new(
            2 * bytes.len(),
            |i: int| encode_hex(bytes)[i] as u8,
        ),
        forall|i: int|
            0 <= i < 2 * bytes.len() ==> hex_digit(
                #[trigger] encode_utf8(encode_hex(bytes))[i],
            ) == Some(
                if i % 2 == 0 {
                    (bytes[i / 2] / 16) as u8
                } else {
                    (bytes[i / 2] % 16) as u8
                },
            ),
{
    let s = encode_hex(bytes);
    assert(is_ascii_chars(s));
    is_ascii_chars_encode_utf8(s);
    assert(encode_utf8(s) =~= Seq::new(2 * bytes.len(), |i: int| s[i] as u8));
}

/// Reading back written bytes gives the bytes.
pub proof fn hex_round_trip(bytes: Seq<u8>)
    ensures
        decode_hex(encode_utf8(encode_hex(bytes))) == Some(bytes),
{
    lemma_encode_hex_bytes(bytes);
    let t = encode_utf8(encode_hex(bytes));
    assert(forall|i: int| 0 <= i < t.len() ==> hex_digit(#[trigger] t[i]) is Some);
    assert forall|i: int| 0 <= i < bytes.len() implies #[trigger] decode_hex(t)->0[i]
        == bytes[i] by {
        assert(hex_digit(t[2 * i]) == Some((bytes[i] / 16) as u8));
        assert(hex_digit(t[2 * i + 1]) == Some((bytes[i] % 16) as u8));
    }
    assert(decode_hex(t)->0 == bytes);
}

/// Writing back what was read gives the same digits in lower case.
pub proof fn hex_rewrite(text: Seq<u8>)
    requires
        decode_hex(text) is Some,
    ensures
        encode_hex(decode_hex(text)->0) == text.map_values(
            |b: u8| crate::text::ascii_lower(b as char),
        ),
{
    let v = decode_hex(text)->0;
    assert forall|i: int| 0 <= i < text.len() implies #[trigger] encode_hex(v)[i]
        == crate::text::ascii_lower(text[i] as char) by {
        let k = i / 2;
        assert(hex_digit(text[2 * k]) is Some);
        assert(hex_digit(text[2 * k + 1]) is Some);
        assert(hex_digit(text[i]) is Some);
        assert(v[k] == (hex_digit(text[2 * k])->0 * 16 + hex_digit(text[2 * k + 1])->0) as u8);
    }
    assert(encode_hex(v) =~= text.map_values(|b: u8| crate::text::ascii_lower(b as char)));
}

/// A byte is written by two digits, the high half first, with digits from 0 to 9 and a to f.
pub proof fn a_byte_is_two_digits(bytes: Seq<u8>, i: int)
    requires
        0 <= i < bytes.len(),
    ensures
        encode_hex(bytes).len() == 2 * bytes.len(),
        encode_hex(bytes)[2 * i] == "0123456789abcdef"@[bytes[i] as int / 16],
        encode_hex(bytes)[2 * i + 1] == "0123456789abcdef"@[bytes[i] as int % 16],
{
    reveal_strlit("0123456789abcdef");
    assert((2 * i) / 2 == i && (2 * i) % 2 == 0);
    assert((2 * i + 1) / 2 == i && (2 * i + 1) % 2 == 1);
}

/// A digit counts the same in capitals and in small letters, and nothing else is a digit.
pub proof fn digits_count_up_to_fifteen(byte: u8)
    ensures
        hex_digit(byte) is Some <==> 0x30 <= byte <= 0x39 || 0x41 <= byte <= 0x46 || 0x61 <= byte
            <= 0x66,
        0x30 <= byte <= 0x39 ==> hex_digit(byte)->0 == byte - 0x30,
        0x41 <= byte <= 0x46 ==> hex_digit(byte)->0 == byte - 0x41 + 10,
        0x61 <= byte <= 0x66 ==> hex_digit(byte)->0 == byte - 0x61 + 10,
{
}

/// Two digits are read as one byte, the first as its high half.
pub proof fn two_digits_are_a_byte(text: Seq<u8>, i: int)
    requires
        decode_hex(text) is Some,
        0 <= i < text.len() / 2,
    ensures
        (decode_hex(text)->0).len() * 2 == text.len(),
        (decode_hex(text)->0)[i] == hex_digit(text[2 * i])->0 * 16 + hex_digit(text[2 * i + 1])->0,
{
    assert(hex_digit(text[2 * i]) is Some);
    assert(hex_digit(text[2 * i + 1]) is Some);
}

} // verus!
