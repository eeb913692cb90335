//! Lowercase hex encoding and case-insensitive hex decoding, fully verified.

use vstd::prelude::*;

verus! {

/// The sixteen lowercase hex digits, in value order.
pub open spec fn hex_digits() -> Seq<char> {
    seq!['0', '1', '2', '3', '4', '5', '6', '7', '8', '9', 'a', 'b', 'c', 'd', 'e', 'f']
}

/// The lowercase hex digit for a value below 16.
pub open spec fn hex_digit(n: u8) -> char
    recommends
        n < 16,
{
    hex_digits()[n as int]
}

/// Lowercase hex encoding of a byte sequence: two digits per byte, high nibble first.
pub open spec fn hex_of(data: Seq<u8>) -> Seq<char>
    decreases data.len(),
{
    if data.len() == 0 {
        Seq::empty()
    } else {
        hex_of(data.drop_last()).push(hex_digit(data.last() / 16)).push(
            hex_digit(data.last() % 16),
        )
    }
}

/// Whether a byte is the ASCII code of a hex digit, either case.
pub open spec fn is_hex_ascii(b: u8) -> bool {
    (0x30 <= b && b <= 0x39) || (0x61 <= b && b <= 0x66) || (0x41 <= b && b <= 0x46)
}

/// The value of an ASCII hex digit byte.
pub open spec fn hex_ascii_val(b: u8) -> u8
    recommends
        is_hex_ascii(b),
{
    if 0x30 <= b && b <= 0x39 {
        (b - 0x30) as u8
    } else if 0x61 <= b && b <= 0x66 {
        (b - 0x57) as u8
    } else {
        (b - 0x37) as u8
    }
}

/// Whether a byte sequence is well-formed hex text: even length, all digits.
pub open spec fn is_hex_seq(s: Seq<u8>) -> bool {
    s.len() % 2 == 0 && (forall|i: int| 0 <= i < s.len() ==> is_hex_ascii(#[trigger] s[i]))
}

/// The bytes encoded by well-formed hex text.
pub open spec fn hex_decode_of(s: Seq<u8>) -> Seq<u8>
    recommends
        is_hex_seq(s),
    decreases s.len(),
{
    if s.len() < 2 {
        Seq::empty()
    } else {
        hex_decode_of(s.drop_last().drop_last()).push(
            (hex_ascii_val(s[s.len() - 2]) * 16 + hex_ascii_val(s[s.len() - 1])) as u8,
        )
    }
}

/// Relies on `String::push`: appends exactly the given character.
#[verifier::external_body]
pub(crate) fn push_char(s: &mut String, c: char)
    ensures
        final(s)@ == old(s)@.push(c),
{
    s.push(c);
}

/// The executable lowercase hex digit for a value below 16.
fn hex_digit_char(n: u8) -> (c: char)
    requires
        n < 16,
    ensures
        c == hex_digit(n),
{
    match n {
        0 => '0',
        1 => '1',
        2 => '2',
        3 => '3',
        4 => '4',
        5 => '5',
        6 => '6',
        7 => '7',
        8 => '8',
        9 => '9',
        10 => 'a',
        11 => 'b',
        12 => 'c',
        13 => 'd',
        14 => 'e',
        _ => 'f',
    }
}

/// Encodes bytes as lowercase hex, two digits per byte.
pub fn hex_encode(data: &[u8]) -> (r: String)
    ensures
        r@ == hex_of(data@),
{
    let mut r = String::new();
    let n = data.len();
    for i in 0..n
        invariant
            n == data@.len(),
            r@ == hex_of(data@.take(i as int)),
    {
        let b = data[i];
        push_char(&mut r, hex_digit_char(b / 16));
        push_char(&mut r, hex_digit_char(b % 16));
        proof {
            let t = data@.take(i + 1);
            assert(t.drop_last() =~= data@.take(i as int));
            assert(t.last() == data@[i as int]);
        }
    }
    proof {
        assert(data@.take(n as int) =~= data@);
    }
    r
}

/// The executable test for an ASCII hex digit byte.
fn is_hex_ascii_byte(b: u8) -> (r: bool)
    ensures
        r == is_hex_ascii(b),
{
    (0x30 <= b && b <= 0x39) || (0x61 <= b && b <= 0x66) || (0x41 <= b && b <= 0x46)
}

/// The executable value of an ASCII hex digit byte.
fn hex_ascii_val_byte(b: u8) -> (r: u8)
    requires
        is_hex_ascii(b),
    ensures
        r == hex_ascii_val(b),
{
    if 0x30 <= b && b <= 0x39 {
        b - 0x30
    } else if 0x61 <= b && b <= 0x66 {
        b - 0x57
    } else {
        b - 0x37
    }
}

/// Decodes hex text (either case); `None` exactly when the input has odd
/// length or holds a byte that is not a hex digit.
pub fn hex_decode(data: &[u8]) -> (r: Option<Vec<u8>>)
    ensures
        (r is Some) == is_hex_seq(data@),
        r matches Some(v) ==> v@ == hex_decode_of(data@),
{
    let n = data.len();
    if n % 2 != 0 {
        return None;
    }
    let mut out: Vec<u8> = Vec::new();
    let mut i: usize = 0;
    while i < n
        invariant
            n == data@.len(),
            n % 2 == 0,
            i % 2 == 0,
            i <= n,
            forall|j: int| 0 <= j < i ==> is_hex_ascii(#[trigger] data@[j]),
            out@ == hex_decode_of(data@.take(i as int)),
        decreases n - i,
    {
        let hi = data[i];
        let lo = data[i + 1];
        if !is_hex_ascii_byte(hi) || !is_hex_ascii_byte(lo) {
            return None;
        }
        out.push(hex_ascii_val_byte(hi) * 16 + hex_ascii_val_byte(lo));
        proof {
            let t = data@.take(i + 2);
            assert(t.drop_last().drop_last() =~= data@.take(i as int));
            assert(t[t.len() - 2] == data@[i as int]);
            assert(t[t.len() - 1] == data@[i + 1]);
        }
        i = i + 2;
    }
    proof {
        assert(data@.take(n as int) =~= data@);
    }
    Some(out)
}

} // verus!
