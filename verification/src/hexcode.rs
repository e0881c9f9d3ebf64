//! Lower-case hexadecimal encoding and decoding of byte strings, used for
//! reporting a seed to the operator and for parsing a seed given in hex.

use vstd::prelude::*;

verus! {

/// True of the ASCII code of a hexadecimal digit (either case).
pub open spec fn is_hex_digit(b: u8) -> bool {
    (48 <= b && b <= 57) || (97 <= b && b <= 102) || (65 <= b && b <= 70)
}

/// The numeric value, below 16, of the ASCII code of a hexadecimal digit.
pub open spec fn hex_digit_value(b: u8) -> u8
    recommends
        is_hex_digit(b),
{
    if 48 <= b && b <= 57 {
        (b - 48) as u8
    } else if 97 <= b && b <= 102 {
        (b - 87) as u8
    } else {
        (b - 55) as u8
    }
}

/// The ASCII code of the lower-case hexadecimal digit for a value below 16.
pub open spec fn hex_digit_of(v: u8) -> u8
    recommends
        v < 16,
{
    if v < 10 {
        (48 + v) as u8
    } else {
        (87 + v) as u8
    }
}

/// The lower-case hexadecimal encoding of a byte string: two digits per byte,
/// high nibble first.
pub open spec fn hex_encoded(bytes: Seq<u8>) -> Seq<u8>
    decreases bytes.len(),
{
    if bytes.len() == 0 {
        Seq::empty()
    } else {
        hex_encoded(bytes.drop_last()) + seq![
            hex_digit_of((bytes.last() / 16) as u8),
            hex_digit_of((bytes.last() % 16) as u8),
        ]
    }
}

/// True when every byte of the string is the ASCII code of a hexadecimal digit.
pub open spec fn all_hex_digits(s: Seq<u8>) -> bool {
    forall|i: int| 0 <= i < s.len() ==> is_hex_digit(#[trigger] s[i])
}

/// The bytes denoted by a hexadecimal string of even length: one byte per
/// digit pair, high nibble first.
pub open spec fn hex_decoded(s: Seq<u8>) -> Seq<u8>
    recommends
        s.len() % 2 == 0,
        all_hex_digits(s),
    decreases s.len(),
{
    if s.len() < 2 {
        Seq::empty()
    } else {
        hex_decoded(s.subrange(0, s.len() - 2)) + seq![
            (hex_digit_value(s[s.len() - 2]) * 16 + hex_digit_value(s[s.len() - 1])) as u8,
        ]
    }
}

/// The value of one hexadecimal digit, or `None` for any other byte.
pub fn hex_digit(b: u8) -> (r: Option<u8>)
    ensures
        match r {
            Some(v) => is_hex_digit(b) && v == hex_digit_value(b),
            None => !is_hex_digit(b),
        },
{
    if 48 <= b && b <= 57 {
        Some(b - 48)
    } else if 97 <= b && b <= 102 {
        Some(b - 87)
    } else if 65 <= b && b <= 70 {
        Some(b - 55)
    } else {
        None
    }
}

/// The ASCII code of the lower-case hexadecimal digit for a value below 16.
fn hex_char(v: u8) -> (r: u8)
    requires
        v < 16,
    ensures
        r == hex_digit_of(v),
{
    if v < 10 {
        48 + v
    } else {
        87 + v
    }
}

/// Encodes a byte string as lower-case hexadecimal, two digits per byte.
pub fn encode_hex(bytes: &Vec<u8>) -> (r: Vec<u8>)
    ensures
        r@ == hex_encoded(bytes@),
        r@.len() == 2 * bytes@.len(),
{
    let mut out: Vec<u8> = Vec::new();
    let mut i: usize = 0;
    while i < bytes.len()
        invariant
            i <= bytes@.len(),
            out@ == hex_encoded(bytes@.take(i as int)),
            out@.len() == 2 * i,
        decreases bytes@.len() - i,
    {
        let b = bytes[i];
        out.push(hex_char(b / 16));
        out.push(hex_char(b % 16));
        proof {
            let pre = bytes@.take(i as int);
            let cur = bytes@.take(i + 1);
            assert(cur.drop_last() =~= pre);
            assert(cur.last() == bytes@[i as int]);
        }
        i = i + 1;
    }
    proof {
        assert(bytes@.take(bytes@.len() as int) =~= bytes@);
    }
    out
}

/// Decodes a hexadecimal string: `Some` exactly when the length is even and
/// every byte is a hexadecimal digit.
pub fn decode_hex(s: &Vec<u8>) -> (r: Option<Vec<u8>>)
    ensures
        match r {
            Some(b) => s@.len() % 2 == 0 && all_hex_digits(s@) && b@ == hex_decoded(s@)
                && b@.len() == s@.len() / 2,
            None => !(s@.len() % 2 == 0 && all_hex_digits(s@)),
        },
{
    if s.len() % 2 != 0 {
        return None;
    }
    let mut out: Vec<u8> = Vec::new();
    let mut i: usize = 0;
    while i < s.len()
        invariant
            i <= s@.len(),
            i % 2 == 0,
            s@.len() % 2 == 0,
            forall|j: int| 0 <= j < i ==> is_hex_digit(#[trigger] s@[j]),
            out@ == hex_decoded(s@.take(i as int)),
            out@.len() == i / 2,
        decreases s@.len() - i,
    {
        let hi = match hex_digit(s[i]) {
            Some(v) => v,
            None => {
                return None;
            },
        };
        let lo = match hex_digit(s[i + 1]) {
            Some(v) => v,
            None => {
                return None;
            },
        };
        out.push(hi * 16 + lo);
        proof {
            let pre = s@.take(i as int);
            let cur = s@.take(i + 2);
            assert(cur.subrange(0, cur.len() - 2) =~= pre);
            assert(cur[cur.len() - 2] == s@[i as int]);
            assert(cur[cur.len() - 1] == s@[i + 1]);
        }
        i = i + 2;
    }
    proof {
        assert(s@.take(s@.len() as int) =~= s@);
    }
    Some(out)
}

/// Law: hexadecimal encoding round-trips. Encoding any byte string yields a
/// valid hexadecimal string of twice the length, and decoding it yields the
/// original bytes.
pub proof fn lemma_hex_round_trip(bytes: Seq<u8>)
    ensures
        hex_encoded(bytes).len() == 2 * bytes.len(),
        all_hex_digits(hex_encoded(bytes)),
        hex_decoded(hex_encoded(bytes)) == bytes,
    decreases bytes.len(),
{
    if bytes.len() == 0 {
        assert(hex_decoded(hex_encoded(bytes)) =~= bytes);
    } else {
        let pre = bytes.drop_last();
        let b = bytes.last();
        lemma_hex_round_trip(pre);
        let enc = hex_encoded(bytes);
        let hi = hex_digit_of((b / 16) as u8);
        let lo = hex_digit_of((b % 16) as u8);
        assert(enc =~= hex_encoded(pre) + seq![hi, lo]);
        assert(is_hex_digit(hi) && hex_digit_value(hi) == b / 16);
        assert(is_hex_digit(lo) && hex_digit_value(lo) == b % 16);
        assert(forall|i: int| 0 <= i < enc.len() ==> is_hex_digit(#[trigger] enc[i]));
        assert(enc.subrange(0, enc.len() - 2) =~= hex_encoded(pre));
        assert(hex_decoded(enc) == pre + seq![(hex_digit_value(hi) * 16 + hex_digit_value(lo)) as u8]);
        assert((hex_digit_value(hi) * 16 + hex_digit_value(lo)) as u8 == b);
        assert(hex_decoded(enc) =~= bytes);
    }
}

} // verus!
