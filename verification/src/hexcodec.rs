//! Hexadecimal encoding and decoding of byte strings. A payload is
//! accepted when it has an even number of characters, each a decimal
//! digit or a letter `a` to `f` of either case; decoding is exact and
//! total, and encoding always emits lower-case digits.

use vstd::prelude::*;
use vstd::string::StringExecFns;
use vstd::string::StrSliceExecFns;
use crate::command::digit_char;

verus! {

/// Whether `c` is a hexadecimal digit character.
pub open spec fn is_hex_digit(c: char) -> bool {
    let u = c as u32;
    (48 <= u && u <= 57) || (97 <= u && u <= 102) || (65 <= u && u <= 70)
}

/// The value of a hexadecimal digit character (zero on other input).
pub open spec fn hex_digit_val(c: char) -> u8 {
    let u = c as u32;
    if 48 <= u && u <= 57 {
        (u - 48) as u8
    } else if 97 <= u && u <= 102 {
        (u - 87) as u8
    } else if 65 <= u && u <= 70 {
        (u - 55) as u8
    } else {
        0
    }
}

/// Whether `s` is a well-formed hexadecimal string: even length, hex
/// digits throughout.
pub open spec fn valid_hex(s: Seq<char>) -> bool {
    s.len() % 2 == 0 && forall|i: int| 0 <= i < s.len() ==> is_hex_digit(#[trigger] s[i])
}

/// The bytes that a well-formed hexadecimal string denotes.
pub open spec fn hex_bytes(s: Seq<char>) -> Seq<u8> {
    Seq::new(s.len() / 2, |i: int| (16 * hex_digit_val(s[2 * i]) + hex_digit_val(s[2 * i + 1])) as u8)
}

/// The lower-case hexadecimal string of a byte string.
pub open spec fn hex_chars(d: Seq<u8>) -> Seq<char> {
    Seq::new(
        2 * d.len(),
        |i: int| if i % 2 == 0 {
            digit_char(d[i / 2] / 16)
        } else {
            digit_char(d[i / 2] % 16)
        },
    )
}

/// The value of one hexadecimal digit character.
fn hex_val_char(c: char) -> (r: Option<u8>)
    ensures
        is_hex_digit(c) ==> r == Some(hex_digit_val(c)),
        !is_hex_digit(c) ==> r is None,
{
    let u = c as u32;
    if 48 <= u && u <= 57 {
        Some((u - 48) as u8)
    } else if 97 <= u && u <= 102 {
        Some((u - 87) as u8)
    } else if 65 <= u && u <= 70 {
        Some((u - 55) as u8)
    } else {
        None
    }
}

/// Decodes a hexadecimal string; fails exactly on ill-formed input.
pub fn hex_decode(s: &str) -> (r: Option<Vec<u8>>)
    ensures
        match r {
            Some(v) => valid_hex(s@) && v@ == hex_bytes(s@),
            None => !valid_hex(s@),
        },
{
    let len = s.unicode_len();
    if len % 2 != 0 {
        return None;
    }
    let n = len / 2;
    let mut out: Vec<u8> = Vec::new();
    let mut i: usize = 0;
    while i < n
        invariant
            i <= n,
            2 * n == s@.len(),
            2 * n <= usize::MAX,
            s@.len() % 2 == 0,
            forall|k: int| 0 <= k < 2 * i ==> is_hex_digit(#[trigger] s@[k]),
            out@.len() == i,
            forall|k: int|
                0 <= k < i ==> out@[k] == (16 * hex_digit_val(s@[2 * k]) + hex_digit_val(
                    #[trigger] s@[2 * k + 1],
                )) as u8,
        decreases n - i,
    {
        let hc = s.get_char(2 * i);
        let lc = s.get_char(2 * i + 1);
        let h = match hex_val_char(hc) {
            Some(h) => h,
            None => {
                return None;
            },
        };
        let l = match hex_val_char(lc) {
            Some(l) => l,
            None => {
                return None;
            },
        };
        out.push(16 * h + l);
        i = i + 1;
    }
    proof {
        assert(out@ =~= hex_bytes(s@));
    }
    Some(out)
}

/// Encodes bytes as a lower-case hexadecimal string.
pub fn hex_encode(d: &Vec<u8>) -> (r: String)
    ensures
        r@ == hex_chars(d@),
{
    let mut s = String::new();
    let mut i: usize = 0;
    while i < d.len()
        invariant
            i <= d@.len(),
            s@ == hex_chars(d@).take(2 * i),
        decreases d@.len() - i,
    {
        let b = d[i];
        s.append(crate::command::digit_str(b / 16));
        s.append(crate::command::digit_str(b % 16));
        proof {
            assert(s@ =~= hex_chars(d@).take(2 * (i + 1)));
        }
        i = i + 1;
    }
    proof {
        assert(s@ =~= hex_chars(d@));
    }
    s
}

/// A hexadecimal round trip: encoding any byte string and decoding it
/// again yields the original bytes.
pub proof fn lemma_hex_round_trip(d: Seq<u8>)
    ensures
        valid_hex(hex_chars(d)),
        hex_bytes(hex_chars(d)) == d,
{
    assert forall|i: int| 0 <= i < 2 * d.len() implies is_hex_digit(#[trigger] hex_chars(d)[i]) by {
        lemma_digit_char_val(if i % 2 == 0 {
            d[i / 2] / 16
        } else {
            d[i / 2] % 16
        });
    }
    assert forall|i: int| 0 <= i < d.len() implies hex_bytes(hex_chars(d))[i] == d[i] by {
        lemma_digit_char_val(d[i] / 16);
        lemma_digit_char_val(d[i] % 16);
        assert(hex_chars(d)[2 * i] == digit_char(d[i] / 16));
        assert(hex_chars(d)[2 * i + 1] == digit_char(d[i] % 16));
    }
    assert(hex_bytes(hex_chars(d)) =~= d);
}

/// The digit characters written by the encoder decode to their values.
proof fn lemma_digit_char_val(v: u8)
    requires
        v < 16,
    ensures
        is_hex_digit(digit_char(v)),
        hex_digit_val(digit_char(v)) == v,
{
}

} // verus!
