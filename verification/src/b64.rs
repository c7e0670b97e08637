//! Base64 decoding for the body of a PEM block.
//!
//! The decoder accepts the standard alphabet (RFC 4648), requires the input
//! length to be a multiple of four, and allows `=` padding in the final
//! group only. Bits left over by a padded final group are ignored.

use vstd::prelude::*;

verus! {

/// The `=` padding byte.
pub const PAD_BYTE: u8 = 61;

/// Value of one base64 digit, or -1 for a byte outside the alphabet
/// (padding included).
pub open spec fn digit_value(c: u8) -> int {
    if 65 <= c <= 90 {
        c - 65
    } else if 97 <= c <= 122 {
        c - 97 + 26
    } else if 48 <= c <= 57 {
        c - 48 + 52
    } else if c == 43 {
        62
    } else if c == 47 {
        63
    } else {
        -1
    }
}

pub open spec fn is_digit(c: u8) -> bool {
    digit_value(c) >= 0
}

/// The three bytes encoded by a full group of four digits.
pub open spec fn group_bytes3(a: u8, b: u8, c: u8, d: u8) -> Seq<u8>
    recommends
        is_digit(a) && is_digit(b) && is_digit(c) && is_digit(d),
{
    seq![
        (digit_value(a) * 4 + digit_value(b) / 16) as u8,
        ((digit_value(b) % 16) * 16 + digit_value(c) / 4) as u8,
        ((digit_value(c) % 4) * 64 + digit_value(d)) as u8,
    ]
}

/// The two bytes encoded by a final group `xxx=`.
pub open spec fn group_bytes2(a: u8, b: u8, c: u8) -> Seq<u8>
    recommends
        is_digit(a) && is_digit(b) && is_digit(c),
{
    seq![
        (digit_value(a) * 4 + digit_value(b) / 16) as u8,
        ((digit_value(b) % 16) * 16 + digit_value(c) / 4) as u8,
    ]
}

/// The one byte encoded by a final group `xx==`.
pub open spec fn group_bytes1(a: u8, b: u8) -> Seq<u8>
    recommends
        is_digit(a) && is_digit(b),
{
    seq![(digit_value(a) * 4 + digit_value(b) / 16) as u8]
}

/// Decoding of the final group of four bytes, where padding is allowed.
pub open spec fn final_group(a: u8, b: u8, c: u8, d: u8) -> Option<Seq<u8>> {
    if is_digit(a) && is_digit(b) {
        if is_digit(c) && is_digit(d) {
            Some(group_bytes3(a, b, c, d))
        } else if is_digit(c) && d == PAD_BYTE {
            Some(group_bytes2(a, b, c))
        } else if c == PAD_BYTE && d == PAD_BYTE {
            Some(group_bytes1(a, b))
        } else {
            None
        }
    } else {
        None
    }
}

/// Full decoding: groups of four, only the last of which may carry padding.
/// `None` when the length is not a multiple of four, a byte falls outside
/// the alphabet, or padding appears before the final group.
pub open spec fn decoded(s: Seq<u8>) -> Option<Seq<u8>>
    decreases s.len(),
{
    if s.len() == 0 {
        Some(Seq::empty())
    } else if s.len() == 4 {
        final_group(s[0], s[1], s[2], s[3])
    } else if s.len() < 4 {
        None
    } else if is_digit(s[0]) && is_digit(s[1]) && is_digit(s[2]) && is_digit(s[3]) {
        match decoded(s.skip(4)) {
            Some(rest) => Some(group_bytes3(s[0], s[1], s[2], s[3]) + rest),
            None => None,
        }
    } else {
        None
    }
}

/// Executable lookup of one digit. `64` marks a byte outside the alphabet.
fn digit_of(c: u8) -> (r: u8)
    ensures
        r < 64 ==> digit_value(c) == r as int,
        r == 64 ==> !is_digit(c),
        r <= 64,
{
    if 65 <= c && c <= 90 {
        c - 65
    } else if 97 <= c && c <= 122 {
        c - 97 + 26
    } else if 48 <= c && c <= 57 {
        c - 48 + 52
    } else if c == 43 {
        62
    } else if c == 47 {
        63
    } else {
        64
    }
}

/// Decode a base64 byte string, exactly as `decoded` describes.
pub fn decode(s: &Vec<u8>) -> (r: Option<Vec<u8>>)
    ensures
        match r {
            Some(v) => decoded(s@) == Some(v@),
            None => decoded(s@) is None,
        },
{
    let mut out: Vec<u8> = Vec::new();
    let mut i: usize = 0;
    proof {
        assert(s@.skip(0) =~= s@);
        match decoded(s@) {
            Some(t) => {
                assert(Seq::<u8>::empty() + t =~= t);
            }
            None => {}
        }
    }
    while s.len() - i > 4
        invariant
            i <= s.len(),
            i == 0 || i < s.len(),
            decoded(s@) == match decoded(s@.skip(i as int)) {
                Some(t) => Some(out@ + t),
                None => None::<Seq<u8>>,
            },
        decreases s.len() - i,
    {
        let a = digit_of(s[i]);
        let b = digit_of(s[i + 1]);
        let c = digit_of(s[i + 2]);
        let d = digit_of(s[i + 3]);
        proof {
            assert(s@.skip(i as int)[0] == s@[i as int]);
            assert(s@.skip(i as int)[1] == s@[i as int + 1]);
            assert(s@.skip(i as int)[2] == s@[i as int + 2]);
            assert(s@.skip(i as int)[3] == s@[i as int + 3]);
        }
        if a == 64 || b == 64 || c == 64 || d == 64 {
            return None;
        }
        let ghost out0 = out@;
        out.push(a * 4 + b / 16);
        out.push((b % 16) * 16 + c / 4);
        out.push((c % 4) * 64 + d);
        proof {
            let g = group_bytes3(s@[i as int], s@[i as int + 1], s@[i as int + 2], s@[i as int + 3]);
            assert(out@ =~= out0 + g);
            assert(s@.skip(i as int).skip(4) =~= s@.skip(i as int + 4));
            match decoded(s@.skip(i as int + 4)) {
                Some(rest) => {
                    assert(out0 + (g + rest) =~= (out0 + g) + rest);
                }
                None => {}
            }
        }
        i = i + 4;
    }
    if s.len() == 0 {
        return Some(out);
    }
    if s.len() - i != 4 {
        return None;
    }
    let a = digit_of(s[i]);
    let b = digit_of(s[i + 1]);
    let c = digit_of(s[i + 2]);
    let d = digit_of(s[i + 3]);
    proof {
        assert(s@.skip(i as int).len() == 4);
        assert(s@.skip(i as int)[0] == s@[i as int]);
        assert(s@.skip(i as int)[1] == s@[i as int + 1]);
        assert(s@.skip(i as int)[2] == s@[i as int + 2]);
        assert(s@.skip(i as int)[3] == s@[i as int + 3]);
    }
    if a == 64 || b == 64 {
        return None;
    }
    let ghost out0 = out@;
    if c < 64 && d < 64 {
        out.push(a * 4 + b / 16);
        out.push((b % 16) * 16 + c / 4);
        out.push((c % 4) * 64 + d);
        proof {
            assert(out@ =~= out0 + group_bytes3(s@[i as int], s@[i as int + 1], s@[i as int + 2], s@[i as int + 3]));
        }
        Some(out)
    } else if c < 64 && s[i + 3] == PAD_BYTE {
        out.push(a * 4 + b / 16);
        out.push((b % 16) * 16 + c / 4);
        proof {
            assert(out@ =~= out0 + group_bytes2(s@[i as int], s@[i as int + 1], s@[i as int + 2]));
        }
        Some(out)
    } else if s[i + 2] == PAD_BYTE && s[i + 3] == PAD_BYTE {
        out.push(a * 4 + b / 16);
        proof {
            assert(out@ =~= out0 + group_bytes1(s@[i as int], s@[i as int + 1]));
        }
        Some(out)
    } else {
        None
    }
}

} // verus!
