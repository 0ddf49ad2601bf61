use vstd::prelude::*;

use crate::text::{split_char, split_on, trim, trimmed};

verus! {

/// The value of `c` as a base-16 digit, if it is one (either case).
pub open spec fn hex_digit_value(c: char) -> Option<int> {
    if '0' <= c && c <= '9' {
        Some(c as int - '0' as int)
    } else if 'a' <= c && c <= 'f' {
        Some(c as int - 'a' as int + 10)
    } else if 'A' <= c && c <= 'F' {
        Some(c as int - 'A' as int + 10)
    } else {
        None
    }
}

pub open spec fn all_hex_digits(s: Seq<char>) -> bool {
    forall|i: int| 0 <= i < s.len() ==> (#[trigger] hex_digit_value(s[i])) is Some
}

/// The number that the base-16 digits `s` denote, most significant first.
pub open spec fn hex_value(s: Seq<char>) -> int
    decreases s.len(),
{
    if s.len() == 0 {
        0
    } else {
        hex_value(s.drop_last()) * 16 + hex_digit_value(s.last())->0
    }
}

/// The digits of a number written with an optional leading `+`.
pub open spec fn unsigned_digits(s: Seq<char>) -> Seq<char> {
    if s.len() > 0 && s[0] == '+' {
        s.drop_first()
    } else {
        s
    }
}

/// The byte that `s` denotes in base 16: an optional `+`, then at least one
/// digit of either case, with a value below 256 (leading zeros allowed).
pub open spec fn hex_byte_value(s: Seq<char>) -> Option<u8> {
    let d = unsigned_digits(s);
    if d.len() > 0 && all_hex_digits(d) && hex_value(d) < 256 {
        Some(hex_value(d) as u8)
    } else {
        None
    }
}

/// The byte that one segment of an address contributes: its base-16 value, or
/// zero where the segment is not a valid byte.
pub open spec fn segment_byte(s: Seq<char>) -> u8 {
    match hex_byte_value(s) {
        Some(b) => b,
        None => 0,
    }
}

/// The hardware address that the colon-separated text `text` denotes, after
/// surrounding white space is removed: present only where there are exactly
/// six segments.
pub open spec fn address_of(text: Seq<char>) -> Option<Seq<u8>> {
    let segments = split_on(trimmed(text), ':');
    if segments.len() == 6 {
        Some(segments.map_values(|p: Seq<char>| segment_byte(p)))
    } else {
        None
    }
}

/// The value of one base-16 digit.
pub fn hex_digit(c: char) -> (r: Option<u8>)
    ensures
        r matches Some(v) ==> hex_digit_value(c) == Some(v as int),
        r is None ==> hex_digit_value(c) is None,
{
    if '0' <= c && c <= '9' {
        Some((c as u32 - '0' as u32) as u8)
    } else if 'a' <= c && c <= 'f' {
        Some((c as u32 - 'a' as u32 + 10) as u8)
    } else if 'A' <= c && c <= 'F' {
        Some((c as u32 - 'A' as u32 + 10) as u8)
    } else {
        None
    }
}

/// Reads `s` as a byte written in base 16, as `u8::from_str_radix(s, 16)` does:
/// an optional `+`, then one or more digits whose value fits in a byte.
pub fn parse_hex_byte(s: &str) -> (r: Option<u8>)
    ensures
        r == hex_byte_value(s@),
{
    let n = s.unicode_len();
    let mut i: usize = 0;
    if n > 0 && s.get_char(0) == '+' {
        i = 1;
    }
    let ghost d = s@.subrange(i as int, n as int);
    proof {
        assert(d =~= unsigned_digits(s@));
    }
    if i == n {
        return None;
    }
    let mut acc: u32 = 0;
    let mut big = false;
    let mut j: usize = i;
    proof {
        assert(s@.subrange(i as int, i as int) =~= Seq::<char>::empty());
    }
    while j < n
        invariant
            n == s@.len(),
            i <= j <= n,
            d == s@.subrange(i as int, n as int),
            d == unsigned_digits(s@),
            d.len() > 0,
            all_hex_digits(s@.subrange(i as int, j as int)),
            !big ==> acc == hex_value(s@.subrange(i as int, j as int)) && acc < 256,
            big ==> hex_value(s@.subrange(i as int, j as int)) >= 256,
        decreases n - j,
    {
        let c = s.get_char(j);
        let ghost prev = s@.subrange(i as int, j as int);
        let ghost next = s@.subrange(i as int, (j + 1) as int);
        proof {
            assert(next.drop_last() =~= prev);
            assert(next.last() == c);
        }
        match hex_digit(c) {
            None => {
                proof {
                    assert(d[j - i] == c);
                    assert(hex_digit_value(d[j - i]) is None);
                }
                return None;
            },
            Some(v) => {
                if !big {
                    let nv = acc * 16 + v as u32;
                    if nv >= 256 {
                        big = true;
                    } else {
                        acc = nv;
                    }
                }
                proof {
                    assert forall|k: int| 0 <= k < next.len() implies (#[trigger] hex_digit_value(
                        next[k],
                    )) is Some by {
                        if k < prev.len() {
                            assert(next[k] == prev[k]);
                        }
                    }
                }
            },
        }
        j = j + 1;
    }
    proof {
        assert(s@.subrange(i as int, j as int) =~= d);
    }
    if big {
        None
    } else {
        Some(acc as u8)
    }
}

/// Reads a hardware address from its colon-separated base-16 text, such as
/// `aa:bb:cc:dd:ee:ff`, ignoring white space around it. A segment that is not a
/// valid byte counts as zero; any count of segments other than six yields
/// `None`.
pub fn parse_hardware_address(text: &str) -> (r: Option<[u8; 6]>)
    ensures
        r matches Some(a) ==> address_of(text@) == Some(a@),
        r is None ==> address_of(text@) is None,
{
    let t = trim(text);
    let pieces = split_char(t, ':');
    proof {
        assert(pieces@.map_values(|p: String| p@).len() == pieces@.len());
    }
    if pieces.len() != 6 {
        return None;
    }
    let ghost segments = split_on(trimmed(text@), ':');
    let mut address: [u8; 6] = [0u8; 6];
    for k in 0..6
        invariant
            pieces@.len() == 6,
            segments == pieces@.map_values(|p: String| p@),
            forall|m: int| 0 <= m < k ==> address@[m] == segment_byte(#[trigger] segments[m]),
    {
        let b = match parse_hex_byte(pieces[k].as_str()) {
            Some(b) => b,
            None => 0,
        };
        proof {
            assert(segments[k as int] == pieces@[k as int]@);
        }
        address[k] = b;
    }
    proof {
        assert(address@ =~= segments.map_values(|p: Seq<char>| segment_byte(p)));
    }
    Some(address)
}

/// A segment that is not a valid byte does not make the address unreadable:
/// as long as there are six segments, it contributes a zero byte.
pub proof fn lemma_malformed_segment_reads_as_zero(text: Seq<char>, k: int)
    requires
        split_on(trimmed(text), ':').len() == 6,
        0 <= k < 6,
        hex_byte_value(split_on(trimmed(text), ':')[k]) is None,
    ensures
        address_of(text) matches Some(a) && a.len() == 6 && a[k] == 0,
{
}

} // verus!
