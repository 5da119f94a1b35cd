//! Vendor- and product-id extraction from a device path string.
//!
//! Platform device paths carry the USB ids in the form `VID_xxxx` and
//! `PID_xxxx` (any letter case, one or more hex digits). The parse takes the
//! first such marker that is followed by a hex digit, reads the longest hex
//! run after it, and yields the value when it fits in 16 bits.

use vstd::prelude::*;
use vstd::string::StrSliceExecFns;

verus! {

/// Whether a character is an ASCII hex digit.
pub open spec fn is_hex_digit(c: char) -> bool {
    ('0' as int <= c as int <= '9' as int) || ('a' as int <= c as int <= 'f' as int) || (
    'A' as int <= c as int <= 'F' as int)
}

/// The value of an ASCII hex digit.
pub open spec fn hex_digit_val(c: char) -> int {
    if '0' as int <= c as int <= '9' as int {
        c as int - '0' as int
    } else if 'a' as int <= c as int <= 'f' as int {
        c as int - 'a' as int + 10
    } else {
        c as int - 'A' as int + 10
    }
}

/// The value of a hex digit string, most significant digit first.
pub open spec fn hex_val_of(s: Seq<char>) -> int
    decreases s.len(),
{
    if s.len() == 0 {
        0
    } else {
        hex_val_of(s.drop_last()) * 16 + hex_digit_val(s.last())
    }
}

/// Whether the four id-marker characters stand at `i`: the distinguishing
/// first letter (either case), then `id` (either case), then an underscore.
pub open spec fn marker_at(s: Seq<char>, i: int, lo: char, up: char) -> bool {
    &&& (s[i] == lo || s[i] == up)
    &&& (s[i + 1] == 'i' || s[i + 1] == 'I')
    &&& (s[i + 2] == 'd' || s[i + 2] == 'D')
    &&& s[i + 3] == '_'
}

/// The first position at or after `j` where a marker followed by a hex
/// digit begins.
pub open spec fn match_from(s: Seq<char>, lo: char, up: char, j: int) -> Option<int>
    decreases s.len() - j,
{
    if j + 5 > s.len() {
        None
    } else if marker_at(s, j, lo, up) && is_hex_digit(s[j + 4]) {
        Some(j)
    } else {
        match_from(s, lo, up, j + 1)
    }
}

/// The length of the hex-digit run starting at `i`.
pub open spec fn hex_run_len(s: Seq<char>, i: int) -> int
    decreases s.len() - i,
{
    if i < 0 || i >= s.len() || !is_hex_digit(s[i]) {
        0
    } else {
        1 + hex_run_len(s, i + 1)
    }
}

/// The id encoded after the first marker: the value of the longest hex run
/// following it, if there is a marker and the value fits in 16 bits.
pub open spec fn spec_parse_id(s: Seq<char>, lo: char, up: char) -> Option<u16> {
    match match_from(s, lo, up, 0) {
        None => None,
        Some(i) => {
            let v = hex_val_of(s.subrange(i + 4, i + 4 + hex_run_len(s, i + 4)));
            if v <= 0xffff {
                Some(v as u16)
            } else {
                None
            }
        },
    }
}

/// The hex value of a character, when it is a hex digit.
fn hex_char_val(c: char) -> (r: Option<u8>)
    ensures
        (match r {
            Some(v) => is_hex_digit(c) && v == hex_digit_val(c),
            None => !is_hex_digit(c),
        }),
{
    let u = c as u32;
    if 48 <= u && u <= 57 {
        Some((u - 48) as u8)
    } else if 97 <= u && u <= 102 {
        Some((u - 87) as u8)
    } else if 65 <= u && u <= 70 {
        Some((u - 55) as u8)
    } else {
        None
    }
}

/// Parse the id after the first `<lo>id_`/`<up>ID_`-style marker of `s`.
fn parse_hex_id(s: &str, lo: char, up: char) -> (r: Option<u16>)
    ensures
        r == spec_parse_id(s@, lo, up),
{
    let n = s.unicode_len();
    let mut j: usize = 0;
    while n >= 5 && j <= n - 5
        invariant
            n == s@.len(),
            j <= n,
            match_from(s@, lo, up, 0) == match_from(s@, lo, up, j as int),
        decreases n - j,
    {
        let c0 = s.get_char(j);
        let c1 = s.get_char(j + 1);
        let c2 = s.get_char(j + 2);
        let c3 = s.get_char(j + 3);
        let c4 = s.get_char(j + 4);
        let marker = (c0 == lo || c0 == up) && (c1 == 'i' || c1 == 'I') && (c2 == 'd' || c2
            == 'D') && c3 == '_';
        let first_digit = hex_char_val(c4);
        if marker && first_digit.is_some() {
            // the marker found: read the hex run after it
            let start = j + 4;
            let mut k = start;
            let mut v: u32 = 0;
            let mut over = false;
            proof {
                assert(s@.subrange(start as int, start as int) =~= Seq::<char>::empty());
            }
            loop
                invariant_except_break
                    n == s@.len(),
                    start <= k <= n,
                    start == j + 4,
                    hex_run_len(s@, start as int) == (k - start) + hex_run_len(s@, k as int),
                    !over ==> v == hex_val_of(s@.subrange(start as int, k as int)) && v <= 0xffff,
                    over ==> hex_val_of(s@.subrange(start as int, k as int)) > 0xffff,
                ensures
                    n == s@.len(),
                    start == j + 4,
                    hex_run_len(s@, start as int) == k - start,
                    !over ==> v == hex_val_of(s@.subrange(start as int, k as int)) && v <= 0xffff,
                    over ==> hex_val_of(s@.subrange(start as int, k as int)) > 0xffff,
                decreases n - k,
            {
                if k >= n {
                    break;
                }
                let d = match hex_char_val(s.get_char(k)) {
                    Some(d) => d,
                    None => {
                        break;
                    },
                };
                proof {
                    assert(s@.subrange(start as int, k + 1).drop_last() =~= s@.subrange(
                        start as int,
                        k as int,
                    ));
                    assert(s@.subrange(start as int, k + 1).last() == s@[k as int]);
                }
                if !over {
                    let nv: u32 = v * 16 + (d as u32);
                    if nv > 0xffff {
                        over = true;
                    } else {
                        v = nv;
                    }
                }
                k = k + 1;
            }
            if over {
                return None;
            } else {
                return Some(v as u16);
            }
        }
        j = j + 1;
    }
    proof {
        assert(match_from(s@, lo, up, j as int) is None);
    }
    None
}

/// The vendor id in a device path, from its first `VID_` marker.
pub fn parse_vid(s: &str) -> (r: Option<u16>)
    ensures
        r == spec_parse_id(s@, 'v', 'V'),
{
    parse_hex_id(s, 'v', 'V')
}

/// The product id in a device path, from its first `PID_` marker.
pub fn parse_pid(s: &str) -> (r: Option<u16>)
    ensures
        r == spec_parse_id(s@, 'p', 'P'),
{
    parse_hex_id(s, 'p', 'P')
}

} // verus!
