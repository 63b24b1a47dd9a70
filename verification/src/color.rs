//! Hex color parsing.
//!
//! A chroma advertises its tints as strings such as `"#AABBCC"`. The
//! selected chroma's first color is turned into a 24-bit RGB integer:
//! leading `#` characters are stripped and the rest is read as a
//! base-16 number, failing on anything that is not a hex digit and on
//! values that do not fit a 32-bit integer.

use vstd::prelude::*;
use vstd::string::StrSliceExecFns;

verus! {

/// Whether `c` is an ASCII hex digit.
pub open spec fn is_hex_digit(c: char) -> bool {
    (48 <= c as u32 <= 57) || (97 <= c as u32 <= 102) || (65 <= c as u32 <= 70)
}

/// Numeric value of a hex digit (meaningful only when `is_hex_digit(c)`).
pub open spec fn hex_digit_value(c: char) -> int {
    if 48 <= c as u32 <= 57 {
        c as u32 - 48
    } else if 97 <= c as u32 <= 102 {
        c as u32 - 87
    } else {
        c as u32 - 55
    }
}

/// `s` with every leading `#` removed.
pub open spec fn strip_hashes(s: Seq<char>) -> Seq<char>
    decreases s.len(),
{
    if s.len() > 0 && s[0] == '#' {
        strip_hashes(s.subrange(1, s.len() as int))
    } else {
        s
    }
}

/// Every character of `s` is a hex digit.
pub open spec fn all_hex(s: Seq<char>) -> bool {
    forall|k: int| 0 <= k < s.len() ==> is_hex_digit(#[trigger] s[k])
}

/// Base-16 value of `s`, folded from the left onto `acc`.
pub open spec fn hex_value_acc(s: Seq<char>, acc: int) -> int
    decreases s.len(),
{
    if s.len() == 0 {
        acc
    } else {
        hex_value_acc(s.drop_first(), acc * 16 + hex_digit_value(s[0]))
    }
}

/// Base-16 value of `s`.
pub open spec fn hex_value(s: Seq<char>) -> int {
    hex_value_acc(s, 0)
}

/// What parsing a color string yields: the base-16 value of the string
/// after its leading `#`s, provided at least one hex digit remains, all
/// remaining characters are hex digits, and the value fits in 32 bits.
pub open spec fn spec_parse_color(s: Seq<char>) -> Option<u32> {
    let t = strip_hashes(s);
    if t.len() >= 1 && all_hex(t) && hex_value(t) <= u32::MAX {
        Some(hex_value(t) as u32)
    } else {
        None
    }
}

proof fn lemma_hex_acc_lower_bound(s: Seq<char>, acc: int)
    requires
        all_hex(s),
        acc >= 0,
    ensures
        hex_value_acc(s, acc) >= acc,
    decreases s.len(),
{
    if s.len() > 0 {
        assert(is_hex_digit(s[0]));
        assert(all_hex(s.drop_first()));
        lemma_hex_acc_lower_bound(s.drop_first(), acc * 16 + hex_digit_value(s[0]));
    }
}

/// Parses one color string into its 24-bit RGB value.
pub fn parse_hex_color(s: &str) -> (r: Option<u32>)
    ensures
        r == spec_parse_color(s@),
{
    let n = s.unicode_len();
    let mut i: usize = 0;
    proof {
        assert(s@.subrange(0, n as int) =~= s@);
    }
    while i < n && s.get_char(i) == '#'
        invariant
            n == s@.len(),
            0 <= i <= n,
            strip_hashes(s@) == strip_hashes(s@.subrange(i as int, n as int)),
        decreases n - i,
    {
        proof {
            let cur = s@.subrange(i as int, n as int);
            assert(cur.subrange(1, cur.len() as int) =~= s@.subrange(i + 1, n as int));
        }
        i += 1;
    }
    let ghost t = s@.subrange(i as int, n as int);
    proof {
        assert(strip_hashes(t) == t);
        assert(strip_hashes(s@) == t);
    }
    if i == n {
        return None;
    }
    let mut acc: u64 = 0;
    let mut j: usize = i;
    proof {
        assert(t.subrange(0, t.len() as int) =~= t);
    }
    while j < n
        invariant
            n == s@.len(),
            i <= j <= n,
            i < n,
            t == s@.subrange(i as int, n as int),
            strip_hashes(s@) == t,
            all_hex(t.subrange(0, j - i)),
            0 <= acc <= u32::MAX,
            hex_value(t) == hex_value_acc(t.subrange(j - i, t.len() as int), acc as int),
        decreases n - j,
    {
        let c = s.get_char(j);
        proof {
            let rem = t.subrange(j - i, t.len() as int);
            assert(rem[0] == s@[j as int]);
            assert(rem.drop_first() =~= t.subrange(j - i + 1, t.len() as int));
        }
        let u = c as u32;
        let d: u64 = if 48 <= u && u <= 57 {
            (u - 48) as u64
        } else if 97 <= u && u <= 102 {
            (u - 87) as u64
        } else if 65 <= u && u <= 70 {
            (u - 55) as u64
        } else {
            proof {
                assert(!is_hex_digit(t[j - i]));
                assert(!all_hex(t));
            }
            return None;
        };
        let next: u64 = acc * 16 + d;
        if next > 0xFFFF_FFFF {
            proof {
                let rest = t.subrange(j - i + 1, t.len() as int);
                if all_hex(rest) {
                    lemma_hex_acc_lower_bound(rest, next as int);
                    assert(hex_value(t) > u32::MAX);
                } else {
                    let bad = choose|k: int| 0 <= k < rest.len() && !is_hex_digit(rest[k]);
                    assert(!is_hex_digit(t[j - i + 1 + bad]));
                    assert(!all_hex(t));
                }
            }
            return None;
        }
        acc = next;
        proof {
            assert(t.subrange(0, j - i + 1) =~= t.subrange(0, j - i).push(t[j - i]));
        }
        j += 1;
    }
    proof {
        assert(t.subrange(0, j - i) =~= t);
        assert(t.subrange(j - i, t.len() as int) =~= Seq::<char>::empty());
        assert(hex_value(t) == acc as int);
    }
    Some(acc as u32)
}

} // verus!
