//! ASCII case folding and the character classes shared by the identifier
//! grammars.

use vstd::prelude::*;
use vstd::string::StrSliceExecFns;

verus! {

/// ASCII-lowercase a single character: `A`-`Z` map to `a`-`z`, every other
/// character is unchanged.
pub open spec fn spec_lower_char(c: char) -> char {
    if 'A' <= c && c <= 'Z' {
        (((c as u32) + 32) as u8) as char
    } else {
        c
    }
}

/// ASCII-uppercase a single character: `a`-`z` map to `A`-`Z`, every other
/// character is unchanged.
pub open spec fn spec_upper_char(c: char) -> char {
    if 'a' <= c && c <= 'z' {
        (((c as u32) - 32) as u8) as char
    } else {
        c
    }
}

/// ASCII-uppercase every character of a string.
pub open spec fn spec_upper_seq(s: Seq<char>) -> Seq<char> {
    s.map_values(|c: char| spec_upper_char(c))
}

/// A character acceptable to the identifier grammars: a decimal digit, or a
/// letter between `a` and `end` case-insensitively.
pub open spec fn spec_valid_char(c: char, end: char) -> bool {
    ('0' <= c && c <= '9') || ('a' <= spec_lower_char(c) && spec_lower_char(c) <= end)
}

/// An ASCII letter, either case.
pub open spec fn spec_ascii_letter(c: char) -> bool {
    'a' <= spec_lower_char(c) && spec_lower_char(c) <= 'z'
}

/// Check that a given char is 0-9 or a-`end` case-insensitively.
pub fn valid_char(c: char, end: char) -> (b: bool)
    ensures
        b == spec_valid_char(c, end),
{
    let u = c as u32;
    let lower = if 65 <= u && u <= 90 {
        u + 32
    } else {
        u
    };
    proof {
        assert(spec_lower_char(c) as u32 == lower);
    }
    (48 <= u && u <= 57) || (97 <= lower && lower <= end as u32)
}

/// Check that a given char is an ASCII letter of either case.
pub fn ascii_letter(c: char) -> (b: bool)
    ensures
        b == spec_ascii_letter(c),
{
    let u = c as u32;
    let lower = if 65 <= u && u <= 90 {
        u + 32
    } else {
        u
    };
    proof {
        assert(spec_lower_char(c) as u32 == lower);
    }
    97 <= lower && lower <= 122
}

/// Relies on `String::push`: appends the given character to the end of the
/// string.
pub assume_specification[ String::push ](s: &mut String, ch: char)
    ensures
        final(s)@ == old(s)@.push(ch),
;

/// ASCII-uppercase a whole string; characters outside `a`-`z` are unchanged.
pub fn to_upper(s: &str) -> (r: String)
    ensures
        r@ == spec_upper_seq(s@),
{
    let n = s.unicode_len();
    let mut r = String::new();
    let mut i: usize = 0;
    while i < n
        invariant
            i <= n,
            n == s@.len(),
            r@.len() == i,
            forall|j: int| 0 <= j < i ==> r@[j] == spec_upper_char(s@[j]),
        decreases n - i,
    {
        let c = s.get_char(i);
        let u = c as u32;
        let up: char = if 97 <= u && u <= 122 {
            ((u - 32) as u8) as char
        } else {
            c
        };
        proof {
            assert(up == spec_upper_char(s@[i as int]));
        }
        r.push(up);
        i += 1;
    }
    proof {
        assert(r@ =~= spec_upper_seq(s@));
    }
    r
}

/// ASCII case folding is idempotent: uppercasing an already-uppercased
/// string changes nothing.
pub proof fn lemma_upper_seq_idempotent(s: Seq<char>)
    ensures
        spec_upper_seq(spec_upper_seq(s)) == spec_upper_seq(s),
{
    assert forall|i: int| 0 <= i < s.len() implies spec_upper_char(spec_upper_char(s[i]))
        == spec_upper_char(s[i]) by {
        let c = s[i];
        if 'a' <= c && c <= 'z' {
            assert(spec_upper_char(c) as u32 == c as u32 - 32);
        }
    }
    assert(spec_upper_seq(spec_upper_seq(s)) =~= spec_upper_seq(s));
}

} // verus!
