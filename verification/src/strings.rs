//! Small executable helpers over strings, specified against their
//! character sequences.

use vstd::prelude::*;
use vstd::string::StrSliceExecFns;

verus! {

/// Decides equality of two string slices by their character sequences.
pub fn str_eq(a: &str, b: &str) -> (r: bool)
    ensures
        r == (a@ == b@),
{
    let na = a.unicode_len();
    let nb = b.unicode_len();
    if na != nb {
        return false;
    }
    let mut i: usize = 0;
    while i < na
        invariant
            i <= na,
            na == a@.len(),
            na == b@.len(),
            forall|j: int| 0 <= j < i ==> a@[j] == b@[j],
        decreases na - i,
    {
        if a.get_char(i) != b.get_char(i) {
            return false;
        }
        i += 1;
    }
    proof {
        assert(a@ =~= b@);
    }
    true
}

/// Copies an optional string, preserving its mathematical value.
pub fn clone_opt_string(o: &Option<String>) -> (r: Option<String>)
    ensures
        r.deep_view() == o.deep_view(),
{
    match o {
        Some(s) => Some(s.clone()),
        None => None,
    }
}

/// The lower-case form of one character, folding only the ASCII range.
pub open spec fn lower_char(c: char) -> char {
    if 65 <= c as u32 <= 90 {
        ((c as u32) + 32) as char
    } else {
        c
    }
}

/// The lower-case form of a character sequence, folding only the ASCII range.
pub open spec fn lower(s: Seq<char>) -> Seq<char> {
    s.map_values(|c: char| lower_char(c))
}

/// Tests whether `a`, lower-cased in the ASCII range, equals `b`.
pub fn eq_lower(a: &str, b: &str) -> (r: bool)
    ensures
        r == (lower(a@) == b@),
{
    let na = a.unicode_len();
    let nb = b.unicode_len();
    if na != nb {
        proof {
            assert(lower(a@).len() == a@.len());
        }
        return false;
    }
    let mut i: usize = 0;
    while i < na
        invariant
            i <= na,
            na == a@.len(),
            na == b@.len(),
            forall|j: int| 0 <= j < i ==> lower(a@)[j] == b@[j],
        decreases na - i,
    {
        let ca = a.get_char(i) as u32;
        let folded: u32 = if 65 <= ca && ca <= 90 {
            ca + 32
        } else {
            ca
        };
        let cb = b.get_char(i) as u32;
        if folded != cb {
            proof {
                assert(lower(a@)[i as int] != b@[i as int]);
            }
            return false;
        }
        proof {
            assert(lower(a@)[i as int] == b@[i as int]);
        }
        i += 1;
    }
    proof {
        assert(lower(a@) =~= b@);
    }
    true
}

} // verus!
