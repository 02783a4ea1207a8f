//! ASCII case folding over character sequences, used to compare extension
//! strings case-insensitively against lowercase type labels.

use vstd::prelude::*;
use vstd::string::StrSliceExecFns;

verus! {

/// ASCII lowercase of one character: an ASCII capital letter moves down to
/// its small form, every other character stays as it is.
pub open spec fn lower_char(c: char) -> char {
    if 65 <= c as u32 && c as u32 <= 90 {
        ((c as u8) + 32) as char
    } else {
        c
    }
}

/// ASCII lowercase of a character sequence, character by character.
pub open spec fn lower(s: Seq<char>) -> Seq<char> {
    s.map_values(|c: char| lower_char(c))
}

/// ASCII lowercase of one character.
pub fn fold_char(c: char) -> (r: char)
    ensures
        r == lower_char(c),
{
    let u: u32 = c as u32;
    if 65 <= u && u <= 90 {
        ((c as u8) + 32) as char
    } else {
        c
    }
}

/// Compare the ASCII lowercase of `a` against `b`, character by character.
/// True exactly when folding `a` gives `b`.
pub fn chars_eq_fold(a: &str, b: &str) -> (r: bool)
    ensures
        r == (lower(a@) == b@),
{
    let na: usize = a.unicode_len();
    let nb: usize = b.unicode_len();
    if na != nb {
        proof {
            assert(lower(a@).len() == a@.len());
        }
        return false;
    }
    let mut i: usize = 0;
    while i < na
        invariant
            na == a@.len(),
            na == b@.len(),
            i <= na,
            forall|k: int| 0 <= k < i ==> lower(a@)[k] == b@[k],
        decreases na - i,
    {
        let ca = fold_char(a.get_char(i));
        let cb = b.get_char(i);
        proof {
            assert(lower(a@)[i as int] == lower_char(a@[i as int]));
        }
        if ca != cb {
            return false;
        }
        i += 1;
    }
    proof {
        assert(lower(a@) =~= b@);
    }
    true
}

} // verus!
