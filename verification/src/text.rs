//! ASCII case folding for the storage-boundary text codecs: status words
//! are matched up to ASCII case, so `"PENDING"` and `"Pending"` decode
//! like `"pending"`.

use vstd::prelude::*;
use vstd::string::StrSliceExecFns;

verus! {

/// The ASCII case fold of a character's code point: the letters 'A' to
/// 'Z' map to their lowercase forms, every other character is unchanged.
pub open spec fn spec_fold_char(c: char) -> u32 {
    if 65 <= c as u32 && c as u32 <= 90 {
        (c as u32 + 32) as u32
    } else {
        c as u32
    }
}

/// Two texts are equal up to ASCII case.
pub open spec fn eq_ignore_ascii_case(a: Seq<char>, b: Seq<char>) -> bool {
    &&& a.len() == b.len()
    &&& forall|i: int| 0 <= i < a.len() ==> spec_fold_char(a[i]) == spec_fold_char(#[trigger] b[i])
}

/// Fold one character.
fn fold_char(c: char) -> (r: u32)
    ensures
        r == spec_fold_char(c),
{
    let u = c as u32;
    if 65 <= u && u <= 90 {
        u + 32
    } else {
        u
    }
}

/// Whether two strings are equal up to ASCII case.
pub fn str_eq_ignore_ascii_case(a: &str, b: &str) -> (r: bool)
    ensures
        r == eq_ignore_ascii_case(a@, b@),
{
    let la = a.unicode_len();
    let lb = b.unicode_len();
    if la != lb {
        return false;
    }
    let mut i: usize = 0;
    while i < la
        invariant
            i <= la,
            la == a@.len(),
            la == b@.len(),
            forall|j: int|
                0 <= j < i ==> spec_fold_char(a@[j]) == spec_fold_char(#[trigger] b@[j]),
        decreases la - i,
    {
        if fold_char(a.get_char(i)) != fold_char(b.get_char(i)) {
            return false;
        }
        i = i + 1;
    }
    true
}

} // verus!
