//! Small helpers on text.

use vstd::prelude::*;

verus! {

/// Compares two texts character by character.
pub fn str_eq(a: &str, b: &str) -> (r: bool)
    ensures
        r == (a@ == b@),
{
    let n = a.unicode_len();
    if n != b.unicode_len() {
        return false;
    }
    let mut i: usize = 0;
    while i < n
        invariant
            n == a@.len(),
            n == b@.len(),
            i <= n,
            forall|j: int| 0 <= j < i ==> a@[j] == b@[j],
        decreases n - i,
    {
        if a.get_char(i) != b.get_char(i) {
            return false;
        }
        i = i + 1;
    }
    assert(a@ =~= b@);
    true
}

/// The list holds the text `s`.
pub open spec fn holds_text(values: Seq<String>, s: Seq<char>) -> bool {
    exists|i: int| 0 <= i < values.len() && (#[trigger] values[i])@ == s
}

/// Looks for the text `s` in a list of texts.
pub fn contains_text(values: &Vec<String>, s: &str) -> (r: bool)
    ensures
        r == holds_text(values@, s@),
{
    let mut i: usize = 0;
    while i < values.len()
        invariant
            i <= values@.len(),
            forall|j: int| 0 <= j < i ==> (#[trigger] values@[j])@ != s@,
        decreases values@.len() - i,
    {
        if str_eq(values[i].as_str(), s) {
            return true;
        }
        i = i + 1;
    }
    false
}

} // verus!
