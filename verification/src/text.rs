//! Small verified helpers on text.
use vstd::prelude::*;

verus! {

/// `==` on `str`: whether two string slices hold the same characters.
pub assume_specification[ <str as PartialEq>::eq ](a: &str, b: &str) -> (same: bool)
    ensures
        same == (a@ == b@),
;

/// Whether `text` ends in `suffix`.
pub open spec fn has_suffix(text: Seq<char>, suffix: Seq<char>) -> bool {
    suffix.len() <= text.len() && text.skip(text.len() - suffix.len()) == suffix
}

/// The characters of a string slice.
pub fn chars_of(text: &str) -> (chars: Vec<char>)
    ensures
        chars@ == text@,
{
    let mut chars: Vec<char> = Vec::new();
    for c in it: text.chars()
        invariant
            it.seq() == text@,
            chars@ == text@.take(it.index()),
    {
        chars.push(c);
    }
    chars
}

/// Whether `text` ends in `suffix`.
pub fn ends_with(text: &Vec<char>, suffix: &str) -> (ends: bool)
    ensures
        ends == has_suffix(text@, suffix@),
{
    let tail = chars_of(suffix);
    if tail.len() > text.len() {
        return false;
    }
    let start = text.len() - tail.len();
    let mut i: usize = 0;
    while i < tail.len()
        invariant
            tail@ == suffix@,
            start + tail.len() == text.len(),
            i <= tail.len(),
            forall|k: int| 0 <= k < i ==> text@[start + k] == tail@[k],
        decreases tail.len() - i,
    {
        if text[start + i] != tail[i] {
            return false;
        }
        i = i + 1;
    }
    assert(text@.skip(start as int) =~= tail@);
    true
}

} // verus!
