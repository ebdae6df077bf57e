//! Character-level helpers on strings.
//!
//! Contracts in this crate speak of a string through its view, the sequence
//! of its characters. The functions here read a string character by
//! character so that the rest of the crate can work index by index.

use vstd::prelude::*;

verus! {

/// Trusted: `String::push` of the standard library appends the given
/// character to the end of the string and changes nothing else.
pub assume_specification[ String::push ](s: &mut String, c: char)
    ensures
        final(s)@ == old(s)@.push(c),
;

/// The characters of `s`, in order.
pub fn chars_of(s: &str) -> (out: Vec<char>)
    ensures
        out@ == s@,
{
    let mut out: Vec<char> = Vec::new();
    for c in it: s.chars()
        invariant
            out@ == it.seq().take(it.index() as int),
            it.seq() == s@,
    {
        out.push(c);
    }
    out
}

/// Whether `text` ends with `suffix`, character for character.
pub fn ends_with(text: &str, suffix: &str) -> (b: bool)
    ensures
        b == suffix@.is_suffix_of(text@),
{
    let t = chars_of(text);
    let s = chars_of(suffix);
    if s.len() > t.len() {
        return false;
    }
    let offset: usize = t.len() - s.len();
    let ghost tail = t@.subrange(offset as int, t.len() as int);
    let mut i: usize = 0;
    while i < s.len()
        invariant
            i <= s.len(),
            offset + s.len() == t.len(),
            t@ == text@,
            s@ == suffix@,
            tail == t@.subrange(offset as int, t.len() as int),
            forall|k: int| 0 <= k < i ==> tail[k] == s@[k],
        decreases s.len() - i,
    {
        if t[offset + i] != s[i] {
            assert(tail[i as int] != s@[i as int]);
            return false;
        }
        i += 1;
    }
    assert(tail =~= s@);
    true
}

} // verus!
