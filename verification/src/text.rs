//! Searching a text for a phrase.

use vstd::prelude::*;

verus! {

/// `needle` stands in `haystack`, character for character, from index `at`.
pub open spec fn occurs_at(haystack: Seq<char>, needle: Seq<char>, at: int) -> bool {
    &&& 0 <= at
    &&& at + needle.len() <= haystack.len()
    &&& haystack.subrange(at, at + needle.len()) == needle
}

/// `needle` stands somewhere in `haystack`.
pub open spec fn occurs_in(haystack: Seq<char>, needle: Seq<char>) -> bool {
    exists|at: int| occurs_at(haystack, needle, at)
}

/// The characters of `text`, in order.
fn characters(text: &str) -> (chars: Vec<char>)
    ensures
        chars@ == text@,
{
    let mut chars: Vec<char> = Vec::new();
    for c in it: text.chars()
        invariant
            it.seq() == text@,
            chars@ == it.seq().take(it.index()),
    {
        chars.push(c);
    }
    chars
}

/// Whether `needle` stands in `haystack` from index `at`.
fn matches_at(haystack: &Vec<char>, needle: &Vec<char>, at: usize) -> (found: bool)
    requires
        at + needle@.len() <= haystack@.len(),
    ensures
        found == occurs_at(haystack@, needle@, at as int),
{
    let total: usize = haystack.len();
    let wanted: usize = needle.len();
    let mut k: usize = 0;
    while k < wanted
        invariant
            k <= wanted == needle@.len(),
            at + wanted <= total == haystack@.len(),
            forall|j: int| 0 <= j < k ==> haystack@[at + j] == needle@[j],
        decreases wanted - k,
    {
        if haystack[at + k] != needle[k] {
            assert(haystack@.subrange(at as int, at + needle@.len())[k as int] != needle@[k as int]);
            return false;
        }
        k = k + 1;
    }
    assert(haystack@.subrange(at as int, at + needle@.len()) =~= needle@);
    true
}

/// Whether `needle` stands somewhere in `haystack`. The empty phrase stands in
/// every text.
pub fn contains(haystack: &str, needle: &str) -> (found: bool)
    ensures
        found == occurs_in(haystack@, needle@),
{
    let hay = characters(haystack);
    let pin = characters(needle);
    if pin.len() > hay.len() {
        return false;
    }
    if pin.len() == 0 {
        assert(haystack@.subrange(0, 0) =~= needle@);
        assert(occurs_at(haystack@, needle@, 0));
        return true;
    }
    let starts: usize = hay.len() - pin.len() + 1;
    let mut at: usize = 0;
    while at < starts
        invariant
            at <= starts,
            starts == hay@.len() - pin@.len() + 1,
            hay@ == haystack@,
            pin@ == needle@,
            forall|i: int| 0 <= i < at ==> !occurs_at(hay@, pin@, i),
        decreases starts - at,
    {
        if matches_at(&hay, &pin, at) {
            return true;
        }
        at = at + 1;
    }
    false
}

} // verus!
