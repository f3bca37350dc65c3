use vstd::prelude::*;

verus! {

/// `needle` occurs in `hay` starting at position `i`.
pub open spec fn occurs_at(hay: Seq<char>, needle: Seq<char>, i: int) -> bool {
    &&& 0 <= i
    &&& i + needle.len() <= hay.len()
    &&& hay.subrange(i, i + needle.len()) == needle
}

/// `needle` occurs somewhere in `hay`.
pub open spec fn contains_seq(hay: Seq<char>, needle: Seq<char>) -> bool {
    exists|i: int| occurs_at(hay, needle, i)
}

/// Does `needle` occur in `hay` starting at position `at`?
fn matches_at(hay: &str, needle: &str, at: usize, needle_len: usize) -> (r: bool)
    requires
        needle_len == needle@.len(),
        at + needle_len <= hay@.len(),
        at + needle_len <= usize::MAX,
    ensures
        r == occurs_at(hay@, needle@, at as int),
{
    let mut j: usize = 0;
    while j < needle_len
        invariant
            needle_len == needle@.len(),
            at + needle_len <= hay@.len(),
            at + needle_len <= usize::MAX,
            0 <= j <= needle_len,
            forall|k: int| 0 <= k < j ==> hay@[at + k] == needle@[k],
        decreases needle_len - j,
    {
        if hay.get_char(at + j) != needle.get_char(j) {
            assert(hay@.subrange(at as int, at + needle@.len())[j as int] != needle@[j as int]);
            return false;
        }
        j = j + 1;
    }
    assert(hay@.subrange(at as int, at + needle@.len()) =~= needle@);
    true
}

/// Does `needle` occur anywhere in `hay`?
pub fn str_contains(hay: &str, needle: &str) -> (r: bool)
    ensures
        r == contains_seq(hay@, needle@),
{
    let hay_len = hay.unicode_len();
    let needle_len = needle.unicode_len();
    if needle_len == 0 {
        assert(hay@.subrange(0, 0) =~= needle@);
        assert(occurs_at(hay@, needle@, 0));
        return true;
    }
    if needle_len > hay_len {
        assert(forall|i: int| !occurs_at(hay@, needle@, i));
        return false;
    }
    let mut i: usize = 0;
    while i <= hay_len - needle_len
        invariant
            hay_len == hay@.len(),
            needle_len == needle@.len(),
            1 <= needle_len <= hay_len,
            0 <= i <= hay_len - needle_len + 1,
            forall|k: int| 0 <= k < i ==> !occurs_at(hay@, needle@, k),
        decreases hay_len - i,
    {
        if matches_at(hay, needle, i, needle_len) {
            assert(contains_seq(hay@, needle@));
            return true;
        }
        i = i + 1;
    }
    assert(forall|k: int| occurs_at(hay@, needle@, k) ==> 0 <= k <= hay@.len() - needle@.len());
    false
}

/// The marker by which the provider's "too many results" rejection is
/// recognized in its error message.
pub open spec fn range_hint() -> Seq<char> {
    "more than"@
}

/// Classifies a provider error message: `true` exactly when it carries the
/// "more than" marker of a range-too-large rejection, which tells the
/// scanner to shrink its step instead of backing off.
pub fn is_range_too_large(message: &str) -> (r: bool)
    ensures
        r == contains_seq(message@, range_hint()),
{
    str_contains(message, "more than")
}

} // verus!
