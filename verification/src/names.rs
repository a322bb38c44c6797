//! Case-sensitive substring matching on device names, held as byte strings.
//!
//! Discovery resolves a configured source name against a device's advertised
//! name by substring containment. Names are carried as UTF-8 bytes; a byte
//! substring that is itself valid UTF-8 matches exactly where the character
//! substring does, so the byte-level check is the whole story.

use vstd::prelude::*;

verus! {

/// `needle` occurs in `hay` starting exactly at `i`.
pub open spec fn matches_at(needle: Seq<u8>, hay: Seq<u8>, i: int) -> bool {
    0 <= i && i + needle.len() <= hay.len() && hay.subrange(i, i + needle.len()) == needle
}

/// `needle` occurs contiguously somewhere in `hay`.
pub open spec fn is_substring_of(needle: Seq<u8>, hay: Seq<u8>) -> bool {
    exists|i: int| matches_at(needle, hay, i)
}

fn bytes_match_at(needle: &Vec<u8>, hay: &Vec<u8>, i: usize) -> (r: bool)
    requires
        i + needle@.len() <= hay@.len(),
    ensures
        r == matches_at(needle@, hay@, i as int),
{
    let hay_len: usize = hay.len();
    let needle_len: usize = needle.len();
    let mut j: usize = 0;
    while j < needle_len
        invariant
            j <= needle_len,
            needle_len == needle@.len(),
            hay_len == hay@.len(),
            i + needle@.len() <= hay@.len(),
            forall|k: int| 0 <= k < j ==> hay@[i + k] == needle@[k],
        decreases needle_len - j,
    {
        if hay[i + j] != needle[j] {
            assert(hay@.subrange(i as int, i + needle@.len())[j as int] != needle@[j as int]);
            return false;
        }
        j += 1;
    }
    assert(hay@.subrange(i as int, i + needle@.len()) =~= needle@);
    true
}

/// True exactly when `needle` is a (case-sensitive) substring of `hay`.
/// An empty `needle` is contained in every `hay`.
pub fn contains_name(hay: &Vec<u8>, needle: &Vec<u8>) -> (r: bool)
    ensures
        r == is_substring_of(needle@, hay@),
{
    if needle.len() > hay.len() {
        return false;
    }
    if needle.len() == 0 {
        assert(hay@.subrange(0, 0) =~= needle@);
        assert(matches_at(needle@, hay@, 0));
        return true;
    }
    let last_start: usize = hay.len() - needle.len();
    let mut i: usize = 0;
    while i <= last_start
        invariant
            0 < needle@.len() <= hay@.len(),
            last_start == hay@.len() - needle@.len(),
            last_start < usize::MAX,
            i <= last_start + 1,
            forall|k: int| 0 <= k < i ==> !matches_at(needle@, hay@, k),
        decreases last_start + 1 - i,
    {
        if bytes_match_at(needle, hay, i) {
            assert(is_substring_of(needle@, hay@));
            return true;
        }
        i += 1;
    }
    assert(forall|k: int| matches_at(needle@, hay@, k) ==> 0 <= k < i);
    false
}

} // verus!
