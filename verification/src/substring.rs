//! Substring containment over character sequences: the specification of
//! fixed-string matching, and a verified search that decides it.

use vstd::prelude::*;

verus! {

/// `pattern` occurs in `line` starting at character index `i`.
pub open spec fn matches_at(line: Seq<char>, pattern: Seq<char>, i: int) -> bool {
    0 <= i && i + pattern.len() <= line.len() && line.subrange(i, i + pattern.len()) == pattern
}

/// `line` contains `pattern` as a contiguous substring. The empty pattern is
/// contained in every line, at index zero.
pub open spec fn contains_substring(line: Seq<char>, pattern: Seq<char>) -> bool {
    exists|i: int| matches_at(line, pattern, i)
}

/// Whether `pattern` occurs in `line` at character index `start`, comparing
/// character by character.
fn matches_at_index(line: &str, pattern: &str, start: usize, pat_len: usize) -> (r: bool)
    requires
        pat_len == pattern@.len(),
        start + pat_len <= line@.len(),
        line@.len() <= usize::MAX,
    ensures
        r == matches_at(line@, pattern@, start as int),
{
    let mut j: usize = 0;
    while j < pat_len
        invariant
            pat_len == pattern@.len(),
            start + pat_len <= line@.len(),
            line@.len() <= usize::MAX,
            j <= pat_len,
            forall|k: int| 0 <= k < j ==> line@[start + k] == pattern@[k],
        decreases pat_len - j,
    {
        if line.get_char(start + j) != pattern.get_char(j) {
            proof {
                assert(line@.subrange(start as int, start + pat_len)[j as int]
                    == line@[start + j]);
            }
            return false;
        }
        j += 1;
    }
    proof {
        assert(line@.subrange(start as int, start + pat_len) =~= pattern@);
    }
    true
}

/// Decide whether `line` contains `pattern` as a contiguous substring, by
/// trying every starting position in turn. Every character of the pattern,
/// including characters that a regular expression would treat specially, is
/// compared literally.
pub fn str_contains(line: &str, pattern: &str) -> (r: bool)
    ensures
        r == contains_substring(line@, pattern@),
{
    let n: usize = line.unicode_len();
    let m: usize = pattern.unicode_len();
    if m > n {
        proof {
            assert(forall|k: int| !matches_at(line@, pattern@, k));
        }
        return false;
    }
    let mut i: usize = 0;
    while i <= n - m
        invariant
            n == line@.len(),
            m == pattern@.len(),
            m <= n,
            i <= n - m + 1,
            forall|k: int| 0 <= k < i ==> !matches_at(line@, pattern@, k),
        decreases n - m + 1 - i,
    {
        if matches_at_index(line, pattern, i, m) {
            return true;
        }
        proof {
            // An empty pattern matches at every index, so the branch above
            // already returned; past it the pattern is non-empty, which
            // keeps the increment below from overflowing.
            if m == 0 {
                assert(line@.subrange(i as int, i as int) =~= pattern@);
                assert(matches_at(line@, pattern@, i as int));
            }
        }
        i += 1;
    }
    proof {
        assert(forall|k: int| !matches_at(line@, pattern@, k));
    }
    false
}

/// The empty pattern is contained in every line.
pub proof fn lemma_empty_pattern_matches(line: Seq<char>)
    ensures
        contains_substring(line, Seq::<char>::empty()),
{
    assert(matches_at(line, Seq::<char>::empty(), 0)) by {
        assert(line.subrange(0, 0) =~= Seq::<char>::empty());
    }
}

/// An empty line contains exactly the empty pattern.
pub proof fn lemma_empty_line(pattern: Seq<char>)
    ensures
        contains_substring(Seq::<char>::empty(), pattern) <==> pattern.len() == 0,
{
    if pattern.len() == 0 {
        assert(pattern =~= Seq::<char>::empty());
        lemma_empty_pattern_matches(Seq::<char>::empty());
    } else {
        assert(forall|i: int| !matches_at(Seq::<char>::empty(), pattern, i));
    }
}

} // verus!
