//! The library search filter: which entries of the file list match a query.
//!
//! The list itself is built outside (it comes from the filesystem); the
//! match — plain substring containment over the entries' display names — and
//! the selection of matching indices are verified here.

use vstd::prelude::*;

verus! {

/// `needle` occurs in `hay` starting at position `i`.
pub open spec fn matches_at(hay: Seq<char>, needle: Seq<char>, i: int) -> bool {
    &&& 0 <= i
    &&& i + needle.len() <= hay.len()
    &&& hay.subrange(i, i + needle.len()) == needle
}

/// `needle` occurs somewhere in `hay`.  Every text contains the empty text.
pub open spec fn contains_sub(hay: Seq<char>, needle: Seq<char>) -> bool {
    exists|i: int| matches_at(hay, needle, i)
}

/// Whether `needle` occurs at position `i` of `hay`.
fn check_match_at(hay: &str, needle: &str, i: usize, n: usize, m: usize) -> (r: bool)
    requires
        n == hay@.len(),
        m == needle@.len(),
        i + m <= n,
    ensures
        r == matches_at(hay@, needle@, i as int),
{
    let mut j: usize = 0;
    while j < m
        invariant
            j <= m,
            n == hay@.len(),
            m == needle@.len(),
            i + m <= n,
            forall|k: int| 0 <= k < j ==> hay@[i + k] == needle@[k],
        decreases m - j,
    {
        if hay.get_char(i + j) != needle.get_char(j) {
            proof {
                assert(hay@.subrange(i as int, i + m)[j as int] == hay@[i + j]);
            }
            return false;
        }
        j = j + 1;
    }
    proof {
        assert(hay@.subrange(i as int, i + m) =~= needle@);
    }
    true
}

/// Whether `needle` occurs anywhere in `hay`.
pub fn str_contains(hay: &str, needle: &str) -> (r: bool)
    ensures
        r == contains_sub(hay@, needle@),
{
    let n = hay.unicode_len();
    let m = needle.unicode_len();
    if m > n {
        proof {
            assert forall|i: int| !matches_at(hay@, needle@, i) by {}
        }
        return false;
    }
    if m == 0 {
        proof {
            assert(hay@.subrange(0, 0) =~= needle@);
            assert(matches_at(hay@, needle@, 0));
        }
        return true;
    }
    let mut i: usize = 0;
    while i <= n - m
        invariant
            i <= n - m + 1,
            0 < m <= n,
            n == hay@.len(),
            m == needle@.len(),
            forall|k: int| 0 <= k < i ==> !matches_at(hay@, needle@, k),
        decreases n - m - i + 1,
    {
        if check_match_at(hay, needle, i, n, m) {
            return true;
        }
        i = i + 1;
    }
    proof {
        assert forall|k: int| !matches_at(hay@, needle@, k) by {
            if matches_at(hay@, needle@, k) {
                assert(k + m <= n);
            }
        }
    }
    false
}

/// The names of the list entries, by their characters.
pub open spec fn name_views(names: Seq<String>) -> Seq<Seq<char>> {
    names.map(|i: int, s: String| s@)
}

/// The indices, in order, of the first `n` names that contain the query.
pub open spec fn matching_upto(names: Seq<Seq<char>>, query: Seq<char>, n: int) -> Seq<int>
    decreases n,
{
    if n <= 0 {
        Seq::empty()
    } else {
        let rest = matching_upto(names, query, n - 1);
        if contains_sub(names[n - 1], query) {
            rest.push(n - 1)
        } else {
            rest
        }
    }
}

/// Filters the file list by a search query: the indices, in order, of the
/// entries whose name contains the query.  An empty query matches every
/// entry.
pub fn search(names: &Vec<String>, query: &str) -> (r: Vec<usize>)
    ensures
        r@.map_values(|v: usize| v as int) == matching_upto(
            name_views(names@),
            query@,
            names@.len() as int,
        ),
{
    let mut out: Vec<usize> = Vec::new();
    let n = names.len();
    let mut i: usize = 0;
    while i < n
        invariant
            i <= n,
            n == names@.len(),
            out@.map_values(|v: usize| v as int) == matching_upto(
                name_views(names@),
                query@,
                i as int,
            ),
        decreases n - i,
    {
        let ghost before = out@;
        if str_contains(names[i].as_str(), query) {
            out.push(i);
        }
        proof {
            assert(name_views(names@)[i as int] == names@[i as int]@);
            if contains_sub(names@[i as int]@, query@) {
                assert(out@.map_values(|v: usize| v as int) =~= before.map_values(
                    |v: usize| v as int,
                ).push(i as int));
            }
        }
        i = i + 1;
    }
    out
}

} // verus!
