//! Path text helpers: file extensions and the supported-format predicate.
//!
//! Paths are handled as plain text with `/` as the separator.  The library
//! layer uses these to decide which files are audio tracks.

use vstd::prelude::*;

verus! {

/// `i` marks the extension dot of `s`: a `.` in the last path component,
/// with nothing but the extension after it, and not the leading character of
/// that component (a name such as `.config` has no extension).
pub open spec fn ext_dot_at(s: Seq<char>, i: int) -> bool {
    &&& 0 < i < s.len()
    &&& s[i] == '.'
    &&& s[i - 1] != '/'
    &&& forall|k: int| i < k < s.len() ==> s[k] != '/' && s[k] != '.'
}

/// Whether the last path component of `s` has an extension.
pub open spec fn has_extension(s: Seq<char>) -> bool {
    exists|i: int| ext_dot_at(s, i)
}

/// At most one position can mark the extension dot.
pub proof fn lemma_ext_dot_unique(s: Seq<char>, i: int, j: int)
    requires
        ext_dot_at(s, i),
        ext_dot_at(s, j),
    ensures
        i == j,
{
    if i < j {
        assert(s[j] == '.');
    }
    if j < i {
        assert(s[i] == '.');
    }
}

/// The extension of the path: the text after the last `.` of the last path
/// component, or `None` when that component has no dot besides a leading
/// one.  `a/b.tar.gz` gives `gz`, `a/b.` gives the empty text, `a/.config`
/// and `a/b` give `None`.
pub fn extension(path: &str) -> (r: Option<&str>)
    ensures
        match r {
            Some(e) => exists|i: int|
                ext_dot_at(path@, i) && e@ == path@.subrange(i + 1, path@.len() as int),
            None => !has_extension(path@),
        },
{
    let n = path.unicode_len();
    let mut j = n;
    while j > 0
        invariant
            j <= n,
            n == path@.len(),
            forall|k: int| j <= k < n ==> path@[k] != '/' && path@[k] != '.',
        decreases j,
    {
        let c = path.get_char(j - 1);
        if c == '/' {
            proof {
                assert forall|i: int| !ext_dot_at(path@, i) by {
                    if ext_dot_at(path@, i) {
                        if i < j - 1 {
                            assert(path@[j - 1] != '/');
                        } else if i == j - 1 {
                            assert(path@[i] == '.');
                        } else {
                            assert(path@[i] != '.');
                        }
                    }
                }
            }
            return None;
        }
        if c == '.' {
            if j - 1 > 0 {
                let before = path.get_char(j - 2);
                if before != '/' {
                    let e = path.substring_char(j, n);
                    proof {
                        assert(ext_dot_at(path@, j - 1));
                    }
                    return Some(e);
                }
            }
            // A leading dot of the last component marks no extension, and
            // every earlier dot has this dot after it.
            proof {
                assert forall|i: int| !ext_dot_at(path@, i) by {
                    if ext_dot_at(path@, i) {
                        if i < j - 1 {
                            assert(path@[j - 1] != '.');
                        } else if i > j - 1 {
                            assert(path@[i] != '.');
                        }
                    }
                }
            }
            return None;
        }
        j = j - 1;
    }
    proof {
        assert forall|i: int| !ext_dot_at(path@, i) by {
            if ext_dot_at(path@, i) {
                assert(path@[i] != '.');
            }
        }
    }
    None
}

/// A character folded to lower case, over the basic letters only.
pub open spec fn lower_char(c: char) -> char {
    if 'A' <= c && c <= 'Z' {
        ((c as u8) + 32) as char
    } else {
        c
    }
}

/// Text folded to lower case, character by character.
pub open spec fn lower_chars(s: Seq<char>) -> Seq<char> {
    Seq::new(s.len(), |i: int| lower_char(s[i]))
}

/// Whether `lit` is exactly the lower-case folding of `e`.
pub fn matches_lower(e: &str, lit: &str) -> (r: bool)
    ensures
        r == (lower_chars(e@) == lit@),
{
    let n = e.unicode_len();
    if n != lit.unicode_len() {
        proof {
            assert(lower_chars(e@).len() != lit@.len());
        }
        return false;
    }
    let mut i: usize = 0;
    while i < n
        invariant
            i <= n,
            n == e@.len(),
            n == lit@.len(),
            forall|k: int| 0 <= k < i ==> lower_chars(e@)[k] == lit@[k],
        decreases n - i,
    {
        let c = e.get_char(i);
        let folded: char = if c >= 'A' && c <= 'Z' {
            ((c as u8) + 32) as char
        } else {
            c
        };
        if folded != lit.get_char(i) {
            proof {
                assert(lower_chars(e@)[i as int] != lit@[i as int]);
            }
            return false;
        }
        i = i + 1;
    }
    proof {
        assert(lower_chars(e@) =~= lit@);
    }
    true
}

/// The extensions the player treats as audio tracks, compared after folding
/// to lower case.
pub open spec fn supported_ext(e: Seq<char>) -> bool {
    ||| lower_chars(e) == "mp3"@
    ||| lower_chars(e) == "ogg"@
    ||| lower_chars(e) == "opus"@
    ||| lower_chars(e) == "flac"@
    ||| lower_chars(e) == "wav"@
    ||| lower_chars(e) == "webm"@
    ||| lower_chars(e) == "mp4"@
}

/// Whether the path names a file of a supported audio format: its last
/// component has an extension and that extension, folded to lower case, is
/// one of the supported set.
pub open spec fn spec_supported(s: Seq<char>) -> bool {
    exists|i: int| ext_dot_at(s, i) && supported_ext(s.subrange(i + 1, s.len() as int))
}

/// Whether the path names a file the player can try to play.
pub fn supported(path: &str) -> (r: bool)
    ensures
        r == spec_supported(path@),
{
    match extension(path) {
        None => false,
        Some(e) => {
            let ghost i = choose|i: int|
                ext_dot_at(path@, i) && e@ == path@.subrange(i + 1, path@.len() as int);
            let r = matches_lower(e, "mp3") || matches_lower(e, "ogg") || matches_lower(e, "opus")
                || matches_lower(e, "flac") || matches_lower(e, "wav") || matches_lower(e, "webm")
                || matches_lower(e, "mp4");
            proof {
                if !r && spec_supported(path@) {
                    let j = choose|j: int|
                        ext_dot_at(path@, j) && supported_ext(
                            path@.subrange(j + 1, path@.len() as int),
                        );
                    lemma_ext_dot_unique(path@, i, j);
                }
            }
            r
        },
    }
}

} // verus!
