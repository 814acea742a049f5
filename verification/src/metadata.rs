//! Track metadata: the tags shown in the file list.
//!
//! Reading a file's tag block is outside work; turning an Ogg comment list
//! into the player's metadata record — key folding, field selection, track
//! number parsing — is verified here.

use vstd::prelude::*;

use crate::paths::lower_chars;
use crate::paths::matches_lower;

verus! {

/// The tags of one track, as far as its file reports them.
#[derive(Clone, PartialEq, Eq, Debug)]
pub struct Metadata {
    /// Track title.
    pub title: Option<String>,
    /// Artist name.
    pub artist: Option<String>,
    /// Album name.
    pub album: Option<String>,
    /// Position of the track on its album.
    pub track_number: Option<u16>,
    /// Total duration in whole seconds.
    pub total_duration: Option<u64>,
}

/// The metadata record as specifications see it: every text field by its
/// characters.
pub struct MetadataView {
    /// Track title.
    pub title: Option<Seq<char>>,
    /// Artist name.
    pub artist: Option<Seq<char>>,
    /// Album name.
    pub album: Option<Seq<char>>,
    /// Position of the track on its album.
    pub track_number: Option<u16>,
    /// Total duration in whole seconds.
    pub total_duration: Option<u64>,
}

impl View for Metadata {
    type V = MetadataView;

    open spec fn view(&self) -> MetadataView {
        MetadataView {
            title: match self.title {
                Some(t) => Some(t@),
                None => None,
            },
            artist: match self.artist {
                Some(t) => Some(t@),
                None => None,
            },
            album: match self.album {
                Some(t) => Some(t@),
                None => None,
            },
            track_number: self.track_number,
            total_duration: self.total_duration,
        }
    }
}

impl Default for Metadata {
    /// A record with no tags at all.
    fn default() -> (m: Self)
        ensures
            m@ == empty_metadata(None),
    {
        Metadata { title: None, artist: None, album: None, track_number: None, total_duration: None }
    }
}

/// The record a comment list starts from: no tags, only the duration the
/// container itself reported.
pub open spec fn empty_metadata(total_duration: Option<u64>) -> MetadataView {
    MetadataView {
        title: None,
        artist: None,
        album: None,
        track_number: None,
        total_duration,
    }
}

/// The value of a run of decimal digits.
pub open spec fn digits_value(s: Seq<char>) -> int
    decreases s.len(),
{
    if s.len() == 0 {
        0
    } else {
        digits_value(s.drop_last()) * 10 + (s.last() as int - '0' as int)
    }
}

/// Whether every character is a decimal digit.
pub open spec fn all_digits(s: Seq<char>) -> bool {
    forall|i: int| 0 <= i < s.len() ==> '0' <= #[trigger] s[i] <= '9'
}

/// What parsing text as an unsigned 16-bit number yields: an optional
/// leading plus sign, then at least one decimal digit, and the value must
/// fit.
pub open spec fn parse_u16_spec(s: Seq<char>) -> Option<u16> {
    let body = if s.len() > 0 && s[0] == '+' {
        s.skip(1)
    } else {
        s
    };
    if body.len() > 0 && all_digits(body) && digits_value(body) <= 65535 {
        Some(digits_value(body) as u16)
    } else {
        None
    }
}

/// A run of digits is worth no less than any of its prefixes.
proof fn lemma_digits_value_grows(s: Seq<char>, i: int)
    requires
        0 <= i <= s.len(),
        all_digits(s),
    ensures
        digits_value(s.take(i)) <= digits_value(s),
        digits_value(s) >= 0,
    decreases s.len() - i,
{
    if i == s.len() {
        assert(s.take(i) =~= s);
        lemma_digits_value_nonneg(s);
    } else {
        lemma_digits_value_grows(s, i + 1);
        assert(s.take(i + 1).drop_last() =~= s.take(i));
        assert(s.take(i + 1).last() == s[i]);
        lemma_digits_value_nonneg(s.take(i));
    }
}

/// A run of digits is never worth less than zero.
proof fn lemma_digits_value_nonneg(s: Seq<char>)
    requires
        all_digits(s),
    ensures
        digits_value(s) >= 0,
    decreases s.len(),
{
    if s.len() > 0 {
        assert(all_digits(s.drop_last()));
        lemma_digits_value_nonneg(s.drop_last());
    }
}

/// Parses text as an unsigned 16-bit number the way the standard numeric
/// parser reads it: an optional leading plus sign, then decimal digits, and
/// `None` on anything else or on a value that does not fit.
pub fn parse_u16(s: &str) -> (r: Option<u16>)
    ensures
        r == parse_u16_spec(s@),
{
    let n = s.unicode_len();
    let start: usize = if n > 0 && s.get_char(0) == '+' {
        1
    } else {
        0
    };
    let ghost body = if s@.len() > 0 && s@[0] == '+' {
        s@.skip(1)
    } else {
        s@
    };
    proof {
        assert(body =~= s@.subrange(start as int, n as int));
    }
    if n == start {
        return None;
    }
    let mut acc: u32 = 0;
    let mut i: usize = start;
    while i < n
        invariant
            start <= i <= n,
            n == s@.len(),
            start <= 1,
            body == s@.subrange(start as int, n as int),
            body == (if s@.len() > 0 && s@[0] == '+' {
                s@.skip(1)
            } else {
                s@
            }),
            all_digits(body.take(i - start)),
            acc == digits_value(body.take(i - start)),
            acc <= 65535,
        decreases n - i,
    {
        let c = s.get_char(i);
        if c < '0' || c > '9' {
            proof {
                assert(body[i - start] == c);
                assert(!all_digits(body));
            }
            return None;
        }
        let digit: u32 = (c as u32) - 48;
        acc = acc * 10 + digit;
        proof {
            assert(body.take(i - start + 1).drop_last() =~= body.take(i - start));
            assert(body.take(i - start + 1).last() == body[i - start]);
        }
        if acc > 65535 {
            proof {
                if all_digits(body) {
                    lemma_digits_value_grows(body, i - start + 1);
                }
            }
            return None;
        }
        i = i + 1;
    }
    proof {
        assert(body.take(n - start) =~= body);
    }
    Some(acc as u16)
}

/// One comment applied to the record: the key is folded to lower case, the
/// known keys set their field (a later comment overrides an earlier one),
/// anything else is ignored.
pub open spec fn apply_comment(m: MetadataView, key: Seq<char>, value: Seq<char>) -> MetadataView {
    if lower_chars(key) == "title"@ {
        MetadataView { title: Some(value), ..m }
    } else if lower_chars(key) == "artist"@ {
        MetadataView { artist: Some(value), ..m }
    } else if lower_chars(key) == "album"@ {
        MetadataView { album: Some(value), ..m }
    } else if lower_chars(key) == "tracknumber"@ {
        MetadataView { track_number: parse_u16_spec(value), ..m }
    } else {
        m
    }
}

/// The comment list by its characters.
pub open spec fn comment_views(cs: Seq<(String, String)>) -> Seq<(Seq<char>, Seq<char>)> {
    cs.map(|i: int, c: (String, String)| (c.0@, c.1@))
}

/// The record a whole comment list builds, applied in order on top of the
/// container-reported duration.
pub open spec fn from_comments_spec(
    cs: Seq<(Seq<char>, Seq<char>)>,
    total_duration: Option<u64>,
) -> MetadataView
    decreases cs.len(),
{
    if cs.len() == 0 {
        empty_metadata(total_duration)
    } else {
        apply_comment(
            from_comments_spec(cs.drop_last(), total_duration),
            cs.last().0,
            cs.last().1,
        )
    }
}

/// Builds the metadata record of an Ogg stream from its comment list and the
/// duration the container itself reported.
pub fn metadata_from_comments(comments: &Vec<(String, String)>, total_duration: Option<u64>) -> (m:
    Metadata)
    ensures
        m@ == from_comments_spec(comment_views(comments@), total_duration),
{
    let mut m = Metadata {
        title: None,
        artist: None,
        album: None,
        track_number: None,
        total_duration,
    };
    let n = comments.len();
    let mut i: usize = 0;
    while i < n
        invariant
            i <= n,
            n == comments@.len(),
            m@ == from_comments_spec(comment_views(comments@.take(i as int)), total_duration),
        decreases n - i,
    {
        let (key, value) = &comments[i];
        if matches_lower(key.as_str(), "title") {
            m.title = Some(value.clone());
        } else if matches_lower(key.as_str(), "artist") {
            m.artist = Some(value.clone());
        } else if matches_lower(key.as_str(), "album") {
            m.album = Some(value.clone());
        } else if matches_lower(key.as_str(), "tracknumber") {
            m.track_number = parse_u16(value.as_str());
        }
        proof {
            assert(comment_views(comments@.take(i + 1)).drop_last() =~= comment_views(
                comments@.take(i as int),
            ));
            assert(comment_views(comments@.take(i + 1)).last().0 == comments@[i as int].0@);
            assert(comment_views(comments@.take(i + 1)).last().1 == comments@[i as int].1@);
        }
        i = i + 1;
    }
    proof {
        assert(comments@.take(n as int) =~= comments@);
    }
    m
}

} // verus!
