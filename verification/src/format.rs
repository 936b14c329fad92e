//! Shortening and formatting of the texts shown in the panels: names cut
//! to a width, times and dates taken out of timestamps.
//!
//! Lengths are in bytes of UTF-8, as `str::len` counts them, and a text is
//! cut at a byte offset; a cut must fall between two characters.

use vstd::prelude::*;

use crate::text::{append, before_char, byte_len, byte_prefix, byte_suffix, cuts_at, first_piece, owned, prefix_bytes, second_piece, second_piece_of, suffix_bytes};

verus! {

/// Whether `truncate(s, max)` can cut `s`: a text longer than `max` keeps
/// its first `max - 3` bytes, which must end between two characters.
pub open spec fn truncatable(s: Seq<char>, max: usize) -> bool {
    byte_len(s) > max ==> max >= 3 && cuts_at(s, max - 3)
}

/// A text cut to `max` bytes, the cut marked by three dots.
pub open spec fn truncated(s: Seq<char>, max: usize) -> Seq<char> {
    if byte_len(s) > max {
        byte_prefix(s, max - 3) + "..."@
    } else {
        s
    }
}

/// Cuts a text longer than `max_len` bytes to its first `max_len - 3`
/// bytes followed by `...`.
pub fn truncate(s: &str, max_len: usize) -> (r: String)
    requires
        truncatable(s@, max_len),
    ensures
        r@ == truncated(s@, max_len),
{
    if s.len() > max_len {
        let mut r = owned(prefix_bytes(s, max_len - 3));
        append(&mut r, "...");
        r
    } else {
        owned(s)
    }
}

/// Whether `clip(s, max)` can cut `s`: a text longer than `max` keeps its
/// first `max - 1` bytes, which must end between two characters.
pub open spec fn clippable(s: Seq<char>, max: usize) -> bool {
    byte_len(s) > max ==> max >= 1 && cuts_at(s, max - 1)
}

/// A text cut to `max` bytes, the cut marked by an ellipsis character.
pub open spec fn clipped(s: Seq<char>, max: usize) -> Seq<char> {
    if byte_len(s) > max {
        byte_prefix(s, max - 1) + "…"@
    } else {
        s
    }
}

/// Cuts a text longer than `max` bytes to its first `max - 1` bytes
/// followed by `…`.
pub fn clip(s: &str, max: usize) -> (r: String)
    requires
        clippable(s@, max),
    ensures
        r@ == clipped(s@, max),
{
    if s.len() > max {
        let mut r = owned(prefix_bytes(s, max - 1));
        append(&mut r, "…");
        r
    } else {
        owned(s)
    }
}

/// The time part of a timestamp: what follows the first `T`, up to a second
/// `T`, and up to the first `.` of that.
pub open spec fn time_text(started_at: Option<Seq<char>>) -> Option<Seq<char>> {
    match started_at {
        Some(s) => match second_piece(s, 'T') {
            Some(t) => Some(before_char(t, '.')),
            None => None,
        },
        None => None,
    }
}

/// Whether the time part, where there is one, has five bytes to show.
pub open spec fn time_fits(started_at: Option<Seq<char>>) -> bool {
    time_text(started_at) matches Some(t) ==> cuts_at(t, 5)
}

/// Hours and minutes of a timestamp (`HH:MM`), or `-` without a time part.
pub open spec fn formatted_time(started_at: Option<Seq<char>>) -> Seq<char> {
    match time_text(started_at) {
        Some(t) => byte_prefix(t, 5),
        None => "-"@,
    }
}

/// Hours and minutes of an ISO timestamp, `-` when there is none.
pub fn format_time(started_at: &Option<String>) -> (r: String)
    requires
        time_fits(crate::api::opt_str(*started_at)),
    ensures
        r@ == formatted_time(crate::api::opt_str(*started_at)),
{
    match started_at {
        Some(s) => match second_piece_of(s.as_str(), 'T') {
            Some(t) => {
                let before_dot = first_piece(t.as_str(), '.');
                owned(prefix_bytes(before_dot.as_str(), 5))
            },
            None => owned("-"),
        },
        None => owned("-"),
    }
}

/// The date part of an ISO timestamp: what comes before the first `T`.
pub fn format_date(s: &str) -> (r: String)
    ensures
        r@ == before_char(s@, 'T'),
{
    first_piece(s, 'T')
}

/// How many bytes of a commit hash are shown: seven, or all of a shorter one.
pub open spec fn sha_shown(s: Seq<char>) -> usize {
    if byte_len(s) < 7 {
        byte_len(s)
    } else {
        7
    }
}

/// The abbreviated commit hash: its first seven bytes.
pub fn short_sha(s: &str) -> (r: &str)
    requires
        cuts_at(s@, sha_shown(s@) as int),
    ensures
        r@ == byte_prefix(s@, sha_shown(s@) as int),
{
    let n = if s.len() < 7 {
        s.len()
    } else {
        7
    };
    prefix_bytes(s, n)
}

/// Whether a repository name longer than thirty bytes can lose all but its
/// last twenty-seven bytes.
pub open spec fn repo_shortenable(s: Seq<char>) -> bool {
    byte_len(s) > 30 ==> cuts_at(s, byte_len(s) - 27)
}

/// A repository name as the header shows it: `...` and the last
/// twenty-seven bytes when it is longer than thirty.
pub open spec fn shortened_repo(s: Seq<char>) -> Seq<char> {
    if byte_len(s) > 30 {
        "..."@ + byte_suffix(s, byte_len(s) - 27)
    } else {
        s
    }
}

/// Shortens a repository name for the header.
pub fn shorten_repo(s: &str) -> (r: String)
    requires
        repo_shortenable(s@),
    ensures
        r@ == shortened_repo(s@),
{
    let n = s.len();
    if n > 30 {
        let mut r = owned("...");
        append(&mut r, suffix_bytes(s, n - 27));
        r
    } else {
        owned(s)
    }
}

} // verus!
