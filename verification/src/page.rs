//! Reading a user name or a channel identifier out of a fetched page.

use vstd::prelude::*;
use crate::canonical::{
    extract_username, first_capture, first_channel_id, opt_chars, page_channel_id,
    page_username, regex_first_capture,
};
use crate::error::{labelled, MyError};
use crate::text::{from_chars, line_seq, split_lines, texts, to_chars};
use itertools::Itertools;

verus! {

/// The user name that a fetched page gives, or the failure of the fetch.
pub fn get_youtube_user(page: Result<String, MyError>) -> (r: Result<Option<String>, MyError>)
    ensures
        match page {
            Ok(contents) => r is Ok && opt_chars(r->Ok_0) == page_username(contents@),
            Err(e) => r is Err && r->Err_0@ == e@,
        },
{
    match page {
        Ok(contents) => Ok(extract_username(contents.as_str())),
        Err(e) => Err(e),
    }
}

/// The channel identifier that the page fetched from `url` gives; the failure
/// of the fetch, or a failure that names `url` where the page has none.
pub fn get_youtube_channel(url: &str, page: Result<String, MyError>) -> (r: Result<String, MyError>)
    ensures
        match page {
            Ok(contents) => match page_channel_id(contents@) {
                Some(id) => r is Ok && r->Ok_0@ == id,
                None => r is Err && r->Err_0@ == "Could not find channel identifier in "@ + url@,
            },
            Err(e) => r is Err && r->Err_0@ == e@,
        },
{
    match page {
        Ok(contents) => match first_channel_id(contents.as_str()) {
            Some(channel) => Ok(channel),
            None => Err(MyError::new(labelled("Could not find channel identifier in ", url))),
        },
        Err(e) => Err(e),
    }
}

/// White space, as the Unicode property of that name has it.
pub open spec fn is_space(c: char) -> bool {
    ||| '\u{9}' <= c <= '\u{d}'
    ||| c == ' '
    ||| c == '\u{85}'
    ||| c == '\u{a0}'
    ||| c == '\u{1680}'
    ||| '\u{2000}' <= c <= '\u{200a}'
    ||| c == '\u{2028}'
    ||| c == '\u{2029}'
    ||| c == '\u{202f}'
    ||| c == '\u{205f}'
    ||| c == '\u{3000}'
}

/// `s` without the white space it starts with.
pub open spec fn trim_start(s: Seq<char>) -> Seq<char>
    decreases s.len(),
{
    if s.len() > 0 && is_space(s[0]) {
        trim_start(s.drop_first())
    } else {
        s
    }
}

/// `s` without the white space it ends with.
pub open spec fn trim_end(s: Seq<char>) -> Seq<char>
    decreases s.len(),
{
    if s.len() > 0 && is_space(s.last()) {
        trim_end(s.drop_last())
    } else {
        s
    }
}

/// `s` without the white space around it.
pub open spec fn trimmed(s: Seq<char>) -> Seq<char> {
    trim_end(trim_start(s))
}

/// Each line without the white space around it.
pub open spec fn trimmed_all(lines: Seq<Seq<char>>) -> Seq<Seq<char>> {
    lines.map_values(|line: Seq<char>| trimmed(line))
}

/// The items with `sep` between them.
pub open spec fn joined_by(items: Seq<Seq<char>>, sep: Seq<char>) -> Seq<char>
    decreases items.len(),
{
    if items.len() == 0 {
        Seq::empty()
    } else if items.len() == 1 {
        items[0]
    } else {
        joined_by(items.drop_last(), sep) + sep + items.last()
    }
}

/// A title on one line: the white space around it and around each of its
/// lines removed, and the lines joined by single spaces. A title of which
/// nothing is left is none.
pub open spec fn one_line(title: Seq<char>) -> Option<Seq<char>> {
    let line = joined_by(trimmed_all(line_seq(trimmed(title))), " "@);
    if line.len() == 0 {
        None
    } else {
        Some(line)
    }
}

/// What `htmlescape::decode_html` makes of a text: the text with its
/// character references replaced by the characters they stand for, or `None`
/// where one of them is malformed or unknown.
pub uninterp spec fn html_decoded(s: Seq<char>) -> Option<Seq<char>>;

/// Decodes the character references of a text with `htmlescape::decode_html`;
/// an error becomes `None`. The contract gives the outcome its name.
#[verifier::external_body]
pub(crate) fn decode_references(s: &str) -> (r: Option<String>)
    ensures
        opt_chars(r) == html_decoded(s@),
{
    htmlescape::decode_html(s).ok()
}

/// Joins strings with `Itertools::join`: the result holds the items in
/// order, with `sep` between each two of them.
#[verifier::external_body]
pub(crate) fn join_with(items: &Vec<String>, sep: &str) -> (r: String)
    ensures
        r@ == joined_by(texts(items@), sep@),
{
    items.iter().join(sep)
}

/// Whether a character is white space.
pub fn space(c: char) -> (b: bool)
    ensures
        b == is_space(c),
{
    ('\u{9}' <= c && c <= '\u{d}') || c == ' ' || c == '\u{85}' || c == '\u{a0}' || c
        == '\u{1680}' || ('\u{2000}' <= c && c <= '\u{200a}') || c == '\u{2028}' || c
        == '\u{2029}' || c == '\u{202f}' || c == '\u{205f}' || c == '\u{3000}'
}

/// Where `s[from..to]` starts and ends once the white space around it is
/// removed.
pub fn trim_bounds(s: &Vec<char>, from: usize, to: usize) -> (r: (usize, usize))
    requires
        from <= to <= s@.len(),
    ensures
        from <= r.0 <= r.1 <= to,
        s@.subrange(r.0 as int, r.1 as int) == trimmed(s@.subrange(from as int, to as int)),
{
    let mut lo: usize = from;
    while lo < to && space(s[lo])
        invariant
            from <= lo <= to <= s@.len(),
            trim_start(s@.subrange(from as int, to as int)) == trim_start(
                s@.subrange(lo as int, to as int),
            ),
        decreases to - lo,
    {
        proof {
            assert(s@.subrange(lo as int, to as int).drop_first() =~= s@.subrange(
                lo + 1,
                to as int,
            ));
        }
        lo += 1;
    }
    let mut hi: usize = to;
    while hi > lo && space(s[hi - 1])
        invariant
            lo <= hi <= to <= s@.len(),
            trim_end(s@.subrange(lo as int, to as int)) == trim_end(
                s@.subrange(lo as int, hi as int),
            ),
        decreases hi,
    {
        proof {
            assert(s@.subrange(lo as int, hi as int).drop_last() =~= s@.subrange(
                lo as int,
                hi - 1,
            ));
        }
        hi -= 1;
    }
    (lo, hi)
}

/// The lines given, each without the white space around it.
pub fn trimmed_lines(lines: &Vec<String>) -> (out: Vec<String>)
    ensures
        texts(out@) == trimmed_all(texts(lines@)),
{
    let mut out: Vec<String> = Vec::new();
    let mut i: usize = 0;
    while i < lines.len()
        invariant
            i <= lines.len(),
            texts(out@) == trimmed_all(texts(lines@).subrange(0, i as int)),
        decreases lines.len() - i,
    {
        let ghost before = out@;
        let chars = to_chars(lines[i].as_str());
        let (lo, hi) = trim_bounds(&chars, 0, chars.len());
        out.push(from_chars(&chars, lo, hi));
        proof {
            assert(chars@.subrange(0, chars@.len() as int) =~= chars@);
            assert(texts(out@) =~= texts(before).push(trimmed(lines@[i as int]@)));
            assert(texts(out@) =~= trimmed_all(texts(lines@).subrange(0, i + 1)));
        }
        i += 1;
    }
    proof {
        assert(texts(lines@).subrange(0, i as int) =~= texts(lines@));
    }
    out
}

/// Puts a title on one line.
pub fn single_line(title: &str) -> (r: Option<String>)
    ensures
        opt_chars(r) == one_line(title@),
{
    let chars = to_chars(title);
    proof {
        assert(chars@.subrange(0, chars@.len() as int) =~= chars@);
    }
    let (lo, hi) = trim_bounds(&chars, 0, chars.len());
    let lines = trimmed_lines(&split_lines(&chars, lo, hi));
    let line = join_with(&lines, " ");
    if line.as_str().is_empty() {
        None
    } else {
        Some(line)
    }
}

/// The title that a page's markup gives, with its character references
/// decoded, on one line.
pub open spec fn page_title(page: Seq<char>) -> Option<Seq<char>> {
    match regex_first_capture("<(?i:title).*?>((.|\n)*?)</(?i:title)>"@, page) {
        None => None,
        Some(encoded) => match html_decoded(encoded) {
            None => None,
            Some(decoded) => one_line(decoded),
        },
    }
}

/// The title of a page, if its markup gives one that is not empty.
pub fn parse_title(page_contents: &str) -> (r: Option<String>)
    ensures
        opt_chars(r) == page_title(page_contents@),
{
    let encoded = match first_capture("<(?i:title).*?>((.|\n)*?)</(?i:title)>", page_contents) {
        None => { return None; },
        Some(encoded) => encoded,
    };
    match decode_references(encoded.as_str()) {
        None => None,
        Some(decoded) => single_line(decoded.as_str()),
    }
}

} // verus!
