//! The shapes an address can take: character classes, identifier forms, and
//! the places in an address where an identifier may stand.

use vstd::prelude::*;
use crate::text::{has_at, occurs_at};

verus! {

/// ASCII letter or digit.
pub open spec fn is_alnum(c: char) -> bool {
    ||| 'a' <= c <= 'z'
    ||| 'A' <= c <= 'Z'
    ||| '0' <= c <= '9'
}

/// Letter, digit, hyphen or underscore: what a folder or task name is made of.
pub open spec fn is_word_char(c: char) -> bool {
    is_alnum(c) || c == '-' || c == '_'
}

/// Digit or upper-case hexadecimal letter.
pub open spec fn is_upper_hex(c: char) -> bool {
    ||| '0' <= c <= '9'
    ||| 'A' <= c <= 'F'
}

/// Whether `c` is an ASCII letter or digit.
pub fn alnum(c: char) -> (b: bool)
    ensures
        b == is_alnum(c),
{
    ('a' <= c && c <= 'z') || ('A' <= c && c <= 'Z') || ('0' <= c && c <= '9')
}

/// Whether `c` may stand in a folder or task name.
pub fn word_char(c: char) -> (b: bool)
    ensures
        b == is_word_char(c),
{
    alnum(c) || c == '-' || c == '_'
}

/// Whether `c` is a digit or an upper-case hexadecimal letter.
pub fn upper_hex(c: char) -> (b: bool)
    ensures
        b == is_upper_hex(c),
{
    ('0' <= c && c <= '9') || ('A' <= c && c <= 'F')
}

/// A name fit to be a folder or a task: one or more letters, digits, hyphens
/// or underscores, and nothing else.
pub open spec fn is_identifier(s: Seq<char>) -> bool {
    &&& s.len() > 0
    &&& forall|i: int| 0 <= i < s.len() ==> is_word_char(#[trigger] s[i])
}

/// The identifier forms of fixed length.
#[derive(Clone, Copy, Debug)]
pub enum IdShape {
    /// Eleven word characters.
    Video,
    /// `PL` and sixteen upper-case hexadecimal digits.
    LegacyPlaylist,
    /// `PL` and thirty-two word characters.
    Playlist,
    /// `UC` and twenty-two word characters.
    Channel,
}

impl IdShape {
    /// The literal that such an identifier starts with.
    pub open spec fn mark(self) -> Seq<char> {
        match self {
            IdShape::Video => Seq::<char>::empty(),
            IdShape::LegacyPlaylist => seq!['P', 'L'],
            IdShape::Playlist => seq!['P', 'L'],
            IdShape::Channel => seq!['U', 'C'],
        }
    }

    /// How many characters follow the mark.
    pub open spec fn body_len(self) -> int {
        match self {
            IdShape::Video => 11,
            IdShape::LegacyPlaylist => 16,
            IdShape::Playlist => 32,
            IdShape::Channel => 22,
        }
    }

    /// Whether `c` may stand after the mark.
    pub open spec fn accepts(self, c: char) -> bool {
        match self {
            IdShape::LegacyPlaylist => is_upper_hex(c),
            _ => is_word_char(c),
        }
    }

    /// The length of the whole identifier.
    pub open spec fn len(self) -> int {
        self.mark().len() + self.body_len()
    }

    /// The literal that such an identifier starts with.
    pub fn mark_text(self) -> (m: &'static str)
        ensures
            m@ == self.mark(),
    {
        proof {
            reveal_strlit("");
            reveal_strlit("PL");
            reveal_strlit("UC");
        }
        let m = match self {
            IdShape::Video => "",
            IdShape::LegacyPlaylist => "PL",
            IdShape::Playlist => "PL",
            IdShape::Channel => "UC",
        };
        assert(m@ =~= self.mark());
        m
    }

    /// The length of the mark.
    pub fn mark_len(self) -> (n: usize)
        ensures
            n == self.mark().len(),
    {
        match self {
            IdShape::Video => 0,
            _ => 2,
        }
    }

    /// The length of the whole identifier.
    pub fn total_len(self) -> (n: usize)
        ensures
            n == self.len(),
    {
        match self {
            IdShape::Video => 11,
            IdShape::LegacyPlaylist => 18,
            IdShape::Playlist => 34,
            IdShape::Channel => 24,
        }
    }

    /// Whether `c` may stand after the mark.
    pub fn admits(self, c: char) -> (b: bool)
        ensures
            b == self.accepts(c),
    {
        match self {
            IdShape::LegacyPlaylist => upper_hex(c),
            _ => word_char(c),
        }
    }
}

/// An identifier of form `shape` stands in `s` at index `at`.
pub open spec fn id_at(s: Seq<char>, shape: IdShape, at: int) -> bool {
    &&& occurs_at(s, shape.mark(), at)
    &&& at + shape.len() <= s.len()
    &&& forall|k: int|
        at + shape.mark().len() <= k < at + shape.len() ==> shape.accepts(#[trigger] s[k])
}

/// No line feed among `s[from..to]`.
pub open spec fn no_newline(s: Seq<char>, from: int, to: int) -> bool {
    forall|i: int| 0 <= i < s.len() && from <= i < to ==> #[trigger] s[i] != '\n'
}

/// What may follow an identifier in a query: nothing, or `#` or `&` and then
/// anything on the same line.
pub open spec fn query_tail(s: Seq<char>, at: int) -> bool {
    ||| at == s.len()
    ||| (0 <= at < s.len() && (s[at] == '#' || s[at] == '&') && no_newline(
        s,
        at + 1,
        s.len() as int,
    ))
}

/// What may follow an identifier in a path: nothing, or `/`, `#` or `?` and
/// then anything on the same line.
pub open spec fn path_tail(s: Seq<char>, at: int) -> bool {
    ||| at == s.len()
    ||| (0 <= at < s.len() && (s[at] == '/' || s[at] == '#' || s[at] == '?') && no_newline(
        s,
        at + 1,
        s.len() as int,
    ))
}

/// `s` starts with `prefix`; later on the same line, at index `p`, a `?` or
/// `&` introduces `key` and an identifier of form `shape`, after which only a
/// query tail follows.
pub open spec fn query_match_at(
    s: Seq<char>,
    prefix: Seq<char>,
    key: Seq<char>,
    shape: IdShape,
    p: int,
) -> bool {
    &&& occurs_at(s, prefix, 0)
    &&& prefix.len() <= p < s.len()
    &&& no_newline(s, prefix.len() as int, p)
    &&& (s[p] == '?' || s[p] == '&')
    &&& occurs_at(s, key, p + 1)
    &&& id_at(s, shape, p + 1 + key.len())
    &&& query_tail(s, p + 1 + key.len() + shape.len())
}

/// `p` is the rightmost index at which the query shape matches.
pub open spec fn is_last_query_match(
    s: Seq<char>,
    prefix: Seq<char>,
    key: Seq<char>,
    shape: IdShape,
    p: int,
) -> bool {
    &&& query_match_at(s, prefix, key, shape, p)
    &&& forall|q: int| p < q ==> !query_match_at(s, prefix, key, shape, q)
}

/// The identifier that the rightmost match of the query shape holds, if the
/// shape matches at all.
pub open spec fn query_capture(
    s: Seq<char>,
    prefix: Seq<char>,
    key: Seq<char>,
    shape: IdShape,
) -> Option<Seq<char>> {
    if exists|p: int| query_match_at(s, prefix, key, shape, p) {
        let p = choose|p: int| is_last_query_match(s, prefix, key, shape, p);
        Some(s.subrange(p + 1 + key.len(), p + 1 + key.len() + shape.len()))
    } else {
        None
    }
}

/// The identifier of form `shape` that directly follows `prefix`, if only a
/// path tail comes after it.
pub open spec fn path_capture(s: Seq<char>, prefix: Seq<char>, shape: IdShape) -> Option<
    Seq<char>,
> {
    if occurs_at(s, prefix, 0) && id_at(s, shape, prefix.len() as int) && path_tail(
        s,
        prefix.len() + shape.len(),
    ) {
        Some(s.subrange(prefix.len() as int, prefix.len() + shape.len()))
    } else {
        None
    }
}

/// After `prefix` stand `n` letters or digits, between one and twenty of
/// them, and then only a path tail.
pub open spec fn handle_match(s: Seq<char>, prefix: Seq<char>, n: int) -> bool {
    &&& occurs_at(s, prefix, 0)
    &&& 1 <= n <= 20
    &&& prefix.len() + n <= s.len()
    &&& forall|k: int| prefix.len() <= k < prefix.len() + n ==> is_alnum(#[trigger] s[k])
    &&& path_tail(s, prefix.len() + n)
}

/// The handle that follows `prefix`, if there is one.
pub open spec fn handle_capture(s: Seq<char>, prefix: Seq<char>) -> Option<Seq<char>> {
    if exists|n: int| handle_match(s, prefix, n) {
        let n = choose|n: int| handle_match(s, prefix, n);
        Some(s.subrange(prefix.len() as int, prefix.len() + n))
    } else {
        None
    }
}

/// `r` is where the first line feed at or after `start` stands, or the end.
pub open spec fn is_free_until(s: Seq<char>, start: int, r: int) -> bool {
    &&& 0 <= start <= r <= s.len()
    &&& no_newline(s, start, r)
    &&& (r < s.len() ==> s[r] == '\n')
}

/// `r` is just after the last line feed, or 0 where there is none.
pub open spec fn is_free_from(s: Seq<char>, r: int) -> bool {
    &&& 0 <= r <= s.len()
    &&& no_newline(s, r, s.len() as int)
    &&& (r > 0 ==> s[r - 1] == '\n')
}

/// Where the first line feed at or after `start` stands, or the end.
pub fn newline_free_until(s: &Vec<char>, start: usize) -> (r: usize)
    requires
        start <= s@.len(),
    ensures
        is_free_until(s@, start as int, r as int),
{
    let mut r: usize = start;
    while r < s.len() && s[r] != '\n'
        invariant
            start <= r <= s@.len(),
            no_newline(s@, start as int, r as int),
        decreases s.len() - r,
    {
        r += 1;
    }
    r
}

/// The index just after the last line feed, or 0 where there is none.
pub fn newline_free_from(s: &Vec<char>) -> (r: usize)
    ensures
        is_free_from(s@, r as int),
{
    let mut r: usize = s.len();
    while r > 0 && s[r - 1] != '\n'
        invariant
            r <= s@.len(),
            no_newline(s@, r as int, s@.len() as int),
        decreases r,
    {
        r -= 1;
    }
    r
}

/// Whether an identifier of form `shape` stands in `s` at `at`.
pub fn holds_id(s: &Vec<char>, shape: IdShape, at: usize) -> (b: bool)
    ensures
        b == id_at(s@, shape, at as int),
{
    let n: usize = shape.total_len();
    if at > s.len() || n > s.len() - at {
        return false;
    }
    if !has_at(s, at, shape.mark_text()) {
        return false;
    }
    let mut k: usize = at + shape.mark_len();
    while k < at + n
        invariant
            at + n <= s.len(),
            n == shape.len(),
            at + shape.mark().len() <= k <= at + n,
            forall|j: int| at + shape.mark().len() <= j < k ==> shape.accepts(#[trigger] s@[j]),
        decreases at + n - k,
    {
        if !shape.admits(s[k]) {
            return false;
        }
        k += 1;
    }
    true
}

/// Whether only a query tail stands at `at`.
fn query_tail_here(s: &Vec<char>, at: usize, free_from: usize) -> (b: bool)
    requires
        is_free_from(s@, free_from as int),
        at <= s@.len(),
    ensures
        b == query_tail(s@, at as int),
{
    if at == s.len() {
        return true;
    }
    let c = s[at];
    if (c == '#' || c == '&') && free_from <= at + 1 {
        true
    } else {
        assert(free_from > at + 1 ==> s@[free_from - 1] == '\n');
        false
    }
}

/// Whether only a path tail stands at `at`.
fn path_tail_here(s: &Vec<char>, at: usize, free_from: usize) -> (b: bool)
    requires
        is_free_from(s@, free_from as int),
        at <= s@.len(),
    ensures
        b == path_tail(s@, at as int),
{
    if at == s.len() {
        return true;
    }
    let c = s[at];
    if (c == '/' || c == '#' || c == '?') && free_from <= at + 1 {
        true
    } else {
        assert(free_from > at + 1 ==> s@[free_from - 1] == '\n');
        false
    }
}

/// Whether the query shape matches with its separator at `p`.
fn query_match_here(
    s: &Vec<char>,
    prefix: &str,
    key: &str,
    shape: IdShape,
    p: usize,
    free_until: usize,
    free_from: usize,
) -> (b: bool)
    requires
        occurs_at(s@, prefix@, 0),
        prefix@.len() <= p < s@.len(),
        is_free_until(s@, prefix@.len() as int, free_until as int),
        is_free_from(s@, free_from as int),
    ensures
        b == query_match_at(s@, prefix@, key@, shape, p as int),
{
    if p > free_until {
        assert(s@[free_until as int] == '\n');
        return false;
    }
    let c = s[p];
    if !(c == '?' || c == '&') {
        return false;
    }
    if !has_at(s, p + 1, key) {
        return false;
    }
    let len: usize = s.len();
    let klen: usize = key.unicode_len();
    assert(p + 1 + klen <= len);
    let id_start: usize = p + 1 + klen;
    if !holds_id(s, shape, id_start) {
        return false;
    }
    assert(id_start + shape.len() <= len);
    query_tail_here(s, id_start + shape.total_len(), free_from)
}

/// The rightmost index at which the query shape matches, if it matches.
pub fn find_query_match(s: &Vec<char>, prefix: &str, key: &str, shape: IdShape) -> (r: Option<
    usize,
>)
    ensures
        match r {
            Some(p) => is_last_query_match(s@, prefix@, key@, shape, p as int),
            None => forall|p: int| !query_match_at(s@, prefix@, key@, shape, p),
        },
{
    if !has_at(s, 0, prefix) {
        return None;
    }
    let start: usize = prefix.unicode_len();
    let free_until = newline_free_until(s, start);
    let free_from = newline_free_from(s);
    let mut p: usize = s.len();
    while p > start
        invariant
            occurs_at(s@, prefix@, 0),
            start == prefix@.len(),
            start <= p <= s@.len(),
            is_free_until(s@, start as int, free_until as int),
            is_free_from(s@, free_from as int),
            forall|q: int| p <= q ==> !query_match_at(s@, prefix@, key@, shape, q),
        decreases p,
    {
        p -= 1;
        if query_match_here(s, prefix, key, shape, p, free_until, free_from) {
            return Some(p);
        }
    }
    None
}

/// The identifier that the query shape captures in `s`.
pub fn query_id(s: &Vec<char>, prefix: &str, key: &str, shape: IdShape) -> (r: Option<String>)
    ensures
        match r {
            Some(id) => query_capture(s@, prefix@, key@, shape) == Some(id@),
            None => query_capture(s@, prefix@, key@, shape) is None,
        },
{
    match find_query_match(s, prefix, key, shape) {
        Some(p) => {
            let len: usize = s.len();
            assert(p + 1 + key@.len() + shape.len() <= len);
            let from: usize = p + 1 + key.unicode_len();
            let id = crate::text::from_chars(s, from, from + shape.total_len());
            proof {
                let chosen = choose|q: int| is_last_query_match(s@, prefix@, key@, shape, q);
                assert(is_last_query_match(s@, prefix@, key@, shape, p as int));
                assert(chosen == p);
            }
            Some(id)
        },
        None => None,
    }
}

/// The identifier that the path shape captures in `s`.
pub fn path_id(s: &Vec<char>, prefix: &str, shape: IdShape) -> (r: Option<String>)
    ensures
        match r {
            Some(id) => path_capture(s@, prefix@, shape) == Some(id@),
            None => path_capture(s@, prefix@, shape) is None,
        },
{
    if !has_at(s, 0, prefix) {
        return None;
    }
    let start: usize = prefix.unicode_len();
    if !holds_id(s, shape, start) {
        return None;
    }
    let len: usize = s.len();
    assert(start + shape.len() <= len);
    let end: usize = start + shape.total_len();
    let free_from = newline_free_from(s);
    if !path_tail_here(s, end, free_from) {
        return None;
    }
    Some(crate::text::from_chars(s, start, end))
}

/// The handle that follows `prefix` in `s`.
pub fn handle_id(s: &Vec<char>, prefix: &str) -> (r: Option<String>)
    ensures
        match r {
            Some(id) => handle_capture(s@, prefix@) == Some(id@),
            None => handle_capture(s@, prefix@) is None,
        },
{
    if !has_at(s, 0, prefix) {
        return None;
    }
    let start: usize = prefix.unicode_len();
    let mut n: usize = 0;
    while n <= 20 && n < s.len() - start && alnum(s[start + n])
        invariant
            start == prefix@.len(),
            start <= s.len(),
            n <= 21,
            start + n <= s.len(),
            forall|k: int| start <= k < start + n ==> is_alnum(#[trigger] s@[k]),
        decreases 21 - n,
    {
        n += 1;
    }
    if n == 0 || n > 20 {
        assert forall|m: int| !handle_match(s@, prefix@, m) by {
            if handle_match(s@, prefix@, m) {
                if n == 0 {
                    assert(is_alnum(s@[start as int]));
                } else {
                    assert(is_alnum(s@[start + m]));
                }
            }
        }
        return None;
    }
    let free_from = newline_free_from(s);
    let fits = path_tail_here(s, start + n, free_from);
    proof {
        assert forall|m: int| handle_match(s@, prefix@, m) implies m == n by {
            if m < n {
                assert(is_alnum(s@[start + m]));
            } else if m > n {
                assert(is_alnum(s@[start + n]));
            }
        }
    }
    if !fits {
        return None;
    }
    proof {
        assert(handle_match(s@, prefix@, n as int));
    }
    Some(crate::text::from_chars(s, start, start + n))
}

/// A tail that may follow an identifier in a path: empty, or `/`, `#` or `?`
/// and then anything on the same line.
pub open spec fn is_path_tail(tail: Seq<char>) -> bool {
    tail.len() == 0 || ((tail[0] == '/' || tail[0] == '#' || tail[0] == '?') && no_newline(
        tail,
        1,
        tail.len() as int,
    ))
}

/// What follows the identifier in a path does not affect the match: with any
/// tail that may stand there, the identifier that follows the prefix is
/// captured.
pub proof fn lemma_path_tail_is_ignored(
    prefix: Seq<char>,
    id: Seq<char>,
    shape: IdShape,
    tail: Seq<char>,
)
    requires
        id_at(id, shape, 0),
        id.len() == shape.len(),
        is_path_tail(tail),
    ensures
        path_capture(prefix + id + tail, prefix, shape) == Some(id),
{
    let s = prefix + id + tail;
    let at = prefix.len() as int;
    assert(s.subrange(0, at) =~= prefix);
    assert(s.subrange(at, at + shape.mark().len()) =~= id.subrange(0, shape.mark().len() as int));
    assert forall|k: int| at + shape.mark().len() <= k < at + shape.len() implies shape.accepts(
        #[trigger] s[k],
    ) by {
        assert(s[k] == id[k - at]);
    }
    assert(id_at(s, shape, at));
    assert(path_tail(s, at + shape.len())) by {
        if tail.len() > 0 {
            assert(s[at + shape.len()] == tail[0]);
            assert forall|i: int|
                0 <= i < s.len() && at + shape.len() + 1 <= i < s.len() implies #[trigger] s[i]
                != '\n' by {
                assert(s[i] == tail[i - at - shape.len()]);
            }
        }
    }
    assert(s.subrange(at, at + shape.len()) =~= id);
}

} // verus!
