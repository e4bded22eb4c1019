//! Rewrites the loose spellings of a video-site address into the one
//! spelling that classification understands.

use vstd::prelude::*;
use crate::text::{from_chars, has_at, occurs_at, occurs_in, replace_all, to_chars};

verus! {

/// `url` after the six ordered substitutions: secure scheme, mobile host,
/// bare host, short-link host, and the two spellings of the mobile
/// compatibility flag.
pub open spec fn normalize(url: Seq<char>) -> Seq<char> {
    let url = replace_all(url, "http://"@, "https://"@);
    let url = replace_all(url, "https://m.youtube.com/"@, "https://www.youtube.com/"@);
    let url = replace_all(url, "https://youtube.com/"@, "https://www.youtube.com/"@);
    let url = replace_all(url, "https://youtu.be/"@, "https://www.youtube.com/watch?v="@);
    let url = replace_all(url, "?disable_polymer=1"@, ""@);
    replace_all(url, "&disable_polymer=1"@, ""@)
}

/// None of the spellings that normalization rewrites occurs in `url`.
pub open spec fn is_normalized(url: Seq<char>) -> bool {
    &&& !occurs_in(url, "http://"@)
    &&& !occurs_in(url, "https://m.youtube.com/"@)
    &&& !occurs_in(url, "https://youtube.com/"@)
    &&& !occurs_in(url, "https://youtu.be/"@)
    &&& !occurs_in(url, "?disable_polymer=1"@)
    &&& !occurs_in(url, "&disable_polymer=1"@)
}

/// Replacing a pattern that does not occur changes nothing.
pub proof fn lemma_replace_absent(s: Seq<char>, from: Seq<char>, to: Seq<char>)
    requires
        !occurs_in(s, from),
    ensures
        replace_all(s, from, to) == s,
    decreases s.len(),
{
    if from.len() == 0 || s.len() < from.len() {
    } else {
        assert(!occurs_at(s, from, 0));
        let rest = s.subrange(1, s.len() as int);
        assert forall|i: int| !occurs_at(rest, from, i) by {
            if occurs_at(rest, from, i) {
                assert(rest.subrange(i, i + from.len()) =~= s.subrange(i + 1, i + 1 + from.len()));
                assert(occurs_at(s, from, i + 1));
            }
        }
        lemma_replace_absent(rest, from, to);
        assert(seq![s[0]] + rest =~= s);
    }
}

/// Normalizing an address that holds no rewritable spelling is a no-op.
pub proof fn lemma_normalize_fixed_point(url: Seq<char>)
    requires
        is_normalized(url),
    ensures
        normalize(url) == url,
{
    lemma_replace_absent(url, "http://"@, "https://"@);
    lemma_replace_absent(url, "https://m.youtube.com/"@, "https://www.youtube.com/"@);
    lemma_replace_absent(url, "https://youtube.com/"@, "https://www.youtube.com/"@);
    lemma_replace_absent(url, "https://youtu.be/"@, "https://www.youtube.com/watch?v="@);
    lemma_replace_absent(url, "?disable_polymer=1"@, ""@);
    lemma_replace_absent(url, "&disable_polymer=1"@, ""@);
}

/// A weight for each character, chosen so that every substitution of the
/// normalizer makes a text heavier: the letters that the substitutions add
/// weigh 1, the underscore that only the stripped flag holds weighs -2.
pub open spec fn weight(c: char) -> int {
    if c == 'w' || c == 's' {
        1
    } else if c == '_' {
        -2
    } else {
        0
    }
}

/// The weight of the first `n` characters of `s`.
pub open spec fn weight_upto(s: Seq<char>, n: int) -> int
    decreases n,
{
    if n <= 0 {
        0
    } else {
        weight_upto(s, n - 1) + weight(s[n - 1])
    }
}

/// The weight of all of `s`.
pub open spec fn total_weight(s: Seq<char>) -> int {
    weight_upto(s, s.len() as int)
}

/// The weight of a beginning of `a` is not changed by what follows `a`.
pub proof fn lemma_weight_of_prefix(a: Seq<char>, b: Seq<char>, n: int)
    requires
        0 <= n <= a.len(),
    ensures
        weight_upto(a + b, n) == weight_upto(a, n),
    decreases n,
{
    if n > 0 {
        lemma_weight_of_prefix(a, b, n - 1);
    }
}

/// The weight of `a` followed by a beginning of `b`.
pub proof fn lemma_weight_of_suffix(a: Seq<char>, b: Seq<char>, k: int)
    requires
        0 <= k <= b.len(),
    ensures
        weight_upto(a + b, a.len() + k) == total_weight(a) + weight_upto(b, k),
    decreases k,
{
    if k == 0 {
        lemma_weight_of_prefix(a, b, a.len() as int);
    } else {
        lemma_weight_of_suffix(a, b, k - 1);
    }
}

/// Weights add up.
pub proof fn lemma_weight_adds(a: Seq<char>, b: Seq<char>)
    ensures
        total_weight(a + b) == total_weight(a) + total_weight(b),
{
    lemma_weight_of_suffix(a, b, b.len() as int);
}

/// Replacing a pattern that is not empty by something heavier never makes a
/// text lighter, and makes it heavier where the pattern occurs.
pub proof fn lemma_replace_gains_weight(s: Seq<char>, from: Seq<char>, to: Seq<char>)
    requires
        from.len() > 0,
        total_weight(from) < total_weight(to),
    ensures
        total_weight(s) <= total_weight(replace_all(s, from, to)),
        occurs_in(s, from) ==> total_weight(s) < total_weight(replace_all(s, from, to)),
    decreases s.len(),
{
    let n = from.len() as int;
    if s.len() < n {
        assert forall|i: int| !occurs_at(s, from, i) by {}
    } else if s.subrange(0, n) == from {
        let rest = s.subrange(n, s.len() as int);
        lemma_replace_gains_weight(rest, from, to);
        assert(s =~= from + rest);
        lemma_weight_adds(from, rest);
        lemma_weight_adds(to, replace_all(rest, from, to));
    } else {
        let tail = s.subrange(1, s.len() as int);
        lemma_replace_gains_weight(tail, from, to);
        assert(s =~= seq![s[0]] + tail);
        lemma_weight_adds(seq![s[0]], tail);
        lemma_weight_adds(seq![s[0]], replace_all(tail, from, to));
        if occurs_in(s, from) {
            let i = choose|i: int| occurs_at(s, from, i);
            assert(i != 0);
            assert(tail.subrange(i - 1, i - 1 + n) =~= s.subrange(i, i + n));
            assert(occurs_at(tail, from, i - 1));
        }
    }
}

/// The weights of the spellings that the normalizer rewrites and of what it
/// puts in their place.
pub proof fn lemma_weights_of_spellings()
    ensures
        total_weight("http://"@) == 0,
        total_weight("https://"@) == 1,
        total_weight("https://m.youtube.com/"@) == 1,
        total_weight("https://youtube.com/"@) == 1,
        total_weight("https://youtu.be/"@) == 1,
        total_weight("https://www.youtube.com/"@) == 4,
        total_weight("https://www.youtube.com/watch?v="@) == 5,
        total_weight("?disable_polymer=1"@) == -1,
        total_weight("&disable_polymer=1"@) == -1,
        total_weight(""@) == 0,
{
    reveal_strlit("http://");
    reveal_strlit("https://");
    reveal_strlit("https://m.youtube.com/");
    reveal_strlit("https://youtube.com/");
    reveal_strlit("https://youtu.be/");
    reveal_strlit("https://www.youtube.com/");
    reveal_strlit("https://www.youtube.com/watch?v=");
    reveal_strlit("?disable_polymer=1");
    reveal_strlit("&disable_polymer=1");
    reveal_strlit("");
    reveal_with_fuel(weight_upto, 34);
}

/// None of the spellings that the normalizer rewrites is empty.
pub proof fn lemma_spellings_are_not_empty()
    ensures
        "http://"@.len() > 0,
        "https://m.youtube.com/"@.len() > 0,
        "https://youtube.com/"@.len() > 0,
        "https://youtu.be/"@.len() > 0,
        "?disable_polymer=1"@.len() > 0,
        "&disable_polymer=1"@.len() > 0,
{
    reveal_strlit("http://");
    reveal_strlit("https://m.youtube.com/");
    reveal_strlit("https://youtube.com/");
    reveal_strlit("https://youtu.be/");
    reveal_strlit("?disable_polymer=1");
    reveal_strlit("&disable_polymer=1");
}

/// An address that normalization leaves as it is holds no rewritable
/// spelling, and the other way round.
pub proof fn lemma_fixed_points_are_normalized(url: Seq<char>)
    ensures
        normalize(url) == url <==> is_normalized(url),
{
    if is_normalized(url) {
        lemma_normalize_fixed_point(url);
    }
    if normalize(url) == url {
        lemma_weights_of_spellings();
        lemma_spellings_are_not_empty();
        let a = replace_all(url, "http://"@, "https://"@);
        let b = replace_all(a, "https://m.youtube.com/"@, "https://www.youtube.com/"@);
        let c = replace_all(b, "https://youtube.com/"@, "https://www.youtube.com/"@);
        let d = replace_all(c, "https://youtu.be/"@, "https://www.youtube.com/watch?v="@);
        let e = replace_all(d, "?disable_polymer=1"@, ""@);
        let f = replace_all(e, "&disable_polymer=1"@, ""@);
        lemma_replace_gains_weight(url, "http://"@, "https://"@);
        lemma_replace_gains_weight(a, "https://m.youtube.com/"@, "https://www.youtube.com/"@);
        lemma_replace_gains_weight(b, "https://youtube.com/"@, "https://www.youtube.com/"@);
        lemma_replace_gains_weight(c, "https://youtu.be/"@, "https://www.youtube.com/watch?v="@);
        lemma_replace_gains_weight(d, "?disable_polymer=1"@, ""@);
        lemma_replace_gains_weight(e, "&disable_polymer=1"@, ""@);
        assert(f == url);
        lemma_replace_absent(url, "http://"@, "https://"@);
        lemma_replace_absent(a, "https://m.youtube.com/"@, "https://www.youtube.com/"@);
        lemma_replace_absent(b, "https://youtube.com/"@, "https://www.youtube.com/"@);
        lemma_replace_absent(c, "https://youtu.be/"@, "https://www.youtube.com/watch?v="@);
        lemma_replace_absent(d, "?disable_polymer=1"@, ""@);
    }
}

/// Normalizing twice gives what normalizing once gives exactly for the
/// addresses whose normal form holds no rewritable spelling. (A substitution
/// can piece a rewritable spelling together out of its surroundings; such an
/// address changes again on a second pass.)
pub proof fn lemma_normalize_idempotent(url: Seq<char>)
    ensures
        normalize(normalize(url)) == normalize(url) <==> is_normalized(normalize(url)),
{
    lemma_fixed_points_are_normalized(normalize(url));
}

/// `from` differs in its `k`-th character from what stands in `s` at `i`.
pub open spec fn differs_at(s: Seq<char>, from: Seq<char>, i: int, k: int) -> bool {
    0 <= k < from.len() && i + k < s.len() && s[i + k] != from[k]
}

/// `from` cannot begin at `i` in `s`, whatever may follow `s`.
pub open spec fn begins_nowhere_at(s: Seq<char>, from: Seq<char>, i: int) -> bool {
    exists|k: int| differs_at(s, from, i, k)
}

/// `from` begins nowhere in `p`, whatever may follow `p`.
pub open spec fn shuts_out(p: Seq<char>, from: Seq<char>) -> bool {
    forall|i: int| 0 <= i < p.len() ==> #[trigger] begins_nowhere_at(p, from, i)
}

/// None of the spellings that normalization rewrites begins in `p`,
/// whatever may follow `p`.
pub open spec fn shuts_out_rewriting(p: Seq<char>) -> bool {
    &&& shuts_out(p, "http://"@)
    &&& shuts_out(p, "https://m.youtube.com/"@)
    &&& shuts_out(p, "https://youtube.com/"@)
    &&& shuts_out(p, "https://youtu.be/"@)
    &&& shuts_out(p, "?disable_polymer=1"@)
    &&& shuts_out(p, "&disable_polymer=1"@)
}

/// No line feed stands in `s`.
pub open spec fn is_one_line(s: Seq<char>) -> bool {
    forall|i: int| 0 <= i < s.len() ==> #[trigger] s[i] != '\n'
}

/// A beginning in which the pattern begins nowhere is left as it is, and
/// what follows it is replaced as if it stood alone.
pub proof fn lemma_replace_after(p: Seq<char>, s: Seq<char>, from: Seq<char>, to: Seq<char>)
    requires
        shuts_out(p, from),
    ensures
        replace_all(p + s, from, to) == p + replace_all(s, from, to),
    decreases p.len(),
{
    let full = p + s;
    let n = from.len() as int;
    if p.len() == 0 {
        assert(full =~= s);
        assert(p + replace_all(s, from, to) =~= replace_all(s, from, to));
    } else {
        assert(begins_nowhere_at(p, from, 0));
        let k = choose|k: int| differs_at(p, from, 0, k);
        if full.len() < n {
        } else {
            assert(full.subrange(0, n)[k] == p[k]);
            let rest = p.subrange(1, p.len() as int);
            assert(full.subrange(1, full.len() as int) =~= rest + s);
            assert forall|i: int| 0 <= i < rest.len() implies #[trigger] begins_nowhere_at(
                rest,
                from,
                i,
            ) by {
                let at = i + 1;
                assert(begins_nowhere_at(p, from, at));
                let j = choose|j: int| differs_at(p, from, at, j);
                assert(differs_at(rest, from, i, j));
            }
            lemma_replace_after(rest, s, from, to);
            assert(seq![full[0]] + (rest + replace_all(s, from, to)) =~= p + replace_all(
                s,
                from,
                to,
            ));
        }
    }
}

/// A beginning in which no rewritable spelling begins is left as it is by
/// normalization, and what follows it is normalized as if it stood alone.
pub proof fn lemma_normalize_after(p: Seq<char>, s: Seq<char>)
    requires
        shuts_out_rewriting(p),
    ensures
        normalize(p + s) == p + normalize(s),
{
    let a = replace_all(s, "http://"@, "https://"@);
    let b = replace_all(a, "https://m.youtube.com/"@, "https://www.youtube.com/"@);
    let c = replace_all(b, "https://youtube.com/"@, "https://www.youtube.com/"@);
    let d = replace_all(c, "https://youtu.be/"@, "https://www.youtube.com/watch?v="@);
    let e = replace_all(d, "?disable_polymer=1"@, ""@);
    lemma_replace_after(p, s, "http://"@, "https://"@);
    lemma_replace_after(p, a, "https://m.youtube.com/"@, "https://www.youtube.com/"@);
    lemma_replace_after(p, b, "https://youtube.com/"@, "https://www.youtube.com/"@);
    lemma_replace_after(p, c, "https://youtu.be/"@, "https://www.youtube.com/watch?v="@);
    lemma_replace_after(p, d, "?disable_polymer=1"@, ""@);
    lemma_replace_after(p, e, "&disable_polymer=1"@, ""@);
}

/// Replacing within one line by something on one line leaves one line.
pub proof fn lemma_replace_keeps_one_line(s: Seq<char>, from: Seq<char>, to: Seq<char>)
    requires
        is_one_line(s),
        is_one_line(to),
    ensures
        is_one_line(replace_all(s, from, to)),
    decreases s.len(),
{
    let n = from.len() as int;
    if n == 0 || s.len() < n {
    } else if s.subrange(0, n) == from {
        let rest = s.subrange(n, s.len() as int);
        assert forall|i: int| 0 <= i < rest.len() implies #[trigger] rest[i] != '\n' by {
            assert(rest[i] == s[n + i]);
        }
        lemma_replace_keeps_one_line(rest, from, to);
    } else {
        let tail = s.subrange(1, s.len() as int);
        assert forall|i: int| 0 <= i < tail.len() implies #[trigger] tail[i] != '\n' by {
            assert(tail[i] == s[1 + i]);
        }
        lemma_replace_keeps_one_line(tail, from, to);
    }
}

/// Normalization leaves what stands on one line on one line.
pub proof fn lemma_normalize_keeps_one_line(s: Seq<char>)
    requires
        is_one_line(s),
    ensures
        is_one_line(normalize(s)),
{
    reveal_strlit("https://");
    reveal_strlit("https://www.youtube.com/");
    reveal_strlit("https://www.youtube.com/watch?v=");
    reveal_strlit("");
    let a = replace_all(s, "http://"@, "https://"@);
    let b = replace_all(a, "https://m.youtube.com/"@, "https://www.youtube.com/"@);
    let c = replace_all(b, "https://youtube.com/"@, "https://www.youtube.com/"@);
    let d = replace_all(c, "https://youtu.be/"@, "https://www.youtube.com/watch?v="@);
    let e = replace_all(d, "?disable_polymer=1"@, ""@);
    lemma_replace_keeps_one_line(s, "http://"@, "https://"@);
    lemma_replace_keeps_one_line(a, "https://m.youtube.com/"@, "https://www.youtube.com/"@);
    lemma_replace_keeps_one_line(b, "https://youtube.com/"@, "https://www.youtube.com/"@);
    lemma_replace_keeps_one_line(c, "https://youtu.be/"@, "https://www.youtube.com/watch?v="@);
    lemma_replace_keeps_one_line(d, "?disable_polymer=1"@, ""@);
    lemma_replace_keeps_one_line(e, "&disable_polymer=1"@, ""@);
}

/// Every non-overlapping occurrence of `from` in `s`, left to right,
/// replaced by `to`; an empty `from` occurs nowhere.
pub fn replace(s: &Vec<char>, from: &str, to: &str) -> (out: Vec<char>)
    ensures
        out@ == replace_all(s@, from@, to@),
{
    let n: usize = from.unicode_len();
    let with: Vec<char> = to_chars(to);
    let mut out: Vec<char> = Vec::new();
    if n == 0 {
        out.extend_from_slice(s.as_slice());
        assert(out@ =~= s@);
        return out;
    }
    let mut i: usize = 0;
    proof {
        assert(s@.subrange(0, s@.len() as int) =~= s@);
        assert(out@ + replace_all(s@, from@, to@) =~= replace_all(s@, from@, to@));
    }
    while i < s.len()
        invariant
            i <= s.len(),
            n == from@.len(),
            n > 0,
            with@ == to@,
            out@ + replace_all(s@.subrange(i as int, s@.len() as int), from@, to@) == replace_all(
                s@,
                from@,
                to@,
            ),
        decreases s.len() - i,
    {
        let ghost rest = s@.subrange(i as int, s@.len() as int);
        let ghost before = out@;
        if has_at(s, i, from) {
            out.extend_from_slice(with.as_slice());
            proof {
                assert(rest.subrange(0, n as int) =~= s@.subrange(i as int, i + n));
                assert(rest.subrange(n as int, rest.len() as int) =~= s@.subrange(
                    i + n,
                    s@.len() as int,
                ));
                assert(out@ + replace_all(s@.subrange(i + n, s@.len() as int), from@, to@)
                    =~= before + replace_all(rest, from@, to@));
            }
            i += n;
        } else {
            out.push(s[i]);
            proof {
                assert(rest.len() >= n ==> rest.subrange(0, n as int) =~= s@.subrange(
                    i as int,
                    i + n,
                ));
                let tail = rest.subrange(1, rest.len() as int);
                assert(tail =~= s@.subrange(i + 1, s@.len() as int));
                if rest.len() < n {
                    assert(replace_all(tail, from@, to@) == tail);
                    assert(seq![rest[0]] + tail =~= rest);
                }
                assert(out@ + replace_all(tail, from@, to@) =~= before + replace_all(
                    rest,
                    from@,
                    to@,
                ));
            }
            i += 1;
        }
    }
    proof {
        assert(s@.subrange(i as int, s@.len() as int) =~= Seq::<char>::empty());
        assert(out@ + Seq::<char>::empty() =~= out@);
    }
    out
}

/// Rewrites `url` into the canonical scheme and host and strips the mobile
/// compatibility flag.
pub fn fix_youtube_url(url: &str) -> (fixed: String)
    ensures
        fixed@ == normalize(url@),
{
    proof {
        reveal_strlit("http://");
        reveal_strlit("https://m.youtube.com/");
        reveal_strlit("https://youtube.com/");
        reveal_strlit("https://youtu.be/");
        reveal_strlit("?disable_polymer=1");
        reveal_strlit("&disable_polymer=1");
    }
    let chars = to_chars(url);
    let chars = replace(&chars, "http://", "https://");
    let chars = replace(&chars, "https://m.youtube.com/", "https://www.youtube.com/");
    let chars = replace(&chars, "https://youtube.com/", "https://www.youtube.com/");
    let chars = replace(&chars, "https://youtu.be/", "https://www.youtube.com/watch?v=");
    let chars = replace(&chars, "?disable_polymer=1", "");
    let chars = replace(&chars, "&disable_polymer=1", "");
    let fixed = from_chars(&chars, 0, chars.len());
    proof {
        assert(chars@.subrange(0, chars@.len() as int) =~= chars@);
    }
    fixed
}

} // verus!
