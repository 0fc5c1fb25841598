//! Text primitives: what `str::trim`, `str::split` and string equality compute,
//! stated over the character sequences that vstd uses as the view of a string.
use vstd::prelude::*;

verus! {

/// The Unicode `White_Space` property, which is what `char::is_whitespace` tests.
pub open spec fn is_white_space(c: char) -> bool {
    let u = c as u32;
    ||| 0x9 <= u && u <= 0xD
    ||| u == 0x20
    ||| u == 0x85
    ||| u == 0xA0
    ||| u == 0x1680
    ||| 0x2000 <= u && u <= 0x200A
    ||| u == 0x2028
    ||| u == 0x2029
    ||| u == 0x202F
    ||| u == 0x205F
    ||| u == 0x3000
}

/// `s` without its leading white space.
pub open spec fn trim_start(s: Seq<char>) -> Seq<char>
    decreases s.len(),
{
    if s.len() > 0 && is_white_space(s[0]) {
        trim_start(s.drop_first())
    } else {
        s
    }
}

/// `s` without its trailing white space.
pub open spec fn trim_end(s: Seq<char>) -> Seq<char>
    decreases s.len(),
{
    if s.len() > 0 && is_white_space(s.last()) {
        trim_end(s.drop_last())
    } else {
        s
    }
}

/// `s` without leading and trailing white space: the result of `str::trim`.
pub open spec fn trimmed(s: Seq<char>) -> Seq<char> {
    trim_end(trim_start(s))
}

/// The pieces of `s` between occurrences of `sep`, in order: the result of
/// `str::split` with a character pattern. An empty text gives one empty piece.
pub open spec fn split_on(s: Seq<char>, sep: char) -> Seq<Seq<char>>
    decreases s.len(),
{
    if s.len() == 0 {
        seq![Seq::<char>::empty()]
    } else {
        let rest = split_on(s.drop_first(), sep);
        if s[0] == sep {
            seq![Seq::<char>::empty()] + rest
        } else {
            rest.update(0, seq![s[0]] + rest[0])
        }
    }
}

/// `str::trim`: the slice of `s` without leading and trailing characters
/// that have the Unicode `White_Space` property.
#[verifier::external_body]
pub(crate) fn trim_text(s: &str) -> (r: &str)
    ensures
        r@ == trimmed(s@),
{
    s.trim()
}

/// `str::split` with a character separator, the pieces collected in order.
#[verifier::external_body]
pub(crate) fn split_text<'a>(s: &'a str, sep: char) -> (r: Vec<&'a str>)
    ensures
        r.deep_view() == split_on(s@, sep),
{
    s.split(sep).collect()
}

/// Whether two texts hold the same characters.
pub fn same_text(a: &str, b: &str) -> (r: bool)
    ensures
        r == (a@ == b@),
{
    let left = a.to_owned();
    let right = b.to_owned();
    left == right
}

/// After `trim_start`, the text is empty or starts with a character that is not white space.
proof fn lemma_trim_start_front(s: Seq<char>)
    ensures
        trim_start(s).len() > 0 ==> !is_white_space(trim_start(s)[0]),
    decreases s.len(),
{
    if s.len() > 0 && is_white_space(s[0]) {
        lemma_trim_start_front(s.drop_first());
    }
}

/// `trim_end` keeps a prefix of the text, and keeps the text as it is when it
/// ends with a character that is not white space.
proof fn lemma_trim_end_prefix(s: Seq<char>)
    ensures
        trim_end(s).len() <= s.len(),
        trim_end(s) =~= s.subrange(0, trim_end(s).len() as int),
        trim_end(s).len() > 0 ==> !is_white_space(trim_end(s).last()),
        s.len() > 0 && !is_white_space(s[0]) ==> trim_end(s).len() > 0,
    decreases s.len(),
{
    if s.len() > 0 && is_white_space(s.last()) {
        lemma_trim_end_prefix(s.drop_last());
        assert(s.drop_last().subrange(0, trim_end(s).len() as int) =~= s.subrange(
            0,
            trim_end(s).len() as int,
        ));
    }
}

/// The trimmed text is empty or begins and ends with characters that are not white space.
pub proof fn lemma_trimmed_ends(s: Seq<char>)
    ensures
        trimmed(s).len() > 0 ==> !is_white_space(trimmed(s)[0]),
        trimmed(s).len() > 0 ==> !is_white_space(trimmed(s).last()),
{
    lemma_trim_start_front(trim_start(s));
    lemma_trim_start_front(s);
    lemma_trim_end_prefix(trim_start(s));
    if trimmed(s).len() > 0 {
        assert(trimmed(s)[0] == trim_start(s)[0]);
    }
}

/// Trimming a trimmed text changes nothing.
pub proof fn lemma_trimmed_idempotent(s: Seq<char>)
    ensures
        trimmed(trimmed(s)) == trimmed(s),
{
    let t = trimmed(s);
    lemma_trimmed_ends(s);
    if t.len() == 0 {
        assert(trim_start(t) =~= t);
    } else {
        assert(trim_start(t) == t);
        assert(trim_end(t) == t);
    }
}

/// The pieces joined again, with `sep` between neighbouring pieces.
pub open spec fn joined(pieces: Seq<Seq<char>>, sep: char) -> Seq<char>
    decreases pieces.len(),
{
    if pieces.len() == 0 {
        Seq::empty()
    } else if pieces.len() == 1 {
        pieces[0]
    } else {
        pieces[0] + seq![sep] + joined(pieces.drop_first(), sep)
    }
}

/// Splitting loses nothing and invents nothing: there is at least one piece,
/// no piece holds the separator, and joining the pieces with the separator
/// gives back the text.
pub proof fn lemma_split_rejoins(s: Seq<char>, sep: char)
    ensures
        split_on(s, sep).len() >= 1,
        forall|i: int| 0 <= i < split_on(s, sep).len() ==> !(#[trigger] split_on(s, sep)[i]).contains(sep),
        joined(split_on(s, sep), sep) == s,
    decreases s.len(),
{
    if s.len() == 0 {
        assert(!Seq::<char>::empty().contains(sep));
    } else {
        let t = s.drop_first();
        let rest = split_on(t, sep);
        lemma_split_rejoins(t, sep);
        let p = split_on(s, sep);
        if s[0] == sep {
            assert(p.drop_first() =~= rest);
            assert(!Seq::<char>::empty().contains(sep));
            assert forall|i: int| 0 <= i < p.len() implies !(#[trigger] p[i]).contains(sep) by {
                if i > 0 {
                    assert(p[i] == rest[i - 1]);
                }
            }
            assert(joined(p, sep) =~= seq![sep] + joined(rest, sep));
            assert(s =~= seq![sep] + t);
        } else {
            let first = seq![s[0]] + rest[0];
            assert forall|i: int| 0 <= i < p.len() implies !(#[trigger] p[i]).contains(sep) by {
                if i == 0 {
                    assert(!rest[0].contains(sep));
                    if first.contains(sep) {
                        let k = choose|k: int| 0 <= k < first.len() && first[k] == sep;
                        assert(k > 0);
                        assert(rest[0][k - 1] == sep);
                    }
                } else {
                    assert(p[i] == rest[i]);
                }
            }
            if rest.len() == 1 {
                assert(joined(p, sep) == first);
                assert(joined(rest, sep) == rest[0]);
            } else {
                assert(p.drop_first() =~= rest.drop_first());
                assert(joined(p, sep) == first + seq![sep] + joined(rest.drop_first(), sep));
                assert(joined(rest, sep) == rest[0] + seq![sep] + joined(rest.drop_first(), sep));
            }
            assert(s =~= seq![s[0]] + t);
            assert(joined(p, sep) =~= seq![s[0]] + joined(rest, sep));
        }
    }
}

/// `trim_start` drops a run of leading white space and keeps the rest.
proof fn lemma_trim_start_shape(s: Seq<char>)
    ensures
        exists|i: int|
            0 <= i <= s.len() && trim_start(s) == s.subrange(i, s.len() as int) && (forall|k: int|
                0 <= k < i ==> is_white_space(#[trigger] s[k])) && (i < s.len() ==> !is_white_space(
                s[i],
            )),
    decreases s.len(),
{
    if s.len() > 0 && is_white_space(s[0]) {
        let t = s.drop_first();
        lemma_trim_start_shape(t);
        let i = choose|i: int|
            0 <= i <= t.len() && trim_start(t) == t.subrange(i, t.len() as int) && (forall|k: int|
                0 <= k < i ==> is_white_space(#[trigger] t[k])) && (i < t.len() ==> !is_white_space(
                t[i],
            ));
        assert(t.subrange(i, t.len() as int) =~= s.subrange(i + 1, s.len() as int));
        assert forall|k: int| 0 <= k < i + 1 implies is_white_space(#[trigger] s[k]) by {
            if k > 0 {
                assert(s[k] == t[k - 1]);
            }
        }
        assert(i + 1 < s.len() ==> s[i + 1] == t[i]);
    } else {
        assert(s.subrange(0, s.len() as int) =~= s);
    }
}

/// `trim_end` drops a run of trailing white space and keeps the rest.
proof fn lemma_trim_end_shape(s: Seq<char>)
    ensures
        exists|j: int|
            0 <= j <= s.len() && trim_end(s) == s.subrange(0, j) && (forall|k: int|
                j <= k < s.len() ==> is_white_space(#[trigger] s[k])) && (j > 0 ==> !is_white_space(
                s[j - 1],
            )),
    decreases s.len(),
{
    if s.len() > 0 && is_white_space(s.last()) {
        let t = s.drop_last();
        lemma_trim_end_shape(t);
        let j = choose|j: int|
            0 <= j <= t.len() && trim_end(t) == t.subrange(0, j) && (forall|k: int|
                j <= k < t.len() ==> is_white_space(#[trigger] t[k])) && (j > 0 ==> !is_white_space(
                t[j - 1],
            ));
        assert(t.subrange(0, j) =~= s.subrange(0, j));
        assert forall|k: int| j <= k < s.len() implies is_white_space(#[trigger] s[k]) by {
            if k < t.len() {
                assert(s[k] == t[k]);
            }
        }
        assert(j > 0 ==> s[j - 1] == t[j - 1]);
    } else {
        assert(s.subrange(0, s.len() as int) =~= s);
    }
}

/// Trimming keeps a contiguous part of the text and drops only white space
/// around it: the kept part neither starts nor ends with white space, so a
/// text made only of white space trims to nothing.
pub proof fn lemma_trimmed_shape(s: Seq<char>)
    ensures
        exists|i: int, j: int|
            0 <= i <= j <= s.len() && trimmed(s) == s.subrange(i, j) && (forall|k: int|
                0 <= k < i ==> is_white_space(#[trigger] s[k])) && (forall|k: int|
                j <= k < s.len() ==> is_white_space(#[trigger] s[k])) && (i < j ==> !is_white_space(
                s[i],
            ) && !is_white_space(s[j - 1])),
{
    lemma_trim_start_shape(s);
    let i = choose|i: int|
        0 <= i <= s.len() && trim_start(s) == s.subrange(i, s.len() as int) && (forall|k: int|
            0 <= k < i ==> is_white_space(#[trigger] s[k])) && (i < s.len() ==> !is_white_space(
            s[i],
        ));
    let u = trim_start(s);
    lemma_trim_end_shape(u);
    let j = choose|j: int|
        0 <= j <= u.len() && trim_end(u) == u.subrange(0, j) && (forall|k: int|
            j <= k < u.len() ==> is_white_space(#[trigger] u[k])) && (j > 0 ==> !is_white_space(
            u[j - 1],
        ));
    assert(u.subrange(0, j) =~= s.subrange(i, i + j));
    assert forall|k: int| i + j <= k < s.len() implies is_white_space(#[trigger] s[k]) by {
        assert(s[k] == u[k - i]);
    }
    if i < i + j {
        assert(s[i] == u[0]);
        assert(s[i + j - 1] == u[j - 1]);
        assert(!is_white_space(u[0])) by {
            if j > 0 && is_white_space(u[0]) {
                assert(u[0] == s[i]);
            }
        }
    }
    assert(trimmed(s) == s.subrange(i, i + j));
}

} // verus!
