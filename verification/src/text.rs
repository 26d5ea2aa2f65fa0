//! Small verified helpers on strings, stated over their character sequences.

use vstd::prelude::*;

verus! {

/// Whether `s` begins with `prefix`.
pub fn starts_with(s: &str, prefix: &str) -> (r: bool)
    ensures
        r == prefix@.is_prefix_of(s@),
{
    let n = prefix.unicode_len();
    let m = s.unicode_len();
    if n > m {
        return false;
    }
    let mut i: usize = 0;
    while i < n
        invariant
            n == prefix@.len(),
            m == s@.len(),
            n <= m,
            i <= n,
            forall|j: int| 0 <= j < i ==> prefix@[j] == s@[j],
        decreases n - i,
    {
        if prefix.get_char(i) != s.get_char(i) {
            assert(s@.subrange(0, n as int)[i as int] != prefix@[i as int]);
            return false;
        }
        i += 1;
    }
    assert(prefix@ =~= s@.subrange(0, n as int));
    true
}

/// The rest of `s` behind `prefix`, or `None` where `s` does not begin with it.
pub fn strip_prefix(s: &str, prefix: &str) -> (r: Option<String>)
    ensures
        r is Some <==> prefix@.is_prefix_of(s@),
        r matches Some(rest) ==> rest@ == s@.skip(prefix@.len() as int),
{
    if starts_with(s, prefix) {
        let n = prefix.unicode_len();
        let m = s.unicode_len();
        let rest = s.substring_char(n, m);
        assert(s@.subrange(n as int, m as int) =~= s@.skip(n as int));
        Some(String::from_str(rest))
    } else {
        None
    }
}

/// The text of `a` followed by the text of `b`.
pub fn joined(a: &str, b: &str) -> (r: String)
    ensures
        r@ == a@ + b@,
{
    let mut r = String::from_str(a);
    r.append(b);
    r
}

/// How often `c` stands in `text`.
pub open spec fn count_of(text: Seq<char>, c: char) -> nat
    decreases text.len(),
{
    if text.len() == 0 {
        0
    } else {
        count_of(text.drop_last(), c) + if text.last() == c {
            1nat
        } else {
            0nat
        }
    }
}

/// A character stands in a text at least as often as in what the text
/// begins with.
pub proof fn lemma_count_grows(text: Seq<char>, c: char, n: int)
    requires
        0 <= n <= text.len(),
    ensures
        count_of(text.take(n), c) <= count_of(text, c),
    decreases text.len() - n,
{
    if n < text.len() {
        assert(text.take(n + 1).drop_last() =~= text.take(n));
        lemma_count_grows(text, c, n + 1);
    } else {
        assert(text.take(n) =~= text);
    }
}

/// Whether `c` stands in `s` more than `limit` times.
pub fn stands_more_than(s: &str, c: char, limit: usize) -> (r: bool)
    ensures
        r == (count_of(s@, c) > limit),
{
    let n = s.unicode_len();
    let mut found: usize = 0;
    let mut i: usize = 0;
    assert(s@.take(0) =~= Seq::<char>::empty());
    while i < n
        invariant
            n == s@.len(),
            i <= n,
            found == count_of(s@.take(i as int), c),
            found <= limit,
            found <= i,
        decreases n - i,
    {
        assert(s@.take(i + 1).drop_last() =~= s@.take(i as int));
        assert(s@.take(i + 1).last() == s@[i as int]);
        if s.get_char(i) == c {
            if found == limit {
                proof {
                    lemma_count_grows(s@, c, i + 1);
                }
                return true;
            }
            found += 1;
        }
        i += 1;
    }
    assert(s@.take(n as int) =~= s@);
    false
}

/// Three texts, one after the other.
pub fn joined3(a: &str, b: &str, c: &str) -> (r: String)
    ensures
        r@ == a@ + b@ + c@,
{
    let ab = joined(a, b);
    joined(ab.as_str(), c)
}

/// Four texts, one after the other.
pub fn joined4(a: &str, b: &str, c: &str, d: &str) -> (r: String)
    ensures
        r@ == a@ + b@ + c@ + d@,
{
    let abc = joined3(a, b, c);
    joined(abc.as_str(), d)
}

/// A text as `{:?}` prints it: between double quotes, with what could not
/// stand there escaped.
pub uninterp spec fn quoted_text(text: Seq<char>) -> Seq<char>;

/// Prints a text with `{:?}`, the `Debug` format of `str`.
///
/// Trusted: the result is named by [`quoted_text`].
#[verifier::external_body]
pub(crate) fn quoted(text: &str) -> (r: String)
    ensures
        r@ == quoted_text(text@),
{
    format!("{:?}", text)
}

/// Whether two strings hold the same characters.
pub fn same_text(a: &str, b: &str) -> (r: bool)
    ensures
        r == (a@ == b@),
{
    let n = a.unicode_len();
    if n != b.unicode_len() {
        return false;
    }
    let mut i: usize = 0;
    while i < n
        invariant
            n == a@.len(),
            n == b@.len(),
            i <= n,
            forall|j: int| 0 <= j < i ==> a@[j] == b@[j],
        decreases n - i,
    {
        if a.get_char(i) != b.get_char(i) {
            return false;
        }
        i += 1;
    }
    assert(a@ =~= b@);
    true
}

/// Where `c` stands first in `s`.
pub open spec fn first_index(s: Seq<char>, c: char) -> Option<int>
    decreases s.len(),
{
    if s.len() == 0 {
        None
    } else if s[0] == c {
        Some(0)
    } else {
        match first_index(s.drop_first(), c) {
            Some(i) => Some(i + 1),
            None => None,
        }
    }
}

/// The first place of a character is the place before which it does not stand.
pub proof fn lemma_first_index(s: Seq<char>, c: char)
    ensures
        first_index(s, c) is None <==> forall|j: int| 0 <= j < s.len() ==> s[j] != c,
        first_index(s, c) matches Some(i) ==> 0 <= i < s.len() && s[i] == c && forall|j: int|
            0 <= j < i ==> s[j] != c,
    decreases s.len(),
{
    if s.len() > 0 && s[0] != c {
        let rest = s.drop_first();
        lemma_first_index(rest, c);
        assert(forall|j: int| 0 <= j < rest.len() ==> rest[j] == s[j + 1]);
        match first_index(rest, c) {
            Some(i) => {
                assert forall|j: int| 0 <= j < i + 1 implies s[j] != c by {
                    if j > 0 {
                        assert(rest[j - 1] == s[j]);
                    }
                }
            },
            None => {
                assert forall|j: int| 0 <= j < s.len() implies s[j] != c by {
                    if j > 0 {
                        assert(rest[j - 1] == s[j]);
                    }
                }
            },
        }
    }
}

/// A character stands first at `i` where it stands there and nowhere before.
pub proof fn lemma_first_index_at(s: Seq<char>, c: char, i: int)
    requires
        0 <= i < s.len(),
        s[i] == c,
        forall|j: int| 0 <= j < i ==> s[j] != c,
    ensures
        first_index(s, c) == Some(i),
{
    lemma_first_index(s, c);
}

/// What stands before and behind the first `c` in `s`.
pub open spec fn split_once_text(s: Seq<char>, c: char) -> Option<(Seq<char>, Seq<char>)> {
    match first_index(s, c) {
        Some(i) => Some((s.take(i), s.skip(i + 1))),
        None => None,
    }
}

/// A line without the carriage return that ends it, if one does.
pub open spec fn without_return(line: Seq<char>) -> Seq<char> {
    if line.len() > 0 && line.last() == '\r' {
        line.drop_last()
    } else {
        line
    }
}

/// The lines of a text: what stands between its line endings, which are line
/// feeds, each with the carriage return before it where there is one. A text
/// that ends with a line ending has no empty line behind it.
pub open spec fn lines_of(text: Seq<char>) -> Seq<Seq<char>>
    decreases text.len(),
{
    if text.len() == 0 {
        Seq::empty()
    } else {
        match first_index(text, '\n') {
            None => seq![text],
            Some(i) => if 0 <= i < text.len() {
                seq![without_return(text.take(i))] + lines_of(text.skip(i + 1))
            } else {
                seq![text]
            },
        }
    }
}

/// The first place at or behind `from` where `c` stands in `s`.
pub fn find_char(s: &str, c: char, from: usize) -> (r: Option<usize>)
    requires
        from <= s@.len(),
    ensures
        match r {
            Some(i) => from <= i < s@.len() && first_index(s@.skip(from as int), c) == Some(
                i - from,
            ),
            None => first_index(s@.skip(from as int), c) is None,
        },
{
    let n = s.unicode_len();
    let mut i: usize = from;
    let ghost rest = s@.skip(from as int);
    while i < n
        invariant
            n == s@.len(),
            from <= i <= n,
            rest == s@.skip(from as int),
            forall|j: int| 0 <= j < i - from ==> rest[j] != c,
        decreases n - i,
    {
        if s.get_char(i) == c {
            proof {
                lemma_first_index_at(rest, c, i - from);
            }
            return Some(i);
        }
        i += 1;
    }
    proof {
        lemma_first_index(rest, c);
    }
    None
}

/// What stands before and behind the first `c` in `s`, or `None` where `c`
/// does not stand in `s`.
pub fn split_once(s: &str, c: char) -> (r: Option<(String, String)>)
    ensures
        r.deep_view() == split_once_text(s@, c),
{
    assert(s@.skip(0) =~= s@);
    match find_char(s, c, 0) {
        Some(i) => {
            let n = s.unicode_len();
            let before = s.substring_char(0, i);
            let behind = s.substring_char(i + 1, n);
            assert(s@.subrange(0, i as int) =~= s@.take(i as int));
            assert(s@.subrange(i + 1, n as int) =~= s@.skip(i + 1));
            Some((String::from_str(before), String::from_str(behind)))
        },
        None => None,
    }
}

/// The lines of a text.
pub fn lines(text: &str) -> (r: Vec<String>)
    ensures
        r.deep_view() == lines_of(text@),
{
    let n = text.unicode_len();
    let mut out: Vec<String> = Vec::new();
    let mut from: usize = 0;
    assert(text@.skip(0) =~= text@);
    assert(out.deep_view() =~= Seq::<Seq<char>>::empty());
    while from < n
        invariant
            n == text@.len(),
            from <= n,
            lines_of(text@) == out.deep_view() + lines_of(text@.skip(from as int)),
        decreases n - from,
    {
        let ghost rest = text@.skip(from as int);
        let ghost before = out.deep_view();
        match find_char(text, '\n', from) {
            Some(i) => {
                let ghost whole = rest.take(i - from);
                assert(text@.subrange(from as int, i as int) =~= whole);
                assert(rest.skip(i - from + 1) =~= text@.skip(i + 1));
                let end = if i > from && text.get_char(i - 1) == '\r' {
                    i - 1
                } else {
                    i
                };
                proof {
                    if i > from {
                        assert(whole.last() == text@[i - 1]);
                    }
                }
                let line = text.substring_char(from, end);
                assert(text@.subrange(from as int, end as int) =~= without_return(whole));
                out.push(String::from_str(line));
                assert(out.deep_view() =~= before + seq![without_return(whole)]);
                from = i + 1;
            },
            None => {
                let line = text.substring_char(from, n);
                assert(text@.subrange(from as int, n as int) =~= rest);
                out.push(String::from_str(line));
                assert(out.deep_view() =~= before + seq![rest]);
                from = n;
                assert(text@.skip(n as int) =~= Seq::<char>::empty());
            },
        }
    }
    assert(text@.skip(n as int).len() == 0);
    assert(out.deep_view() + Seq::<Seq<char>>::empty() =~= out.deep_view());
    out
}

/// The texts among `texts` that begin with `prefix`, in their order.
pub open spec fn beginning_with(texts: Seq<Seq<char>>, prefix: Seq<char>) -> Seq<Seq<char>> {
    texts.filter(|t: Seq<char>| prefix.is_prefix_of(t))
}

/// The texts among `texts` that begin with `prefix`, in their order.
pub fn keep_beginning_with(texts: Vec<String>, prefix: &str) -> (r: Vec<String>)
    ensures
        r.deep_view() == beginning_with(texts.deep_view(), prefix@),
{
    let mut out: Vec<String> = Vec::new();
    let mut i: usize = 0;
    let ghost keep = |t: Seq<char>| prefix@.is_prefix_of(t);
    assert(texts.deep_view().take(0) =~= Seq::<Seq<char>>::empty());
    assert(out.deep_view() =~= Seq::<Seq<char>>::empty());
    assert(Seq::<Seq<char>>::empty().filter(keep) =~= Seq::<Seq<char>>::empty()) by {
        reveal(Seq::filter);
    }
    while i < texts.len()
        invariant
            i <= texts.len(),
            keep == |t: Seq<char>| prefix@.is_prefix_of(t),
            out.deep_view() == texts.deep_view().take(i as int).filter(keep),
        decreases texts.len() - i,
    {
        let ghost before = out.deep_view();
        let ghost seen = texts.deep_view().take(i as int);
        assert(texts.deep_view().take(i + 1) =~= seen.push(texts@[i as int]@));
        proof {
            lemma_filter_push(seen, texts@[i as int]@, keep);
        }
        if starts_with(texts[i].as_str(), prefix) {
            out.push(texts[i].clone());
            assert(out.deep_view() =~= before.push(texts@[i as int]@));
        }
        i += 1;
    }
    assert(texts.deep_view().take(texts.len() as int) =~= texts.deep_view());
    out
}

/// Filtering a sequence with one more element at its end.
pub proof fn lemma_filter_push<A>(s: Seq<A>, a: A, keep: spec_fn(A) -> bool)
    ensures
        s.push(a).filter(keep) == if keep(a) {
            s.filter(keep).push(a)
        } else {
            s.filter(keep)
        },
{
    reveal(Seq::filter);
    assert(s.push(a).drop_last() =~= s);
}

} // verus!
