//! Character-level text operations used by the manifest editor: substring
//! containment, prefix/suffix tests, and splitting a document into lines
//! that can be joined back verbatim.

use vstd::prelude::*;
use vstd::string::StrSliceExecFns;
use vstd::string::StringExecFns;

verus! {

/// `needle` occurs in `s` starting at index `i`.
pub open spec fn contains_at(s: Seq<char>, needle: Seq<char>, i: int) -> bool {
    &&& 0 <= i
    &&& i + needle.len() <= s.len()
    &&& s.subrange(i, i + needle.len()) == needle
}

/// `needle` occurs somewhere in `s`.
pub open spec fn contains_seq(s: Seq<char>, needle: Seq<char>) -> bool {
    exists|i: int| contains_at(s, needle, i)
}

pub open spec fn starts_with(s: Seq<char>, prefix: Seq<char>) -> bool {
    prefix.len() <= s.len() && s.subrange(0, prefix.len() as int) == prefix
}

pub open spec fn ends_with(s: Seq<char>, suffix: Seq<char>) -> bool {
    suffix.len() <= s.len() && s.subrange(s.len() - suffix.len(), s.len() as int) == suffix
}

pub open spec fn newline_free(s: Seq<char>) -> bool {
    forall|i: int| 0 <= i < s.len() ==> s[i] != '\n'
}

/// Index of the first `'\n'` in `s`, or `s.len()` when there is none.
pub open spec fn first_nl(s: Seq<char>) -> nat
    decreases s.len(),
{
    if s.len() == 0 {
        0
    } else if s[0] == '\n' {
        0
    } else {
        (1 + first_nl(s.drop_first())) as nat
    }
}

/// The lines of `s`, split at every `'\n'`. A trailing newline yields a
/// final empty line, so that `join_lines` restores the text verbatim.
pub open spec fn lines_of(s: Seq<char>) -> Seq<Seq<char>>
    decreases s.len(),
{
    let i = first_nl(s);
    if i >= s.len() {
        seq![s]
    } else {
        seq![s.subrange(0, i as int)] + lines_of(s.subrange(i as int + 1, s.len() as int))
    }
}

/// The lines joined back with `'\n'` between them.
pub open spec fn join_lines(ls: Seq<Seq<char>>) -> Seq<char>
    decreases ls.len(),
{
    if ls.len() == 0 {
        Seq::empty()
    } else if ls.len() == 1 {
        ls[0]
    } else {
        ls[0] + seq!['\n'] + join_lines(ls.drop_first())
    }
}

pub proof fn lemma_first_nl(s: Seq<char>)
    ensures
        first_nl(s) <= s.len(),
        first_nl(s) < s.len() ==> s[first_nl(s) as int] == '\n',
        forall|j: int| 0 <= j < first_nl(s) ==> s[j] != '\n',
    decreases s.len(),
{
    if s.len() > 0 && s[0] != '\n' {
        lemma_first_nl(s.drop_first());
        assert forall|j: int| 0 <= j < first_nl(s) implies s[j] != '\n' by {
            if j > 0 {
                assert(s.drop_first()[j - 1] == s[j]);
            }
        }
    }
}

pub proof fn lemma_first_nl_newline_free(s: Seq<char>)
    requires
        newline_free(s),
    ensures
        first_nl(s) == s.len(),
{
    lemma_first_nl(s);
}

pub proof fn lemma_first_nl_concat(a: Seq<char>, b: Seq<char>)
    requires
        newline_free(a),
    ensures
        first_nl(a + seq!['\n'] + b) == a.len(),
    decreases a.len(),
{
    let s = a + seq!['\n'] + b;
    if a.len() == 0 {
        assert(s[0] == '\n');
    } else {
        assert(s[0] == a[0]);
        lemma_first_nl_concat(a.drop_first(), b);
        assert(s.drop_first() =~= a.drop_first() + seq!['\n'] + b);
    }
}

/// Splitting text of the shape `a + '\n' + b` peels off the line `a`.
pub proof fn lemma_lines_of_concat(a: Seq<char>, b: Seq<char>)
    requires
        newline_free(a),
    ensures
        lines_of(a + seq!['\n'] + b) == seq![a] + lines_of(b),
{
    let s = a + seq!['\n'] + b;
    lemma_first_nl_concat(a, b);
    assert(s.subrange(0, a.len() as int) =~= a);
    assert(s.subrange(a.len() as int + 1, s.len() as int) =~= b);
}

pub proof fn lemma_lines_of_nonempty(s: Seq<char>)
    ensures
        lines_of(s).len() >= 1,
{
}

/// Joining the lines of `s` restores `s` exactly.
pub proof fn lemma_join_lines_of(s: Seq<char>)
    ensures
        join_lines(lines_of(s)) == s,
    decreases s.len(),
{
    lemma_first_nl(s);
    let i = first_nl(s) as int;
    if i < s.len() {
        let a = s.subrange(0, i);
        let rest = s.subrange(i + 1, s.len() as int);
        lemma_join_lines_of(rest);
        lemma_lines_of_nonempty(rest);
        let ls = lines_of(s);
        assert(ls == seq![a] + lines_of(rest));
        assert(ls[0] == a);
        assert(ls.drop_first() =~= lines_of(rest));
        assert(join_lines(ls) == a + seq!['\n'] + rest);
        assert(s =~= a + seq!['\n'] + rest);
    }
}

/// Every line produced by `lines_of` is free of newlines.
pub proof fn lemma_lines_of_newline_free(s: Seq<char>)
    ensures
        forall|k: int|
            0 <= k < lines_of(s).len() ==> newline_free(#[trigger] lines_of(s)[k]),
    decreases s.len(),
{
    lemma_first_nl(s);
    let i = first_nl(s) as int;
    if i < s.len() {
        let a = s.subrange(0, i);
        let rest = s.subrange(i + 1, s.len() as int);
        lemma_lines_of_newline_free(rest);
        assert(newline_free(a));
        assert forall|k: int|
            0 <= k < lines_of(s).len() implies newline_free(#[trigger] lines_of(s)[k]) by {
            if k > 0 {
                assert(lines_of(s)[k] == lines_of(rest)[k - 1]);
            }
        }
    }
}

pub proof fn lemma_join_lines_snoc(ls: Seq<Seq<char>>, x: Seq<char>)
    ensures
        join_lines(ls.push(x)) == if ls.len() == 0 {
            x
        } else {
            join_lines(ls) + seq!['\n'] + x
        },
    decreases ls.len(),
{
    let p = ls.push(x);
    if ls.len() == 0 {
        assert(p.len() == 1);
        assert(p[0] == x);
    } else if ls.len() == 1 {
        assert(p.len() == 2);
        assert(p[0] == ls[0]);
        assert(p.drop_first() =~= Seq::empty().push(x));
        lemma_join_lines_snoc(Seq::empty(), x);
        assert(join_lines(p) == ls[0] + seq!['\n'] + x);
        assert(join_lines(ls) == ls[0]);
    } else {
        lemma_join_lines_snoc(ls.drop_first(), x);
        assert(p.drop_first() =~= ls.drop_first().push(x));
        assert(join_lines(p) == ls[0] + seq!['\n'] + (join_lines(ls.drop_first()) + seq!['\n']
            + x));
        assert(join_lines(ls) == ls[0] + seq!['\n'] + join_lines(ls.drop_first()));
        assert(ls[0] + seq!['\n'] + (join_lines(ls.drop_first()) + seq!['\n'] + x) =~= (ls[0]
            + seq!['\n'] + join_lines(ls.drop_first())) + seq!['\n'] + x);
    }
}

/// Splitting joined lines gives the lines back, as long as each line is
/// itself free of newlines.
pub proof fn lemma_lines_of_join(ls: Seq<Seq<char>>)
    requires
        ls.len() >= 1,
        forall|k: int| 0 <= k < ls.len() ==> newline_free(#[trigger] ls[k]),
    ensures
        lines_of(join_lines(ls)) == ls,
    decreases ls.len(),
{
    if ls.len() == 1 {
        lemma_first_nl_newline_free(ls[0]);
        assert(lines_of(join_lines(ls)) == seq![ls[0]]);
        assert(seq![ls[0]] =~= ls);
    } else {
        let rest = ls.drop_first();
        assert(forall|k: int| 0 <= k < rest.len() ==> newline_free(#[trigger] rest[k]));
        lemma_lines_of_join(rest);
        lemma_lines_of_concat(ls[0], join_lines(rest));
        assert(lines_of(join_lines(ls)) == seq![ls[0]] + rest);
        assert(seq![ls[0]] + rest =~= ls);
    }
}

pub proof fn lemma_contains_concat_left(a: Seq<char>, b: Seq<char>, n: Seq<char>)
    requires
        contains_seq(a, n),
    ensures
        contains_seq(a + b, n),
{
    let i = choose|i: int| contains_at(a, n, i);
    assert((a + b).subrange(i, i + n.len()) =~= a.subrange(i, i + n.len()));
    assert(contains_at(a + b, n, i));
}

pub proof fn lemma_contains_concat_right(a: Seq<char>, b: Seq<char>, n: Seq<char>)
    requires
        contains_seq(b, n),
    ensures
        contains_seq(a + b, n),
{
    let i = choose|i: int| contains_at(b, n, i);
    assert((a + b).subrange(a.len() + i, a.len() + i + n.len()) =~= b.subrange(i, i + n.len()));
    assert(contains_at(a + b, n, a.len() + i));
}

/// A newline-free needle that occurs in a text occurs inside one of its lines.
pub proof fn lemma_contains_in_some_line(s: Seq<char>, n: Seq<char>)
    requires
        contains_seq(s, n),
        newline_free(n),
        n.len() >= 1,
    ensures
        exists|k: int|
            0 <= k < lines_of(s).len() && contains_seq(#[trigger] lines_of(s)[k], n),
    decreases s.len(),
{
    lemma_first_nl(s);
    let i = first_nl(s) as int;
    let p = choose|p: int| contains_at(s, n, p);
    if i >= s.len() {
        assert(lines_of(s)[0] == s);
    } else {
        let a = s.subrange(0, i);
        let rest = s.subrange(i + 1, s.len() as int);
        if p + n.len() <= i {
            assert(a.subrange(p, p + n.len()) =~= s.subrange(p, p + n.len()));
            assert(contains_at(a, n, p));
            assert(lines_of(s)[0] == a);
        } else if p > i {
            assert(rest.subrange(p - i - 1, p - i - 1 + n.len()) =~= s.subrange(p, p + n.len()));
            assert(contains_at(rest, n, p - i - 1));
            lemma_contains_in_some_line(rest, n);
            let k = choose|k: int|
                0 <= k < lines_of(rest).len() && contains_seq(#[trigger] lines_of(rest)[k], n);
            assert(lines_of(s)[k + 1] == lines_of(rest)[k]);
        } else {
            // the occurrence would cover the newline at `i`
            assert(p <= i < p + n.len());
            assert(s.subrange(p, p + n.len())[i - p] == s[i]);
            assert(n[i - p] == '\n');
            assert(false);
        }
    }
}

/// A needle occurring in some line occurs in the joined text.
pub proof fn lemma_line_contains_join(ls: Seq<Seq<char>>, k: int, n: Seq<char>)
    requires
        0 <= k < ls.len(),
        contains_seq(ls[k], n),
    ensures
        contains_seq(join_lines(ls), n),
    decreases ls.len(),
{
    if ls.len() == 1 {
        assert(join_lines(ls) == ls[0]);
    } else {
        if k == 0 {
            lemma_contains_concat_left(ls[0], seq!['\n'], n);
            lemma_contains_concat_left(ls[0] + seq!['\n'], join_lines(ls.drop_first()), n);
            assert(ls[0] + seq!['\n'] + join_lines(ls.drop_first()) == (ls[0] + seq!['\n'])
                + join_lines(ls.drop_first()));
        } else {
            assert(ls.drop_first()[k - 1] == ls[k]);
            lemma_line_contains_join(ls.drop_first(), k - 1, n);
            lemma_contains_concat_right(ls[0] + seq!['\n'], join_lines(ls.drop_first()), n);
            assert(ls[0] + seq!['\n'] + join_lines(ls.drop_first()) == (ls[0] + seq!['\n'])
                + join_lines(ls.drop_first()));
        }
    }
}

/// `needle` occurs in `h` starting at position `i`.
fn matches_at(h: &str, needle: &str, i: usize) -> (b: bool)
    requires
        i + needle@.len() <= h@.len(),
    ensures
        b == contains_at(h@, needle@, i as int),
{
    let hl = h.unicode_len();
    let nl = needle.unicode_len();
    let mut j: usize = 0;
    while j < nl
        invariant
            hl == h@.len(),
            nl == needle@.len(),
            i + nl <= h@.len(),
            0 <= j <= nl,
            forall|k: int| 0 <= k < j ==> h@[i + k] == needle@[k],
        decreases nl - j,
    {
        if h.get_char(i + j) != needle.get_char(j) {
            assert(!contains_at(h@, needle@, i as int)) by {
                if contains_at(h@, needle@, i as int) {
                    assert(h@.subrange(i as int, i + nl)[j as int] == h@[i + j]);
                }
            }
            return false;
        }
        j += 1;
    }
    assert(h@.subrange(i as int, i + nl) =~= needle@);
    true
}

/// Substring search: does `h` contain `needle`?
pub fn str_contains(h: &str, needle: &str) -> (b: bool)
    ensures
        b == contains_seq(h@, needle@),
{
    let hl = h.unicode_len();
    let nl = needle.unicode_len();
    if nl > hl {
        return false;
    }
    if nl == 0 {
        assert(h@.subrange(0, 0) =~= needle@);
        assert(contains_at(h@, needle@, 0));
        return true;
    }
    let mut i: usize = 0;
    while i <= hl - nl
        invariant
            hl == h@.len(),
            nl == needle@.len(),
            1 <= nl <= hl,
            0 <= i <= hl - nl + 1,
            forall|k: int| 0 <= k < i ==> !contains_at(h@, needle@, k),
        decreases hl - nl + 1 - i,
    {
        if matches_at(h, needle, i) {
            return true;
        }
        i += 1;
    }
    false
}

/// Does `s` start with `prefix`?
pub fn str_starts_with(s: &str, prefix: &str) -> (b: bool)
    ensures
        b == starts_with(s@, prefix@),
{
    let sl = s.unicode_len();
    let pl = prefix.unicode_len();
    if pl > sl {
        return false;
    }
    let b = matches_at(s, prefix, 0);
    assert(contains_at(s@, prefix@, 0) == starts_with(s@, prefix@));
    b
}

/// Does `s` end with `suffix`?
pub fn str_ends_with(s: &str, suffix: &str) -> (b: bool)
    ensures
        b == ends_with(s@, suffix@),
{
    let sl = s.unicode_len();
    let nl = suffix.unicode_len();
    if nl > sl {
        return false;
    }
    let b = matches_at(s, suffix, sl - nl);
    assert(contains_at(s@, suffix@, sl - nl) == ends_with(s@, suffix@));
    b
}

/// Split a text into its lines, exactly as `lines_of` describes.
pub fn split_lines(s: &str) -> (r: Vec<String>)
    ensures
        r.deep_view() == lines_of(s@),
{
    let len = s.unicode_len();
    let mut r: Vec<String> = Vec::new();
    let mut start: usize = 0;
    let mut i: usize = 0;
    proof {
        assert(s@.subrange(0, len as int) =~= s@);
        assert(r.deep_view() =~= Seq::<Seq<char>>::empty());
        assert(Seq::<Seq<char>>::empty() + lines_of(s@) =~= lines_of(s@));
    }
    while i < len
        invariant
            len == s@.len(),
            0 <= start <= i <= len,
            forall|k: int| start <= k < i ==> s@[k] != '\n',
            lines_of(s@) == r.deep_view() + lines_of(s@.subrange(start as int, len as int)),
        decreases len - i,
    {
        if s.get_char(i) == '\n' {
            let line = s.substring_char(start, i).to_owned();
            let ghost r0 = r.deep_view();
            r.push(line);
            proof {
                let tail = s@.subrange(start as int, len as int);
                let rest = s@.subrange(i as int + 1, len as int);
                assert(newline_free(line@)) by {
                    assert(forall|j: int|
                        0 <= j < line@.len() ==> #[trigger] line@[j] == s@[start + j]);
                }
                lemma_lines_of_concat(line@, rest);
                assert(tail =~= line@ + seq!['\n'] + rest);
                assert(r.deep_view() =~= r0.push(line@));
                assert(r0 + (seq![line@] + lines_of(rest)) =~= r0.push(line@) + lines_of(rest));
            }
            start = i + 1;
        }
        i += 1;
    }
    let last = s.substring_char(start, len).to_owned();
    let ghost r0 = r.deep_view();
    r.push(last);
    proof {
        let tail = s@.subrange(start as int, len as int);
        assert(newline_free(tail));
        lemma_first_nl_newline_free(tail);
        assert(lines_of(tail) == seq![tail]);
        assert(r.deep_view() =~= r0.push(last@));
        assert(r0 + seq![tail] =~= r0.push(last@));
    }
    r
}

/// Join lines with `'\n'`, exactly as `join_lines` describes.
pub fn join_lines_exec(v: &Vec<String>) -> (r: String)
    ensures
        r@ == join_lines(v.deep_view()),
{
    let mut r = String::new();
    let mut i: usize = 0;
    while i < v.len()
        invariant
            0 <= i <= v.len(),
            r@ == join_lines(v.deep_view().subrange(0, i as int)),
        decreases v.len() - i,
    {
        if i > 0 {
            r.append("\n");
        }
        r.append(v[i].as_str());
        proof {
            reveal_strlit("\n");
            let dv = v.deep_view();
            let prefix = dv.subrange(0, i as int);
            lemma_join_lines_snoc(prefix, dv[i as int]);
            assert(dv.subrange(0, i as int + 1) =~= prefix.push(dv[i as int]));
            assert("\n"@ =~= seq!['\n']);
            if i > 0 {
                assert((join_lines(prefix) + "\n"@) + dv[i as int] =~= join_lines(prefix)
                    + seq!['\n'] + dv[i as int]);
            }
        }
        i += 1;
    }
    proof {
        assert(v.deep_view().subrange(0, v.len() as int) =~= v.deep_view());
    }
    r
}

} // verus!
