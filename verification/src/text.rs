//! Character-level text operations: whitespace, trimming and splitting.

use vstd::prelude::*;

verus! {

/// The Unicode `White_Space` property, which `char::is_whitespace` reports.
pub open spec fn is_ws(c: char) -> bool {
    ||| ('\u{9}' <= c && c <= '\u{d}')
    ||| c == ' '
    ||| c == '\u{85}'
    ||| c == '\u{a0}'
    ||| c == '\u{1680}'
    ||| ('\u{2000}' <= c && c <= '\u{200a}')
    ||| c == '\u{2028}'
    ||| c == '\u{2029}'
    ||| c == '\u{202f}'
    ||| c == '\u{205f}'
    ||| c == '\u{3000}'
}

/// Whether `c` is a Unicode whitespace character.
pub fn char_is_whitespace(c: char) -> (r: bool)
    ensures
        r == is_ws(c),
{
    ('\u{9}' <= c && c <= '\u{d}') || c == ' ' || c == '\u{85}' || c == '\u{a0}' || c == '\u{1680}'
        || ('\u{2000}' <= c && c <= '\u{200a}') || c == '\u{2028}' || c == '\u{2029}' || c
        == '\u{202f}' || c == '\u{205f}' || c == '\u{3000}'
}

/// The characters of `s`, in order.
pub fn chars_of(s: &str) -> (v: Vec<char>)
    ensures
        v@ == s@,
{
    let mut v: Vec<char> = Vec::new();
    for c in it: s.chars()
        invariant
            v@ == it.seq().take(it.index() as int),
    {
        v.push(c);
    }
    v
}


/// `s` without its trailing whitespace (`str::trim_end`).
pub open spec fn trim_end_seq(s: Seq<char>) -> Seq<char>
    decreases s.len(),
{
    if s.len() > 0 && is_ws(s.last()) {
        trim_end_seq(s.drop_last())
    } else {
        s
    }
}

/// `s` without its leading whitespace (`str::trim_start`).
pub open spec fn trim_start_seq(s: Seq<char>) -> Seq<char>
    decreases s.len(),
{
    if s.len() > 0 && is_ws(s[0]) {
        trim_start_seq(s.drop_first())
    } else {
        s
    }
}

/// Trimming the end of text that holds a non-whitespace character only
/// touches what follows the last such character.
pub proof fn lemma_trim_end_concat(a: Seq<char>, b: Seq<char>, k: int)
    requires
        0 <= k < b.len(),
        !is_ws(b[k]),
    ensures
        trim_end_seq(a + b) == a + trim_end_seq(b),
        trim_end_seq(b).len() > k,
    decreases b.len(),
{
    if is_ws(b.last()) {
        assert((a + b).drop_last() =~= a + b.drop_last());
        lemma_trim_end_concat(a, b.drop_last(), k);
    }
}

/// Trimming the end leaves a prefix.
pub proof fn lemma_trim_end_prefix(s: Seq<char>)
    ensures
        trim_end_seq(s).len() <= s.len(),
        trim_end_seq(s) == s.subrange(0, trim_end_seq(s).len() as int),
    decreases s.len(),
{
    if s.len() > 0 && is_ws(s.last()) {
        lemma_trim_end_prefix(s.drop_last());
        assert(s.drop_last().subrange(0, trim_end_seq(s).len() as int) =~= s.subrange(
            0,
            trim_end_seq(s).len() as int,
        ));
    } else {
        assert(s.subrange(0, s.len() as int) =~= s);
    }
}

/// What trimming the end leaves never ends in whitespace.
pub proof fn lemma_trim_end_last(s: Seq<char>)
    ensures
        trim_end_seq(s).len() > 0 ==> !is_ws(trim_end_seq(s).last()),
    decreases s.len(),
{
    if s.len() > 0 && is_ws(s.last()) {
        lemma_trim_end_last(s.drop_last());
    }
}

/// Law: trimming the end removes exactly the trailing run of whitespace:
/// what is left is a prefix of `s`, everything after it is whitespace, and it
/// does not end in whitespace.
pub proof fn lemma_trim_end_removes_trailing_whitespace(s: Seq<char>) -> (e: int)
    ensures
        0 <= e <= s.len(),
        trim_end_seq(s) == s.subrange(0, e),
        forall|i: int| e <= i < s.len() ==> is_ws(#[trigger] s[i]),
        e > 0 ==> !is_ws(s[e - 1]),
    decreases s.len(),
{
    if s.len() > 0 && is_ws(s.last()) {
        let e = lemma_trim_end_removes_trailing_whitespace(s.drop_last());
        assert(s.drop_last().subrange(0, e) =~= s.subrange(0, e));
        assert forall|i: int| e <= i < s.len() implies is_ws(#[trigger] s[i]) by {
            if i < s.len() - 1 {
                assert(s.drop_last()[i] == s[i]);
            }
        }
        e
    } else {
        assert(s.subrange(0, s.len() as int) =~= s);
        s.len() as int
    }
}

/// Law: trimming the start removes exactly the leading run of whitespace:
/// what is left is a suffix of `s`, everything before it is whitespace, and
/// it does not start with whitespace.
pub proof fn lemma_trim_start_removes_leading_whitespace(s: Seq<char>) -> (b: int)
    ensures
        0 <= b <= s.len(),
        trim_start_seq(s) == s.subrange(b, s.len() as int),
        forall|i: int| 0 <= i < b ==> is_ws(#[trigger] s[i]),
        b < s.len() ==> !is_ws(s[b]),
    decreases s.len(),
{
    if s.len() > 0 && is_ws(s[0]) {
        let b = lemma_trim_start_removes_leading_whitespace(s.drop_first());
        assert(s.drop_first().subrange(b, s.drop_first().len() as int) =~= s.subrange(
            b + 1,
            s.len() as int,
        ));
        assert forall|i: int| 0 <= i < b + 1 implies is_ws(#[trigger] s[i]) by {
            if i > 0 {
                assert(s.drop_first()[i - 1] == s[i]);
            }
        }
        assert(b + 1 < s.len() ==> s.drop_first()[b] == s[b + 1]);
        b + 1
    } else {
        assert(s.subrange(0, s.len() as int) =~= s);
        0
    }
}

/// Law: trimming removes exactly the leading and the trailing runs of
/// whitespace and keeps everything between them, inner line breaks and
/// spaces included: the result is `s[b..e]`, only whitespace lies outside
/// it, and it neither starts nor ends with whitespace.
pub proof fn lemma_trim_keeps_inner_text(s: Seq<char>) -> (r: (int, int))
    ensures
        0 <= r.0 <= r.1 <= s.len(),
        trim_seq(s) == s.subrange(r.0, r.1),
        forall|i: int| 0 <= i < r.0 ==> is_ws(#[trigger] s[i]),
        forall|i: int| r.1 <= i < s.len() ==> is_ws(#[trigger] s[i]),
        r.0 < r.1 ==> !is_ws(s[r.0]) && !is_ws(s[r.1 - 1]),
{
    let e = lemma_trim_end_removes_trailing_whitespace(s);
    let t = s.subrange(0, e);
    let b = lemma_trim_start_removes_leading_whitespace(t);
    assert(t.subrange(b, t.len() as int) =~= s.subrange(b, e));
    assert forall|i: int| 0 <= i < b implies is_ws(#[trigger] s[i]) by {
        assert(t[i] == s[i]);
    }
    if b < e {
        assert(t[b] == s[b]);
    }
    (b, e)
}

/// `s` without leading and trailing whitespace (`str::trim`).
pub open spec fn trim_seq(s: Seq<char>) -> Seq<char> {
    trim_start_seq(trim_end_seq(s))
}

/// The end of the range of `v[from..to]` that is left once trailing
/// whitespace is removed.
pub fn trimmed_end(v: &Vec<char>, from: usize, to: usize) -> (e: usize)
    requires
        from <= to <= v@.len(),
    ensures
        from <= e <= to,
        trim_end_seq(v@.subrange(from as int, to as int)) == v@.subrange(from as int, e as int),
{
    let mut e = to;
    while e > from && char_is_whitespace(v[e - 1])
        invariant
            from <= e <= to <= v@.len(),
            trim_end_seq(v@.subrange(from as int, to as int)) == trim_end_seq(
                v@.subrange(from as int, e as int),
            ),
        decreases e,
    {
        assert(v@.subrange(from as int, e as int).drop_last() =~= v@.subrange(
            from as int,
            e - 1,
        ));
        e = e - 1;
    }
    e
}

/// The start of the range of `v[from..to]` that is left once leading
/// whitespace is removed.
pub fn trimmed_start(v: &Vec<char>, from: usize, to: usize) -> (b: usize)
    requires
        from <= to <= v@.len(),
    ensures
        from <= b <= to,
        trim_start_seq(v@.subrange(from as int, to as int)) == v@.subrange(b as int, to as int),
{
    let mut b = from;
    while b < to && char_is_whitespace(v[b])
        invariant
            from <= b <= to <= v@.len(),
            trim_start_seq(v@.subrange(from as int, to as int)) == trim_start_seq(
                v@.subrange(b as int, to as int),
            ),
        decreases to - b,
    {
        assert(v@.subrange(b as int, to as int).drop_first() =~= v@.subrange(
            b + 1,
            to as int,
        ));
        b = b + 1;
    }
    b
}

/// `s` without leading and trailing whitespace.
pub fn trim(s: &str) -> (r: &str)
    ensures
        r@ == trim_seq(s@),
{
    let v = chars_of(s);
    let n = v.len();
    assert(v@.subrange(0, n as int) =~= v@);
    let e = trimmed_end(&v, 0, n);
    let b = trimmed_start(&v, 0, e);
    s.substring_char(b, e)
}

/// `s` without trailing whitespace.
pub fn trim_end(s: &str) -> (r: &str)
    ensures
        r@ == trim_end_seq(s@),
{
    let v = chars_of(s);
    let n = v.len();
    assert(v@.subrange(0, n as int) =~= v@);
    let e = trimmed_end(&v, 0, n);
    s.substring_char(0, e)
}

/// The pieces of `s` between commas, as `str::split(',')` yields them: there
/// is always one more piece than there are commas, and pieces may be empty.
pub open spec fn split_commas(s: Seq<char>) -> Seq<Seq<char>>
    decreases s.len(),
{
    if s.len() == 0 {
        seq![Seq::<char>::empty()]
    } else {
        let prev = split_commas(s.drop_last());
        if s.last() == ',' {
            prev.push(Seq::<char>::empty())
        } else {
            prev.update(prev.len() - 1, prev.last().push(s.last()))
        }
    }
}

/// Splitting never yields an empty list of pieces.
pub proof fn lemma_split_commas_nonempty(s: Seq<char>)
    ensures
        split_commas(s).len() >= 1,
    decreases s.len(),
{
    if s.len() > 0 {
        lemma_split_commas_nonempty(s.drop_last());
    }
}


/// Whether `a` and `b` hold the same characters.
pub fn str_eq(a: &str, b: &str) -> (r: bool)
    ensures
        r == (a@ == b@),
{
    let va = chars_of(a);
    let vb = chars_of(b);
    if va.len() != vb.len() {
        return false;
    }
    let mut i: usize = 0;
    while i < va.len()
        invariant
            va@ == a@,
            vb@ == b@,
            va@.len() == vb@.len(),
            i <= va@.len(),
            forall|j: int| 0 <= j < i ==> va@[j] == vb@[j],
        decreases va@.len() - i,
    {
        if va[i] != vb[i] {
            return false;
        }
        i = i + 1;
    }
    assert(va@ =~= vb@);
    true
}

} // verus!
