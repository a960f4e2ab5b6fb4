//! Whitespace, trimming and word splitting on Unicode text, as `str::trim`,
//! `str::trim_end` and `str::split_whitespace` define them.
use vstd::prelude::*;

verus! {

/// Unicode `White_Space`, the property that `char::is_whitespace` tests.
pub open spec fn is_space(c: char) -> bool {
    ||| ('\u{9}' <= c && c <= '\u{d}')
    ||| c == ' '
    ||| c == '\u{85}'
    ||| c == '\u{a0}'
    ||| c == '\u{1680}'
    ||| ('\u{2000}' <= c && c <= '\u{200a}')
    ||| c == '\u{2028}'
    ||| c == '\u{2029}'
    ||| c == '\u{202f}'
    ||| c == '\u{205f}'
    ||| c == '\u{3000}'
}

/// The text without its leading whitespace.
pub open spec fn trim_start(s: Seq<char>) -> Seq<char>
    decreases s.len(),
{
    if s.len() > 0 && is_space(s[0]) {
        trim_start(s.drop_first())
    } else {
        s
    }
}

/// The text without its trailing whitespace.
pub open spec fn trim_end(s: Seq<char>) -> Seq<char>
    decreases s.len(),
{
    if s.len() > 0 && is_space(s.last()) {
        trim_end(s.drop_last())
    } else {
        s
    }
}

/// The text without leading and trailing whitespace.
pub open spec fn trim(s: Seq<char>) -> Seq<char> {
    trim_end(trim_start(s))
}

/// The longest prefix free of whitespace.
pub open spec fn leading_word(s: Seq<char>) -> Seq<char>
    decreases s.len(),
{
    if s.len() == 0 || is_space(s[0]) {
        Seq::empty()
    } else {
        seq![s[0]] + leading_word(s.drop_first())
    }
}

/// The first whitespace-separated word, as the first item of `split_whitespace`,
/// or `None` where the text holds only whitespace.
pub open spec fn first_word(s: Seq<char>) -> Option<Seq<char>> {
    if trim_start(s).len() == 0 {
        None
    } else {
        Some(leading_word(trim_start(s)))
    }
}

/// `p` is a prefix of `s`.
pub open spec fn starts_with(s: Seq<char>, p: Seq<char>) -> bool {
    p.len() <= s.len() && s.subrange(0, p.len() as int) == p
}

/// No character of `s` is whitespace.
pub open spec fn has_no_space(s: Seq<char>) -> bool {
    forall|j: int| 0 <= j < s.len() ==> !is_space(#[trigger] s[j])
}

pub proof fn lemma_trim_start_skip(s: Seq<char>, i: int)
    requires
        0 <= i <= s.len(),
        forall|j: int| 0 <= j < i ==> is_space(#[trigger] s[j]),
        i == s.len() || !is_space(s[i]),
    ensures
        trim_start(s) == s.skip(i),
    decreases i,
{
    if i == 0 {
        assert(s.skip(0) =~= s);
    } else {
        let t = s.drop_first();
        assert forall|j: int| 0 <= j < i - 1 implies is_space(#[trigger] t[j]) by {
            assert(t[j] == s[j + 1]);
        }
        lemma_trim_start_skip(t, i - 1);
        assert(t.skip(i - 1) =~= s.skip(i));
    }
}

pub proof fn lemma_trim_end_take(s: Seq<char>, e: int)
    requires
        0 <= e <= s.len(),
        forall|j: int| e <= j < s.len() ==> is_space(#[trigger] s[j]),
        e == 0 || !is_space(s[e - 1]),
    ensures
        trim_end(s) == s.take(e),
    decreases s.len() - e,
{
    if e == s.len() {
        assert(s.take(e) =~= s);
        if s.len() > 0 {
            assert(s.last() == s[e - 1]);
        }
    } else {
        let t = s.drop_last();
        assert(is_space(s.last()));
        assert forall|j: int| e <= j < t.len() implies is_space(#[trigger] t[j]) by {
            assert(t[j] == s[j]);
        }
        lemma_trim_end_take(t, e);
        assert(t.take(e) =~= s.take(e));
    }
}

pub proof fn lemma_leading_word_take(s: Seq<char>, k: int)
    requires
        0 <= k <= s.len(),
        forall|j: int| 0 <= j < k ==> !is_space(#[trigger] s[j]),
        k == s.len() || is_space(s[k]),
    ensures
        leading_word(s) == s.take(k),
    decreases k,
{
    if k == 0 {
        assert(s.take(0) =~= Seq::<char>::empty());
    } else {
        let t = s.drop_first();
        assert forall|j: int| 0 <= j < k - 1 implies !is_space(#[trigger] t[j]) by {
            assert(t[j] == s[j + 1]);
        }
        lemma_leading_word_take(t, k - 1);
        assert(seq![s[0]] + t.take(k - 1) =~= s.take(k));
    }
}

/// Trimming is idempotent.
pub proof fn lemma_trim_idempotent(s: Seq<char>)
    ensures
        trim(trim(s)) == trim(s),
{
    let a = trim_start(s);
    lemma_trim_start_shape(s);
    lemma_trim_end_shape(a);
    let t = trim_end(a);
    // t is empty, or starts and ends with a character that is no whitespace
    if t.len() > 0 {
        assert(t[0] == a[0]);
        lemma_trim_start_skip(t, 0);
        lemma_trim_end_take(t, t.len() as int);
        assert(t.take(t.len() as int) =~= t);
    } else {
        assert(trim_start(t) == t);
        assert(trim_end(t) == t);
    }
}

/// `trim_start(s)` is a suffix of `s` that is empty or starts with a non-space.
pub proof fn lemma_trim_start_shape(s: Seq<char>)
    ensures
        trim_start(s).len() <= s.len(),
        trim_start(s) == s.skip(s.len() - trim_start(s).len()),
        forall|j: int| 0 <= j < s.len() - trim_start(s).len() ==> is_space(#[trigger] s[j]),
        trim_start(s).len() > 0 ==> !is_space(trim_start(s)[0]),
    decreases s.len(),
{
    if s.len() > 0 && is_space(s[0]) {
        let t = s.drop_first();
        lemma_trim_start_shape(t);
        assert(t.skip(t.len() - trim_start(t).len()) =~= s.skip(s.len() - trim_start(t).len()));
        assert forall|j: int| 0 <= j < s.len() - trim_start(s).len() implies is_space(#[trigger] s[j]) by {
            if j > 0 {
                assert(s[j] == t[j - 1]);
            }
        }
    } else {
        assert(s.skip(0) =~= s);
    }
}

/// `trim_end(s)` is a prefix of `s` that is empty or ends with a non-space, and
/// what it drops is whitespace.
pub proof fn lemma_trim_end_shape(s: Seq<char>)
    ensures
        trim_end(s).len() <= s.len(),
        trim_end(s) == s.take(trim_end(s).len() as int),
        forall|j: int| trim_end(s).len() <= j < s.len() ==> is_space(#[trigger] s[j]),
        trim_end(s).len() > 0 ==> !is_space(trim_end(s).last()),
    decreases s.len(),
{
    if s.len() > 0 && is_space(s.last()) {
        let t = s.drop_last();
        lemma_trim_end_shape(t);
        assert(t.take(trim_end(t).len() as int) =~= s.take(trim_end(t).len() as int));
        assert forall|j: int| trim_end(s).len() <= j < s.len() implies is_space(#[trigger] s[j]) by {
            if j < s.len() - 1 {
                assert(s[j] == t[j]);
            }
        }
    } else {
        assert(s.take(s.len() as int) =~= s);
    }
}

/// Cutting trailing whitespace off `p + q` cuts it off `q`, and off `p` too where
/// `q` holds only whitespace.
pub proof fn lemma_trim_end_append(p: Seq<char>, q: Seq<char>)
    ensures
        trim_end(p + q) == (if trim_end(q).len() == 0 {
            trim_end(p)
        } else {
            p + trim_end(q)
        }),
    decreases q.len(),
{
    if q.len() == 0 {
        assert(p + q =~= p);
    } else if is_space(q.last()) {
        assert((p + q).drop_last() =~= p + q.drop_last());
        assert((p + q).last() == q.last());
        lemma_trim_end_append(p, q.drop_last());
    } else {
        assert((p + q).last() == q.last());
    }
}

/// A trailing whitespace character does not change the trimmed text.
pub proof fn lemma_trim_drop_trailing_space(x: Seq<char>)
    requires
        x.len() > 0,
        is_space(x.last()),
    ensures
        trim(x) == trim(x.drop_last()),
{
    lemma_trim_start_shape(x);
    let a = x.len() - trim_start(x).len();
    let y = x.drop_last();
    if trim_start(x).len() == 0 {
        assert forall|j: int| 0 <= j < y.len() implies is_space(#[trigger] y[j]) by {
            assert(y[j] == x[j]);
        }
        lemma_trim_start_skip(y, y.len() as int);
        assert(y.skip(y.len() as int) =~= Seq::<char>::empty());
        assert(trim_end(Seq::<char>::empty()) == Seq::<char>::empty());
    } else {
        assert(trim_start(x)[0] == x[a]);
        assert(a < x.len() - 1);
        assert forall|j: int| 0 <= j < a implies is_space(#[trigger] y[j]) by {
            assert(y[j] == x[j]);
        }
        assert(y[a] == x[a]);
        lemma_trim_start_skip(y, a);
        let z = x.skip(a);
        assert(y.skip(a) =~= z.drop_last());
        assert(z.last() == x.last());
    }
}

/// Trimming after cutting trailing whitespace is trimming.
pub proof fn lemma_trim_of_trim_end(x: Seq<char>)
    ensures
        trim(trim_end(x)) == trim(x),
    decreases x.len(),
{
    if x.len() > 0 && is_space(x.last()) {
        lemma_trim_of_trim_end(x.drop_last());
        lemma_trim_drop_trailing_space(x);
    }
}

/// A leading whitespace character does not change the trimmed text.
pub proof fn lemma_trim_drop_leading_space(c: char, y: Seq<char>)
    requires
        is_space(c),
    ensures
        trim(seq![c] + y) == trim(y),
{
    assert((seq![c] + y).drop_first() =~= y);
}

/// Whether `c` is whitespace, as `char::is_whitespace` answers.
pub fn char_is_space(c: char) -> (r: bool)
    ensures
        r == is_space(c),
{
    ('\u{9}' <= c && c <= '\u{d}') || c == ' ' || c == '\u{85}' || c == '\u{a0}' || c
        == '\u{1680}' || ('\u{2000}' <= c && c <= '\u{200a}') || c == '\u{2028}' || c
        == '\u{2029}' || c == '\u{202f}' || c == '\u{205f}' || c == '\u{3000}'
}


/// First index in `lo..hi` of a character that is no whitespace, or `hi`.
pub fn skip_spaces(s: &str, lo: usize, hi: usize) -> (i: usize)
    requires
        lo <= hi <= s@.len(),
    ensures
        lo <= i <= hi,
        forall|j: int| lo <= j < i ==> is_space(#[trigger] s@[j]),
        i == hi || !is_space(s@[i as int]),
{
    let mut i = lo;
    while i < hi
        invariant
            lo <= i <= hi <= s@.len(),
            forall|j: int| lo <= j < i ==> is_space(#[trigger] s@[j]),
        decreases hi - i,
    {
        if !char_is_space(s.get_char(i)) {
            return i;
        }
        i = i + 1;
    }
    i
}

/// Least `e` in `lo..=hi` such that `e..hi` holds only whitespace.
pub fn skip_spaces_back(s: &str, lo: usize, hi: usize) -> (e: usize)
    requires
        lo <= hi <= s@.len(),
    ensures
        lo <= e <= hi,
        forall|j: int| e <= j < hi ==> is_space(#[trigger] s@[j]),
        e == lo || !is_space(s@[e - 1]),
{
    let mut e = hi;
    while e > lo
        invariant
            lo <= e <= hi <= s@.len(),
            forall|j: int| e <= j < hi ==> is_space(#[trigger] s@[j]),
        decreases e - lo,
    {
        if !char_is_space(s.get_char(e - 1)) {
            return e;
        }
        e = e - 1;
    }
    e
}

/// First index in `lo..hi` of a whitespace character, or `hi`.
pub fn skip_word(s: &str, lo: usize, hi: usize) -> (k: usize)
    requires
        lo <= hi <= s@.len(),
    ensures
        lo <= k <= hi,
        forall|j: int| lo <= j < k ==> !is_space(#[trigger] s@[j]),
        k == hi || is_space(s@[k as int]),
{
    let mut k = lo;
    while k < hi
        invariant
            lo <= k <= hi <= s@.len(),
            forall|j: int| lo <= j < k ==> !is_space(#[trigger] s@[j]),
        decreases hi - k,
    {
        if char_is_space(s.get_char(k)) {
            return k;
        }
        k = k + 1;
    }
    k
}

/// Bounds of the trimmed part of `s@[lo..hi]`.
pub fn trim_bounds(s: &str, lo: usize, hi: usize) -> (r: (usize, usize))
    requires
        lo <= hi <= s@.len(),
    ensures
        lo <= r.0 <= r.1 <= hi,
        trim(s@.subrange(lo as int, hi as int)) == s@.subrange(r.0 as int, r.1 as int),
        trim_start(s@.subrange(lo as int, hi as int)) == s@.subrange(r.0 as int, hi as int),
{
    let i = skip_spaces(s, lo, hi);
    let e = skip_spaces_back(s, i, hi);
    proof {
        let sub = s@.subrange(lo as int, hi as int);
        assert forall|j: int| 0 <= j < i - lo implies is_space(#[trigger] sub[j]) by {
            assert(sub[j] == s@[j + lo]);
        }
        if i < hi {
            assert(sub[i - lo] == s@[i as int]);
        }
        lemma_trim_start_skip(sub, i - lo);
        let mid = sub.skip(i - lo);
        assert(mid =~= s@.subrange(i as int, hi as int));
        assert forall|j: int| e - i <= j < mid.len() implies is_space(#[trigger] mid[j]) by {
            assert(mid[j] == s@[j + i]);
        }
        if e > i {
            assert(mid[e - i - 1] == s@[e - 1]);
        }
        lemma_trim_end_take(mid, e - i);
        assert(mid.take(e - i) =~= s@.subrange(i as int, e as int));
    }
    (i, e)
}

} // verus!
