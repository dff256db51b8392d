//! Text primitives on `char` sequences: Unicode white space, trimming and
//! ASCII case folding, each given as a spec function and computed by a
//! verified function over `&str`.
use vstd::prelude::*;

verus! {

/// Whether `c` has the Unicode `White_Space` property, the set of characters
/// for which `char::is_whitespace` holds.
pub open spec fn is_white_space(c: char) -> bool {
    ||| ('\u{9}' <= c && c <= '\u{d}')
    ||| c == ' '
    ||| c == '\u{85}'
    ||| c == '\u{a0}'
    ||| c == '\u{1680}'
    ||| ('\u{2000}' <= c && c <= '\u{200a}')
    ||| c == '\u{2028}'
    ||| c == '\u{2029}'
    ||| c == '\u{202f}'
    ||| c == '\u{205f}'
    ||| c == '\u{3000}'
}

/// Every character of `s` is white space.
pub open spec fn all_white_space(s: Seq<char>) -> bool {
    forall|i: int| 0 <= i < s.len() ==> is_white_space(#[trigger] s[i])
}

/// `s` without its leading white space.
pub open spec fn trim_start_spec(s: Seq<char>) -> Seq<char>
    decreases s.len(),
{
    if s.len() > 0 && is_white_space(s[0]) {
        trim_start_spec(s.drop_first())
    } else {
        s
    }
}

/// `s` without its trailing white space.
pub open spec fn trim_end_spec(s: Seq<char>) -> Seq<char>
    decreases s.len(),
{
    if s.len() > 0 && is_white_space(s.last()) {
        trim_end_spec(s.drop_last())
    } else {
        s
    }
}

/// `s` without leading and trailing white space, as `str::trim` gives it.
pub open spec fn trim_spec(s: Seq<char>) -> Seq<char> {
    trim_end_spec(trim_start_spec(s))
}

/// The character that ASCII lower-casing maps `c` to, as a code point.
pub open spec fn ascii_fold(c: char) -> int {
    if 'A' <= c && c <= 'Z' {
        c as int + 32
    } else {
        c as int
    }
}

/// `a` and `b` are equal once ASCII letters are lower-cased, as
/// `str::eq_ignore_ascii_case` decides.
pub open spec fn eq_ignore_ascii_case_spec(a: Seq<char>, b: Seq<char>) -> bool {
    &&& a.len() == b.len()
    &&& forall|i: int| 0 <= i < a.len() ==> ascii_fold(#[trigger] a[i]) == ascii_fold(b[i])
}

/// Decides `is_white_space`.
pub fn is_white_space_char(c: char) -> (res: bool)
    ensures
        res == is_white_space(c),
{
    ('\u{9}' <= c && c <= '\u{d}') || c == ' ' || c == '\u{85}' || c == '\u{a0}' || c == '\u{1680}'
        || ('\u{2000}' <= c && c <= '\u{200a}') || c == '\u{2028}' || c == '\u{2029}' || c
        == '\u{202f}' || c == '\u{205f}' || c == '\u{3000}'
}

/// Dropping leading white space one character at a time reaches the same result.
proof fn lemma_trim_start_skip(s: Seq<char>, i: int)
    requires
        0 <= i < s.len(),
        is_white_space(s[i]),
    ensures
        trim_start_spec(s.skip(i)) == trim_start_spec(s.skip(i + 1)),
{
    assert(s.skip(i).drop_first() =~= s.skip(i + 1));
}

/// Dropping trailing white space one character at a time reaches the same result.
proof fn lemma_trim_end_take(s: Seq<char>, j: int)
    requires
        0 < j <= s.len(),
        is_white_space(s[j - 1]),
    ensures
        trim_end_spec(s.take(j)) == trim_end_spec(s.take(j - 1)),
{
    assert(s.take(j).drop_last() =~= s.take(j - 1));
}

/// Index of the first character of `s@` that is not white space, or its length.
fn trim_start_index(s: &str) -> (i: usize)
    ensures
        i <= s@.len(),
        s@.skip(i as int) == trim_start_spec(s@),
{
    let n = s.unicode_len();
    let mut i: usize = 0;
    assert(s@.skip(0) =~= s@);
    while i < n && is_white_space_char(s.get_char(i))
        invariant
            n == s@.len(),
            i <= n,
            trim_start_spec(s@.skip(i as int)) == trim_start_spec(s@),
        decreases n - i,
    {
        proof {
            lemma_trim_start_skip(s@, i as int);
        }
        i = i + 1;
    }
    proof {
        assert(s@.skip(0) =~= s@);
        let rest = s@.skip(i as int);
        if i < n {
            assert(rest[0] == s@[i as int]);
        } else {
            assert(rest.len() == 0);
        }
    }
    i
}

/// Index just past the last character of `s@[start..]` that is not white space,
/// or `start`.
fn trim_end_index(s: &str, start: usize) -> (j: usize)
    requires
        start <= s@.len(),
    ensures
        start <= j <= s@.len(),
        s@.subrange(start as int, j as int) == trim_end_spec(s@.skip(start as int)),
{
    let n = s.unicode_len();
    let ghost t = s@.skip(start as int);
    let mut j: usize = n;
    assert(t.take(n - start) =~= t);
    while j > start && is_white_space_char(s.get_char(j - 1))
        invariant
            n == s@.len(),
            start <= j <= n,
            t == s@.skip(start as int),
            trim_end_spec(t.take(j - start)) == trim_end_spec(t),
        decreases j,
    {
        proof {
            assert(t[j - start - 1] == s@[j - 1]);
            lemma_trim_end_take(t, j - start);
        }
        j = j - 1;
    }
    proof {
        assert(t.take(n - start) =~= t);
        let kept = t.take(j - start);
        assert(kept =~= s@.subrange(start as int, j as int));
        if j > start {
            assert(kept.last() == s@[j - 1]);
        }
    }
    j
}

/// `s` without leading and trailing white space.
pub fn trim(s: &str) -> (res: &str)
    ensures
        res@ == trim_spec(s@),
{
    let i = trim_start_index(s);
    let j = trim_end_index(s, i);
    s.substring_char(i, j)
}

/// `s` without trailing white space.
pub fn trim_end(s: &str) -> (res: &str)
    ensures
        res@ == trim_end_spec(s@),
{
    let j = trim_end_index(s, 0);
    proof {
        assert(s@.skip(0) =~= s@);
    }
    s.substring_char(0, j)
}

/// Code point of `c` after ASCII lower-casing.
fn ascii_fold_char(c: char) -> (res: u32)
    ensures
        res == ascii_fold(c),
{
    if 'A' <= c && c <= 'Z' {
        (c as u32) + 32
    } else {
        c as u32
    }
}

/// Whether `a` and `b` are equal once ASCII letters are lower-cased.
pub fn eq_ignore_ascii_case(a: &str, b: &str) -> (res: bool)
    ensures
        res == eq_ignore_ascii_case_spec(a@, b@),
{
    let n = a.unicode_len();
    if n != b.unicode_len() {
        return false;
    }
    let mut i: usize = 0;
    while i < n
        invariant
            n == a@.len(),
            n == b@.len(),
            i <= n,
            forall|k: int| 0 <= k < i ==> ascii_fold(#[trigger] a@[k]) == ascii_fold(b@[k]),
        decreases n - i,
    {
        if ascii_fold_char(a.get_char(i)) != ascii_fold_char(b.get_char(i)) {
            return false;
        }
        i = i + 1;
    }
    true
}

/// Leading white space is removed whatever follows it.
pub proof fn lemma_trim_start_white_prefix(p: Seq<char>, x: Seq<char>)
    requires
        all_white_space(p),
    ensures
        trim_start_spec(p + x) == trim_start_spec(x),
    decreases p.len(),
{
    if p.len() > 0 {
        assert((p + x)[0] == p[0]);
        assert((p + x).drop_first() =~= p.drop_first() + x);
        lemma_trim_start_white_prefix(p.drop_first(), x);
    } else {
        assert(p + x =~= x);
    }
}

/// Once a non-white character is reached, what follows is kept as it is.
pub proof fn lemma_trim_start_append(x: Seq<char>, y: Seq<char>)
    requires
        trim_start_spec(x).len() > 0,
    ensures
        trim_start_spec(x + y) == trim_start_spec(x) + y,
    decreases x.len(),
{
    if x.len() > 0 && is_white_space(x[0]) {
        assert((x + y)[0] == x[0]);
        assert((x + y).drop_first() =~= x.drop_first() + y);
        lemma_trim_start_append(x.drop_first(), y);
    } else {
        assert(x.len() > 0);
        assert((x + y)[0] == x[0]);
    }
}

/// A part that is all white space is skipped over when trimming the front.
pub proof fn lemma_trim_start_skip_blank(x: Seq<char>, y: Seq<char>)
    requires
        trim_start_spec(x).len() == 0,
    ensures
        trim_start_spec(x + y) == trim_start_spec(y),
    decreases x.len(),
{
    if x.len() == 0 {
        assert(x + y =~= y);
    } else {
        assert(is_white_space(x[0]));
        assert((x + y)[0] == x[0]);
        assert((x + y).drop_first() =~= x.drop_first() + y);
        lemma_trim_start_skip_blank(x.drop_first(), y);
    }
}

/// Trailing white space is removed whatever precedes it.
pub proof fn lemma_trim_end_white_suffix(x: Seq<char>, q: Seq<char>)
    requires
        all_white_space(q),
    ensures
        trim_end_spec(x + q) == trim_end_spec(x),
    decreases q.len(),
{
    if q.len() > 0 {
        assert((x + q).last() == q.last());
        assert((x + q).drop_last() =~= x + q.drop_last());
        lemma_trim_end_white_suffix(x, q.drop_last());
    } else {
        assert(x + q =~= x);
    }
}

/// White space before and after a text does not change what trimming leaves.
pub proof fn lemma_trim_surrounding(pre: Seq<char>, s: Seq<char>, post: Seq<char>)
    requires
        all_white_space(pre),
        all_white_space(post),
    ensures
        trim_spec(pre + s + post) == trim_spec(s),
{
    assert(pre + s + post =~= pre + (s + post));
    lemma_trim_start_white_prefix(pre, s + post);
    if trim_start_spec(s).len() > 0 {
        lemma_trim_start_append(s, post);
        lemma_trim_end_white_suffix(trim_start_spec(s), post);
    } else {
        lemma_trim_start_skip_blank(s, post);
        lemma_trim_start_white_prefix(post, Seq::empty());
        assert(post + Seq::<char>::empty() =~= post);
    }
}

/// A white-space character folds only onto itself.
pub proof fn lemma_white_space_fold(a: char, b: char)
    requires
        ascii_fold(a) == ascii_fold(b),
    ensures
        is_white_space(a) ==> a == b,
        is_white_space(b) ==> a == b,
{
}

/// Trimming the front keeps two texts equal up to ASCII case.
pub proof fn lemma_trim_start_fold(a: Seq<char>, b: Seq<char>)
    requires
        eq_ignore_ascii_case_spec(a, b),
    ensures
        eq_ignore_ascii_case_spec(trim_start_spec(a), trim_start_spec(b)),
    decreases a.len(),
{
    if a.len() > 0 {
        lemma_white_space_fold(a[0], b[0]);
        if is_white_space(a[0]) {
            let a1 = a.drop_first();
            let b1 = b.drop_first();
            assert forall|i: int| 0 <= i < a1.len() implies ascii_fold(#[trigger] a1[i]) == ascii_fold(
                b1[i],
            ) by {
                assert(a1[i] == a[i + 1]);
                assert(b1[i] == b[i + 1]);
            }
            lemma_trim_start_fold(a1, b1);
        }
    }
}

/// Trimming the back keeps two texts equal up to ASCII case.
pub proof fn lemma_trim_end_fold(a: Seq<char>, b: Seq<char>)
    requires
        eq_ignore_ascii_case_spec(a, b),
    ensures
        eq_ignore_ascii_case_spec(trim_end_spec(a), trim_end_spec(b)),
    decreases a.len(),
{
    if a.len() > 0 {
        let k = a.len() - 1;
        lemma_white_space_fold(a[k], b[k]);
        if is_white_space(a.last()) {
            let a1 = a.drop_last();
            let b1 = b.drop_last();
            assert forall|i: int| 0 <= i < a1.len() implies ascii_fold(#[trigger] a1[i]) == ascii_fold(
                b1[i],
            ) by {
                assert(a1[i] == a[i]);
                assert(b1[i] == b[i]);
            }
            lemma_trim_end_fold(a1, b1);
        }
    }
}

/// Trimming keeps two texts equal up to ASCII case.
pub proof fn lemma_trim_fold(a: Seq<char>, b: Seq<char>)
    requires
        eq_ignore_ascii_case_spec(a, b),
    ensures
        eq_ignore_ascii_case_spec(trim_spec(a), trim_spec(b)),
{
    lemma_trim_start_fold(a, b);
    lemma_trim_end_fold(trim_start_spec(a), trim_start_spec(b));
}

/// Where trimming the front stops: the first character that is not white space.
proof fn lemma_trim_start_stop(s: Seq<char>) -> (k: int)
    ensures
        0 <= k <= s.len(),
        trim_start_spec(s) == s.skip(k),
        forall|i: int| 0 <= i < k ==> is_white_space(#[trigger] s[i]),
        k < s.len() ==> !is_white_space(s[k]),
    decreases s.len(),
{
    if s.len() > 0 && is_white_space(s[0]) {
        let rest = s.drop_first();
        let k1 = lemma_trim_start_stop(rest);
        assert(rest.skip(k1) =~= s.skip(k1 + 1));
        assert forall|i: int| 0 <= i < k1 + 1 implies is_white_space(#[trigger] s[i]) by {
            if i > 0 {
                assert(s[i] == rest[i - 1]);
            }
        }
        k1 + 1
    } else {
        assert(s.skip(0) =~= s);
        0
    }
}

/// Where trimming the back stops: just past the last character that is not
/// white space.
proof fn lemma_trim_end_stop(s: Seq<char>) -> (j: int)
    ensures
        0 <= j <= s.len(),
        trim_end_spec(s) == s.take(j),
        forall|i: int| j <= i < s.len() ==> is_white_space(#[trigger] s[i]),
        j > 0 ==> !is_white_space(s[j - 1]),
    decreases s.len(),
{
    if s.len() > 0 && is_white_space(s.last()) {
        let rest = s.drop_last();
        let j1 = lemma_trim_end_stop(rest);
        assert(rest.take(j1) =~= s.take(j1));
        assert forall|i: int| j1 <= i < s.len() implies is_white_space(#[trigger] s[i]) by {
            if i < s.len() - 1 {
                assert(s[i] == rest[i]);
            }
        }
        j1
    } else {
        assert(s.take(s.len() as int) =~= s);
        s.len() as int
    }
}

/// Trimming keeps a contiguous stretch of the text, drops only white space
/// before and after it, and leaves no white space at either end of it.
pub proof fn law_trim_keeps_inner_text(s: Seq<char>)
    ensures
        exists|i: int, j: int|
            {
                &&& 0 <= i <= j <= s.len()
                &&& trim_spec(s) == s.subrange(i, j)
                &&& forall|k: int| 0 <= k < i ==> is_white_space(#[trigger] s[k])
                &&& forall|k: int| j <= k < s.len() ==> is_white_space(#[trigger] s[k])
                &&& i < j ==> !is_white_space(s[i]) && !is_white_space(s[j - 1])
            },
{
    let i = lemma_trim_start_stop(s);
    let rest = s.skip(i);
    let jr = lemma_trim_end_stop(rest);
    let j = i + jr;
    assert(rest.take(jr) =~= s.subrange(i, j));
    assert forall|k: int| j <= k < s.len() implies is_white_space(#[trigger] s[k]) by {
        assert(s[k] == rest[k - i]);
    }
    if i < j {
        assert(s[j - 1] == rest[jr - 1]);
    }
}

/// Two characters fold to the same one exactly when they are equal or one is
/// the upper-case ASCII letter of the other.
proof fn lemma_fold_pair(x: char, y: char)
    ensures
        ascii_fold(x) == ascii_fold(y) <==> (x == y || ('A' <= x && x <= 'Z' && y as int == x as int
            + 32) || ('A' <= y && y <= 'Z' && x as int == y as int + 32)),
{
}

/// Comparing without regard to ASCII case accepts exactly the texts of equal
/// length whose characters agree one by one, or differ only as the upper- and
/// lower-case forms of an ASCII letter.
pub proof fn law_eq_ignore_ascii_case_chars(a: Seq<char>, b: Seq<char>)
    ensures
        eq_ignore_ascii_case_spec(a, b) <==> {
            &&& a.len() == b.len()
            &&& forall|i: int|
                0 <= i < a.len() ==> {
                    ||| #[trigger] a[i] == b[i]
                    ||| ('A' <= a[i] && a[i] <= 'Z' && b[i] as int == a[i] as int + 32)
                    ||| ('A' <= b[i] && b[i] <= 'Z' && a[i] as int == b[i] as int + 32)
                }
        },
{
    assert forall|i: int| 0 <= i < a.len() && i < b.len() implies (ascii_fold(#[trigger] a[i])
        == ascii_fold(b[i]) <==> (a[i] == b[i] || ('A' <= a[i] && a[i] <= 'Z' && b[i] as int
        == a[i] as int + 32) || ('A' <= b[i] && b[i] <= 'Z' && a[i] as int == b[i] as int
        + 32))) by {
        lemma_fold_pair(a[i], b[i]);
    }
}

} // verus!
