//! White space and trimming on sequences of characters.

use vstd::prelude::*;

verus! {

/// Whether `c` carries the Unicode property `White_Space`.
pub open spec fn is_space(c: char) -> bool {
    let n = c as u32;
    ||| 0x09 <= n <= 0x0D
    ||| n == 0x20
    ||| n == 0x85
    ||| n == 0xA0
    ||| n == 0x1680
    ||| 0x2000 <= n <= 0x200A
    ||| n == 0x2028
    ||| n == 0x2029
    ||| n == 0x202F
    ||| n == 0x205F
    ||| n == 0x3000
}

/// The first index at or after `from` that holds no white space, or the
/// length of `s` where only white space follows.
pub open spec fn skip_spaces(s: Seq<char>, from: int) -> int
    decreases s.len() - from,
{
    if 0 <= from < s.len() && is_space(s[from]) {
        skip_spaces(s, from + 1)
    } else {
        from
    }
}

/// The least end `e <= to` such that nothing but white space lies in `e..to`.
pub open spec fn drop_spaces(s: Seq<char>, to: int) -> int
    decreases to,
{
    if 0 < to <= s.len() && is_space(s[to - 1]) {
        drop_spaces(s, to - 1)
    } else {
        to
    }
}

/// `s` without its trailing white space.
pub open spec fn trim_end(s: Seq<char>) -> Seq<char> {
    s.take(drop_spaces(s, s.len() as int))
}

/// The start of the line that the index `k` lies in: the least start
/// `j <= k` such that no line feed lies in `j..k`.
pub open spec fn line_start(s: Seq<char>, k: int) -> int
    decreases k,
{
    if k <= 0 || s[k - 1] == '\n' {
        k
    } else {
        line_start(s, k - 1)
    }
}

/// `s` without its leading blank lines: the lines of white space only,
/// through their line feed, that come before the first line that holds
/// anything else. White space on that line stays; where `s` holds white
/// space only, its last line stays.
pub open spec fn without_blank_lines(s: Seq<char>) -> Seq<char> {
    s.skip(line_start(s, skip_spaces(s, 0)))
}

/// `s` without its leading blank lines and its trailing white space.
pub open spec fn text_body(s: Seq<char>) -> Seq<char> {
    trim_end(without_blank_lines(s))
}

/// `s` has no leading blank line and does not end in white space.
pub open spec fn is_settled(s: Seq<char>) -> bool {
    s.len() > 0 ==> !is_space(s.last()) && line_start(s, skip_spaces(s, 0)) == 0
}

/// Decides `is_space`.
pub fn is_space_char(c: char) -> (b: bool)
    ensures
        b == is_space(c),
{
    let n: u32 = c as u32;
    (0x09 <= n && n <= 0x0D) || n == 0x20 || n == 0x85 || n == 0xA0 || n == 0x1680 || (0x2000 <= n
        && n <= 0x200A) || n == 0x2028 || n == 0x2029 || n == 0x202F || n == 0x205F || n == 0x3000
}

/// What `skip_spaces` finds: only white space before it, none at it.
pub proof fn lemma_skip_spaces(s: Seq<char>, from: int)
    requires
        0 <= from <= s.len(),
    ensures
        from <= skip_spaces(s, from) <= s.len(),
        forall|i: int| from <= i < skip_spaces(s, from) ==> is_space(#[trigger] s[i]),
        skip_spaces(s, from) < s.len() ==> !is_space(s[skip_spaces(s, from)]),
    decreases s.len() - from,
{
    if from < s.len() && is_space(s[from]) {
        lemma_skip_spaces(s, from + 1);
    }
}

/// What `drop_spaces` finds: only white space after it, none just before it.
pub proof fn lemma_drop_spaces(s: Seq<char>, to: int)
    requires
        0 <= to <= s.len(),
    ensures
        0 <= drop_spaces(s, to) <= to,
        forall|i: int| drop_spaces(s, to) <= i < to ==> is_space(#[trigger] s[i]),
        drop_spaces(s, to) > 0 ==> !is_space(s[drop_spaces(s, to) - 1]),
    decreases to,
{
    if 0 < to && is_space(s[to - 1]) {
        lemma_drop_spaces(s, to - 1);
    }
}

/// What `line_start` finds: no line feed from it to `k`, one just before it
/// unless it is the start of `s`.
pub proof fn lemma_line_start(s: Seq<char>, k: int)
    requires
        0 <= k <= s.len(),
    ensures
        0 <= line_start(s, k) <= k,
        forall|i: int| line_start(s, k) <= i < k ==> #[trigger] s[i] != '\n',
        line_start(s, k) > 0 ==> s[line_start(s, k) - 1] == '\n',
    decreases k,
{
    if k > 0 && s[k - 1] != '\n' {
        lemma_line_start(s, k - 1);
    }
}

/// An index with only white space from `from` to it, and none at it, is
/// what `skip_spaces` finds.
pub proof fn lemma_skip_spaces_is(s: Seq<char>, from: int, r: int)
    requires
        0 <= from <= r <= s.len(),
        forall|i: int| from <= i < r ==> is_space(#[trigger] s[i]),
        r < s.len() ==> !is_space(s[r]),
    ensures
        skip_spaces(s, from) == r,
    decreases r - from,
{
    if from < r {
        assert(is_space(s[from]));
        lemma_skip_spaces_is(s, from + 1, r);
    }
}

/// An index with only white space from it to `to`, and none just before
/// it, is what `drop_spaces` finds.
pub proof fn lemma_drop_spaces_is(s: Seq<char>, to: int, e: int)
    requires
        0 <= e <= to <= s.len(),
        forall|i: int| e <= i < to ==> is_space(#[trigger] s[i]),
        e > 0 ==> !is_space(s[e - 1]),
    ensures
        drop_spaces(s, to) == e,
    decreases to - e,
{
    if e < to {
        assert(is_space(s[to - 1]));
        lemma_drop_spaces_is(s, to - 1, e);
    }
}

/// An index with no line feed from it to `k`, and one just before it
/// unless it is the start of `s`, is what `line_start` finds.
pub proof fn lemma_line_start_is(s: Seq<char>, k: int, j: int)
    requires
        0 <= j <= k <= s.len(),
        forall|i: int| j <= i < k ==> #[trigger] s[i] != '\n',
        j > 0 ==> s[j - 1] == '\n',
    ensures
        line_start(s, k) == j,
    decreases k - j,
{
    if j < k {
        assert(s[k - 1] != '\n');
        lemma_line_start_is(s, k - 1, j);
    }
}

/// The body of a text is settled and no longer than the text.
pub proof fn lemma_text_body(s: Seq<char>)
    ensures
        is_settled(text_body(s)),
        text_body(s).len() <= s.len(),
{
    let a = skip_spaces(s, 0);
    lemma_skip_spaces(s, 0);
    let start = line_start(s, a);
    lemma_line_start(s, a);
    let t = without_blank_lines(s);
    let e = drop_spaces(t, t.len() as int);
    lemma_drop_spaces(t, t.len() as int);
    let body = text_body(s);
    if e > 0 {
        // what stands before the end of the body is no white space, so the
        // white space that opens the line ends before it
        assert(t[e - 1] == s[start + e - 1]);
        assert(a - start < e) by {
            if a - start >= e {
                assert(is_space(s[start + e - 1]));
            }
        }
        assert(body.last() == t[e - 1]);
        assert forall|i: int| 0 <= i < a - start implies is_space(#[trigger] body[i]) by {
            assert(body[i] == s[start + i]);
        }
        assert(body[a - start] == s[a]);
        lemma_skip_spaces_is(body, 0, a - start);
        assert forall|i: int| 0 <= i < a - start implies #[trigger] body[i] != '\n' by {
            assert(body[i] == s[start + i]);
        }
        lemma_line_start_is(body, a - start, 0);
    }
}

/// The body of a settled text that is followed by one line feed is the
/// text.
pub proof fn lemma_settled_push_newline(s: Seq<char>)
    requires
        is_settled(s),
    ensures
        text_body(s.push('\n')) == s,
{
    let t = s.push('\n');
    if s.len() == 0 {
        assert(skip_spaces(t, 1) == 1);
        assert(skip_spaces(t, 0) == 1);
        assert(line_start(t, 1) == 1);
        assert(without_blank_lines(t) =~= s);
        assert(trim_end(s) =~= s);
    } else {
        let a = skip_spaces(s, 0);
        lemma_skip_spaces(s, 0);
        lemma_line_start(s, a);
        assert(a < s.len()) by {
            if a == s.len() {
                assert(is_space(s[s.len() - 1]));
            }
        }
        assert forall|i: int| 0 <= i < a implies is_space(#[trigger] t[i]) by {
            assert(t[i] == s[i]);
        }
        assert(t[a] == s[a]);
        lemma_skip_spaces_is(t, 0, a);
        assert forall|i: int| 0 <= i < a implies #[trigger] t[i] != '\n' by {
            assert(t[i] == s[i]);
        }
        lemma_line_start_is(t, a, 0);
        assert(without_blank_lines(t) =~= t);
        assert(t[t.len() - 2] == s.last());
        lemma_drop_spaces_is(t, t.len() as int, t.len() - 1);
        assert(trim_end(t) =~= s);
    }
}

/// Where `s` holds nothing but white space, its body is empty, and so is
/// what is left of it without its trailing white space.
pub proof fn lemma_body_of_blank(s: Seq<char>)
    requires
        skip_spaces(s, 0) == s.len(),
    ensures
        trim_end(s).len() == 0,
        text_body(s).len() == 0,
{
    lemma_skip_spaces(s, 0);
    lemma_drop_spaces(s, s.len() as int);
    lemma_line_start(s, s.len() as int);
    let t = without_blank_lines(s);
    lemma_drop_spaces(t, t.len() as int);
    let e = drop_spaces(t, t.len() as int);
    if e > 0 {
        assert(t[e - 1] == s[line_start(s, s.len() as int) + e - 1]);
    }
}

/// The characters of `s`, one element each.
pub fn chars_of(s: &str) -> (v: Vec<char>)
    ensures
        v@ == s@,
{
    let mut v: Vec<char> = Vec::new();
    for c in it: s.chars()
        invariant
            it.seq() == s@,
            v@ == it.seq().take(it.index()),
    {
        v.push(c);
        assert(it.seq().take(it.index() + 1) =~= it.seq().take(it.index()).push(c));
    }
    assert(v@ =~= s@);
    v
}

/// The end `b` of the window `lo..b` of `v` that is left when trailing
/// white space is cut from the window `lo..hi`.
pub(crate) fn trim_end_window(v: &Vec<char>, lo: usize, hi: usize) -> (b: usize)
    requires
        lo <= hi <= v.len(),
    ensures
        lo <= b <= hi,
        v@.subrange(lo as int, b as int) == trim_end(v@.subrange(lo as int, hi as int)),
{
    let ghost whole = v@.subrange(lo as int, hi as int);
    let mut b: usize = hi;
    while b > lo && is_space_char(v[b - 1])
        invariant
            lo <= b <= hi <= v.len(),
            whole == v@.subrange(lo as int, hi as int),
            drop_spaces(whole, whole.len() as int) == drop_spaces(whole, b - lo),
        decreases b - lo,
    {
        b = b - 1;
    }
    assert(v@.subrange(lo as int, b as int) =~= trim_end(whole));
    b
}

/// The window `a..b` of `v` that holds the body of the window `lo..hi`:
/// what is left without leading blank lines and trailing white space.
pub(crate) fn body_window(v: &Vec<char>, lo: usize, hi: usize) -> (w: (usize, usize))
    requires
        lo <= hi <= v.len(),
    ensures
        lo <= w.0 <= w.1 <= hi,
        v@.subrange(w.0 as int, w.1 as int) == text_body(v@.subrange(lo as int, hi as int)),
{
    let ghost whole = v@.subrange(lo as int, hi as int);
    let mut first: usize = lo;
    while first < hi && is_space_char(v[first])
        invariant
            lo <= first <= hi <= v.len(),
            whole == v@.subrange(lo as int, hi as int),
            skip_spaces(whole, 0) == skip_spaces(whole, first - lo),
        decreases hi - first,
    {
        first = first + 1;
    }
    let mut a: usize = first;
    while a > lo && v[a - 1] != '\n'
        invariant
            lo <= a <= first <= hi <= v.len(),
            whole == v@.subrange(lo as int, hi as int),
            line_start(whole, first - lo) == line_start(whole, a - lo),
        decreases a - lo,
    {
        a = a - 1;
    }
    assert(v@.subrange(a as int, hi as int) =~= without_blank_lines(whole));
    let b = trim_end_window(v, a, hi);
    (a, b)
}

} // verus!
