//! Content normaliser: strips a wrapping code fence from a report and
//! canonicalises the white space around it.

use vstd::prelude::*;
use crate::text::{
    body_window, chars_of, drop_spaces, is_settled, is_space, is_space_char, lemma_body_of_blank,
    lemma_drop_spaces, lemma_drop_spaces_is, lemma_line_start, lemma_line_start_is,
    lemma_settled_push_newline, lemma_skip_spaces, lemma_text_body, line_start, skip_spaces,
    text_body, trim_end, trim_end_window, without_blank_lines,
};

verus! {

/// The marker of a code fence: three backticks.
pub open spec fn fence() -> Seq<char> {
    seq!['`', '`', '`']
}

/// Whether `c` can stand in the tag of an opening fence: it is neither
/// white space nor a backtick.
pub open spec fn is_tag_char(c: char) -> bool {
    !is_space(c) && c != '`'
}

/// The number of characters before the first line feed of `s`; the length
/// of `s` where it holds none.
pub open spec fn line_len(s: Seq<char>) -> int
    decreases s.len(),
{
    if s.len() == 0 || s[0] == '\n' {
        0
    } else {
        1 + line_len(s.drop_first())
    }
}

/// The first line of `s`, without its line feed.
pub open spec fn first_line(s: Seq<char>) -> Seq<char> {
    s.take(line_len(s))
}

/// Whether `l`, a line without trailing white space, is an opening
/// marker: the marker, then a tag, which is any run of characters, also
/// the empty one, that holds neither white space nor a backtick. The tag
/// is taken as it is written.
pub open spec fn is_opening_marker(l: Seq<char>) -> bool {
    &&& l.len() >= 3
    &&& l.take(3) == fence()
    &&& forall|i: int| 3 <= i < l.len() ==> is_tag_char(#[trigger] l[i])
}

/// Whether the first line of `s` is an opening fence: but for trailing
/// white space it is an opening marker.
pub open spec fn has_opening_fence(s: Seq<char>) -> bool {
    is_opening_marker(trim_end(first_line(s)))
}

/// `s` without its opening fence line, if it has one.
pub open spec fn without_opening_fence(s: Seq<char>) -> Seq<char> {
    if !has_opening_fence(s) {
        s
    } else if line_len(s) < s.len() {
        s.skip(line_len(s) + 1)
    } else {
        Seq::empty()
    }
}

/// The last line of `s`: what follows its last line feed.
pub open spec fn last_line(s: Seq<char>) -> Seq<char> {
    s.skip(line_start(s, s.len() as int))
}

/// Whether the last line of `s` is a closing fence: but for trailing white
/// space, the last line of `s` holds the marker alone.
pub open spec fn has_closing_fence(s: Seq<char>) -> bool {
    last_line(trim_end(s)) == fence()
}

/// `s` without its closing fence line and what follows it, if it has one.
pub open spec fn without_closing_fence(s: Seq<char>) -> Seq<char> {
    if has_closing_fence(s) {
        trim_end(s).take(trim_end(s).len() - 3)
    } else {
        s
    }
}

/// `s` with one opening and one closing fence line removed where present.
pub open spec fn unfenced(s: Seq<char>) -> Seq<char> {
    without_closing_fence(without_opening_fence(s))
}

/// The normal form of `s`: the text inside the fences, without its leading
/// blank lines and its trailing white space, followed by one line feed.
/// White space that opens the first line that is not blank stays.
pub open spec fn normalized(s: Seq<char>) -> Seq<char> {
    text_body(unfenced(s)).push('\n')
}

/// Whether `s` ends in one line feed with no other white space before it.
pub open spec fn ends_in_one_newline(s: Seq<char>) -> bool {
    &&& s.len() >= 1
    &&& s.last() == '\n'
    &&& s.len() >= 2 ==> !is_space(s[s.len() - 2])
}

/// What `line_len` finds: no line feed before it, one at it unless `s` ends.
pub proof fn lemma_line_len(s: Seq<char>)
    ensures
        0 <= line_len(s) <= s.len(),
        forall|i: int| 0 <= i < line_len(s) ==> #[trigger] s[i] != '\n',
        line_len(s) < s.len() ==> s[line_len(s)] == '\n',
    decreases s.len(),
{
    if s.len() > 0 && s[0] != '\n' {
        let rest = s.drop_first();
        lemma_line_len(rest);
        assert forall|i: int| 0 <= i < line_len(s) implies #[trigger] s[i] != '\n' by {
            if i > 0 {
                assert(s[i] == rest[i - 1]);
            }
        }
    }
}

/// An index that holds the first line feed of `s` is `line_len(s)`.
pub proof fn lemma_line_len_is(s: Seq<char>, p: int)
    requires
        0 <= p <= s.len(),
        forall|i: int| 0 <= i < p ==> #[trigger] s[i] != '\n',
        p < s.len() ==> s[p] == '\n',
    ensures
        line_len(s) == p,
{
    lemma_line_len(s);
    if line_len(s) < p {
        assert(s[line_len(s)] != '\n');
    } else if p < line_len(s) {
        assert(s[p] != '\n');
    }
}

/// Whether the marker stands at `i..i + 3` of `v`.
fn fence_at(v: &Vec<char>, i: usize) -> (b: bool)
    requires
        i + 3 <= v.len(),
    ensures
        b == (v@.subrange(i as int, i + 3) == fence()),
{
    let b = v[i] == '`' && v[i + 1] == '`' && v[i + 2] == '`';
    proof {
        let w = v@.subrange(i as int, i + 3);
        if b {
            assert(w =~= fence());
        } else {
            assert(w[0] == v@[i as int] && w[1] == v@[i + 1] && w[2] == v@[i + 2]);
        }
    }
    b
}

/// Whether the window `lo..hi` of `v` can be the tag of an opening fence.
fn tag_in(v: &Vec<char>, lo: usize, hi: usize) -> (b: bool)
    requires
        lo <= hi <= v.len(),
    ensures
        b == forall|j: int| lo <= j < hi ==> is_tag_char(#[trigger] v@[j]),
{
    let mut i: usize = lo;
    while i < hi
        invariant
            lo <= i <= hi <= v.len(),
            forall|j: int| lo <= j < i ==> is_tag_char(#[trigger] v@[j]),
        decreases hi - i,
    {
        if is_space_char(v[i]) || v[i] == '`' {
            assert(!is_tag_char(v@[i as int]));
            return false;
        }
        i = i + 1;
    }
    true
}

/// Where the text of `v` begins once an opening fence line is set aside.
fn opening_fence_end(v: &Vec<char>) -> (k: usize)
    ensures
        k <= v.len(),
        v@.subrange(k as int, v.len() as int) == without_opening_fence(v@),
{
    let n = v.len();
    let mut p: usize = 0;
    while p < n && v[p] != '\n'
        invariant
            p <= n == v.len(),
            forall|i: int| 0 <= i < p ==> #[trigger] v@[i] != '\n',
        decreases n - p,
    {
        p = p + 1;
    }
    proof {
        lemma_line_len_is(v@, p as int);
        assert(v@.subrange(0, n as int) =~= v@);
    }
    let e = trim_end_window(v, 0, p);
    let ghost line = trim_end(first_line(v@));
    assert(first_line(v@) =~= v@.subrange(0, p as int));
    assert(line.len() == e);
    let opens = e >= 3 && fence_at(v, 0) && tag_in(v, 3, e);
    proof {
        if e >= 3 {
            assert(line.take(3) =~= v@.subrange(0, 3));
            assert forall|j: int| 3 <= j < e implies line[j] == v@[j] by {}
        }
        assert(opens == is_opening_marker(line));
    }
    if !opens {
        0
    } else if p < n {
        assert(v@.subrange(p + 1, n as int) =~= v@.skip(p + 1));
        p + 1
    } else {
        assert(v@.subrange(n as int, n as int) =~= Seq::<char>::empty());
        n
    }
}

/// Where the text of the window `lo..` of `v` ends once a closing fence
/// line is set aside.
fn closing_fence_start(v: &Vec<char>, lo: usize) -> (hi: usize)
    requires
        lo <= v.len(),
    ensures
        lo <= hi <= v.len(),
        v@.subrange(lo as int, hi as int) == without_closing_fence(
            v@.subrange(lo as int, v.len() as int),
        ),
{
    let n = v.len();
    let ghost whole = v@.subrange(lo as int, n as int);
    let b = trim_end_window(v, lo, n);
    let ghost t = trim_end(whole);
    assert(t.len() == b - lo);
    let closes = b - lo >= 3 && fence_at(v, b - 3) && (b - 3 == lo || v[b - 4] == '\n');
    proof {
        let len = t.len() as int;
        lemma_line_start(t, len);
        if closes {
            assert(t.skip(len - 3) =~= v@.subrange(b - 3, b as int));
            assert forall|i: int| len - 3 <= i < len implies #[trigger] t[i] != '\n' by {
                assert(t[i] == t.skip(len - 3)[i - (len - 3)]);
            }
            if len > 3 {
                assert(t[len - 4] == v@[b - 4]);
            }
            lemma_line_start_is(t, len, len - 3);
        }
        if has_closing_fence(whole) {
            let start = line_start(t, len);
            assert(last_line(t).len() == 3);
            assert(start == len - 3);
            assert(t.skip(len - 3) =~= v@.subrange(b - 3, b as int));
            if start > 0 {
                assert(t[start - 1] == v@[b - 4]);
            }
        }
        assert(closes == has_closing_fence(whole));
    }
    if closes {
        assert(v@.subrange(lo as int, b - 3) =~= t.take(t.len() - 3));
        b - 3
    } else {
        n
    }
}

/// Normalises a report: removes the first line where it is an opening
/// fence (the marker, with or without a tag, white space after it
/// allowed), removes the last line where, but for white space after it, it
/// holds the marker alone, removes the blank lines that open what is left
/// and the white space that ends it, and ends the text with one line feed.
/// White space that opens the first line with text on it is kept. The empty
/// text becomes a single line feed.
pub fn normalize(raw: &str) -> (out: String)
    ensures
        out@ == normalized(raw@),
        ends_in_one_newline(out@),
{
    let chars = chars_of(raw);
    let lo = opening_fence_end(&chars);
    let hi = closing_fence_start(&chars, lo);
    let (a, b) = body_window(&chars, lo, hi);
    let mut out = String::from_str(raw.substring_char(a, b));
    out.append("\n");
    proof {
        reveal_strlit("\n");
        assert("\n"@ =~= seq!['\n']);
        assert(out@ =~= normalized(raw@));
        lemma_normalized_ends_in_one_newline(raw@);
    }
    out
}

/// A normal form ends in one line feed, with no other white space before it.
pub proof fn lemma_normalized_ends_in_one_newline(s: Seq<char>)
    ensures
        ends_in_one_newline(normalized(s)),
{
    let body = text_body(unfenced(s));
    lemma_text_body(unfenced(s));
    let n = normalized(s);
    if n.len() >= 2 {
        assert(n[n.len() - 2] == body.last());
    }
}

/// Whether `s` begins with an opening fence line or ends with a closing one.
pub open spec fn is_fenced(s: Seq<char>) -> bool {
    has_opening_fence(s) || has_closing_fence(s)
}

/// Whether `s` begins with a blank line while it holds more than white
/// space.
pub open spec fn has_leading_blank_line(s: Seq<char>) -> bool {
    skip_spaces(s, 0) < s.len() && line_start(s, skip_spaces(s, 0)) > 0
}

/// Removing the fences of a text that has some shortens it by three
/// characters or more; a text without fences is left as it is.
pub proof fn lemma_unfenced_len(s: Seq<char>)
    ensures
        is_fenced(s) ==> unfenced(s).len() + 3 <= s.len(),
        !is_fenced(s) ==> unfenced(s) == s,
{
    lemma_line_len(s);
    let u = without_opening_fence(s);
    if has_opening_fence(s) {
        let line = first_line(s);
        lemma_drop_spaces(line, line.len() as int);
        assert(trim_end(line).len() >= 3);
        assert(u.len() + 3 <= s.len());
    }
    let t = trim_end(u);
    lemma_drop_spaces(u, u.len() as int);
    lemma_line_start(t, t.len() as int);
    if has_closing_fence(u) {
        assert(last_line(t).len() == fence().len());
        assert(without_closing_fence(u).len() + 3 == t.len());
    }
    assert(unfenced(s).len() <= u.len());
}

/// Idempotence: normalising a normal form that has no fence line left
/// gives that normal form again.
pub proof fn lemma_normalize_idempotent(s: Seq<char>)
    requires
        !is_fenced(normalized(s)),
    ensures
        normalized(normalized(s)) == normalized(s),
{
    let body = text_body(unfenced(s));
    lemma_text_body(unfenced(s));
    lemma_unfenced_len(normalized(s));
    lemma_settled_push_newline(body);
}

/// A normal form that still has a fence line (the text held one fence
/// inside another) is no fixed point: normalising it again shortens it.
pub proof fn lemma_normalize_of_fenced_shrinks(s: Seq<char>)
    requires
        is_fenced(normalized(s)),
    ensures
        normalized(normalized(s)).len() < normalized(s).len(),
{
    let n = normalized(s);
    lemma_unfenced_len(n);
    lemma_text_body(unfenced(n));
}

/// An opening marker holds no line feed and does not end in white space.
pub proof fn lemma_opening_marker(marker: Seq<char>)
    requires
        is_opening_marker(marker),
    ensures
        forall|i: int| 0 <= i < marker.len() ==> #[trigger] marker[i] != '\n',
        trim_end(marker) == marker,
{
    let m = marker.len() as int;
    assert forall|i: int| 0 <= i < m implies !is_space(#[trigger] marker[i]) by {
        if i < 3 {
            assert(marker[i] == marker.take(3)[i]);
        } else {
            assert(is_tag_char(marker[i]));
        }
    }
    lemma_drop_spaces_is(marker, m, m);
    assert(trim_end(marker) =~= marker);
}

/// A text that opens with an opening marker on a line of its own is, without
/// its opening fence line, what follows that line.
pub proof fn lemma_without_opening_fence(marker: Seq<char>, rest: Seq<char>)
    requires
        is_opening_marker(marker),
    ensures
        without_opening_fence(marker + seq!['\n'] + rest) == rest,
{
    let s = marker + seq!['\n'] + rest;
    let m = marker.len() as int;
    lemma_opening_marker(marker);
    assert forall|i: int| 0 <= i < m implies #[trigger] s[i] != '\n' by {
        assert(s[i] == marker[i]);
    }
    assert(s[m] == '\n');
    lemma_line_len_is(s, m);
    assert(first_line(s) =~= marker);
    assert(s.skip(m + 1) =~= rest);
}

/// A text that ends with the marker on a line of its own is, without its
/// closing fence line, what stands before the marker.
pub proof fn lemma_without_closing_fence(body: Seq<char>)
    ensures
        without_closing_fence(body.push('\n') + fence()) == body.push('\n'),
{
    let u = body.push('\n') + fence();
    let len = u.len() as int;
    assert(u[len - 1] == '`' && u[len - 2] == '`' && u[len - 3] == '`' && u[len - 4] == '\n');
    lemma_drop_spaces_is(u, len, len);
    assert(trim_end(u) =~= u);
    lemma_line_start_is(u, len, len - 3);
    assert(last_line(u) =~= fence());
    assert(u.take(len - 3) =~= body.push('\n'));
}

/// A body without leading blank line and trailing white space, wrapped in
/// an opening fence line, with a tag or without, and a closing fence line,
/// normalises to the body and a line feed.
pub proof fn lemma_normalize_wrapped(marker: Seq<char>, body: Seq<char>)
    requires
        is_opening_marker(marker),
        is_settled(body),
    ensures
        normalized(marker + seq!['\n'] + body + seq!['\n'] + fence()) == body.push('\n'),
{
    let rest = body.push('\n') + fence();
    assert(marker + seq!['\n'] + body + seq!['\n'] + fence() =~= marker + seq!['\n'] + rest);
    lemma_without_opening_fence(marker, rest);
    lemma_without_closing_fence(body);
    lemma_settled_push_newline(body);
}

/// On a text without fences and without leading blank line, normalising
/// only replaces the trailing white space by one line feed.
pub proof fn lemma_normalize_unfenced(s: Seq<char>)
    requires
        !is_fenced(s),
        !has_leading_blank_line(s),
    ensures
        normalized(s) == trim_end(s).push('\n'),
{
    lemma_unfenced_len(s);
    lemma_skip_spaces(s, 0);
    lemma_line_start(s, skip_spaces(s, 0));
    if skip_spaces(s, 0) < s.len() {
        assert(without_blank_lines(s) =~= s);
    } else {
        lemma_body_of_blank(s);
        assert(text_body(s) =~= trim_end(s));
    }
}

/// A text with a leading blank line does not keep its start: its normal
/// form is shorter than the text without its trailing white space and one
/// line feed.
pub proof fn lemma_normalize_drops_blank_lines(s: Seq<char>)
    requires
        !is_fenced(s),
        has_leading_blank_line(s),
    ensures
        normalized(s).len() < trim_end(s).push('\n').len(),
{
    lemma_unfenced_len(s);
    let a = skip_spaces(s, 0);
    lemma_skip_spaces(s, 0);
    lemma_line_start(s, a);
    let start = line_start(s, a);
    let end = drop_spaces(s, s.len() as int);
    lemma_drop_spaces(s, s.len() as int);
    assert(a < end) by {
        if end <= a {
            assert(is_space(s[a]));
        }
    }
    let t = without_blank_lines(s);
    assert forall|i: int| end - start <= i < t.len() implies is_space(#[trigger] t[i]) by {
        assert(t[i] == s[start + i]);
    }
    assert(t[end - start - 1] == s[end - 1]);
    lemma_drop_spaces_is(t, t.len() as int, end - start);
}

} // verus!
