//! Text helpers on `str` and `String`.
use vstd::prelude::*;

verus! {

/// Whether the two texts are the same, character by character.
pub(crate) fn same_text(a: &str, b: &str) -> (r: bool)
    ensures
        r == (a@ == b@),
{
    let n = a.unicode_len();
    if n != b.unicode_len() {
        return false;
    }
    let mut i: usize = 0;
    while i < n
        invariant
            n == a@.len(),
            n == b@.len(),
            i <= n,
            forall|j: int| 0 <= j < i ==> a@[j] == b@[j],
        decreases n - i,
    {
        if a.get_char(i) != b.get_char(i) {
            return false;
        }
        i = i + 1;
    }
    assert(a@ =~= b@);
    true
}

/// The text of an optional `&str`.
pub open spec fn opt_str(o: Option<&str>) -> Option<Seq<char>> {
    match o {
        Some(s) => Some(s@),
        None => None,
    }
}

/// Whether an array element (by its text, when it is a string) is not the command.
pub fn keeps_element(text: Option<&str>, command: &str) -> (r: bool)
    ensures
        r == (opt_str(text) != Some(command@)),
{
    match text {
        Some(t) => !same_text(t, command),
        None => true,
    }
}

/// A copy of `s` as a `String`.
pub fn owned(s: &str) -> (r: String)
    ensures
        r@ == s@,
{
    String::from_str(s)
}

/// `a` followed by `b`.
pub fn joined(a: &str, b: &str) -> (r: String)
    ensures
        r@ == a@ + b@,
{
    let mut r = String::from_str(a);
    r.append(b);
    r
}

/// Unicode `White_Space`, which `char::is_whitespace` and `str::trim` use.
pub open spec fn is_white_space(c: char) -> bool {
    ||| '\u{9}' <= c <= '\u{d}'
    ||| c == ' '
    ||| c == '\u{85}'
    ||| c == '\u{a0}'
    ||| c == '\u{1680}'
    ||| '\u{2000}' <= c <= '\u{200a}'
    ||| c == '\u{2028}'
    ||| c == '\u{2029}'
    ||| c == '\u{202f}'
    ||| c == '\u{205f}'
    ||| c == '\u{3000}'
}

/// `char::is_whitespace`.
pub fn white_space(c: char) -> (r: bool)
    ensures
        r == is_white_space(c),
{
    ('\u{9}' <= c && c <= '\u{d}') || c == ' ' || c == '\u{85}' || c == '\u{a0}' || c == '\u{1680}'
        || ('\u{2000}' <= c && c <= '\u{200a}') || c == '\u{2028}' || c == '\u{2029}' || c
        == '\u{202f}' || c == '\u{205f}' || c == '\u{3000}'
}

/// The number of leading white-space characters of `s`.
pub open spec fn leading_space(s: Seq<char>) -> int
    decreases s.len(),
{
    if s.len() > 0 && is_white_space(s[0]) {
        1 + leading_space(s.drop_first())
    } else {
        0
    }
}

/// The number of trailing white-space characters of `s`.
pub open spec fn trailing_space(s: Seq<char>) -> int
    decreases s.len(),
{
    if s.len() > 0 && is_white_space(s.last()) {
        1 + trailing_space(s.drop_last())
    } else {
        0
    }
}

/// `s` without leading and trailing white space (`str::trim`).
pub open spec fn trimmed(s: Seq<char>) -> Seq<char> {
    let head = s.skip(leading_space(s));
    head.take(head.len() - trailing_space(head))
}

proof fn lemma_leading_space(s: Seq<char>, i: int)
    requires
        0 <= i <= s.len(),
        forall|j: int| 0 <= j < i ==> is_white_space(#[trigger] s[j]),
    ensures
        i < s.len() && !is_white_space(s[i]) ==> leading_space(s) == i,
        i == s.len() ==> leading_space(s) == i,
        leading_space(s) >= i,
    decreases i,
{
    lemma_space_bounds(s);
    if i > 0 {
        let t = s.drop_first();
        assert forall|j: int| 0 <= j < i - 1 implies is_white_space(#[trigger] t[j]) by {
            assert(t[j] == s[j + 1]);
        }
        assert(is_white_space(s[0]));
        lemma_leading_space(t, i - 1);
        assert(leading_space(s) == 1 + leading_space(t));
    }
}

proof fn lemma_trailing_space(s: Seq<char>, i: int)
    requires
        0 <= i <= s.len(),
        forall|j: int| s.len() - i <= j < s.len() ==> is_white_space(#[trigger] s[j]),
    ensures
        i < s.len() && !is_white_space(s[s.len() - 1 - i]) ==> trailing_space(s) == i,
        i == s.len() ==> trailing_space(s) == i,
        trailing_space(s) >= i,
    decreases i,
{
    lemma_space_bounds(s);
    if i > 0 {
        let t = s.drop_last();
        assert forall|j: int| t.len() - (i - 1) <= j < t.len() implies is_white_space(
            #[trigger] t[j],
        ) by {
            assert(t[j] == s[j]);
        }
        assert(is_white_space(s[s.len() - 1]));
        lemma_trailing_space(t, i - 1);
        assert(trailing_space(s) == 1 + trailing_space(t));
    }
}

proof fn lemma_space_bounds(s: Seq<char>)
    ensures
        0 <= leading_space(s) <= s.len(),
        0 <= trailing_space(s) <= s.len(),
    decreases s.len(),
{
    if s.len() > 0 {
        lemma_space_bounds(s.drop_first());
        lemma_space_bounds(s.drop_last());
    }
}

/// `str::trim`: `s` without its leading and trailing white space.
pub fn trim_text(s: &str) -> (r: String)
    ensures
        r@ == trimmed(s@),
{
    let n = s.unicode_len();
    let mut start: usize = 0;
    while start < n && white_space(s.get_char(start))
        invariant
            n == s@.len(),
            start <= n,
            forall|j: int| 0 <= j < start ==> is_white_space(#[trigger] s@[j]),
        decreases n - start,
    {
        start = start + 1;
    }
    proof {
        lemma_leading_space(s@, start as int);
        lemma_space_bounds(s@);
    }
    let ghost head = s@.skip(start as int);
    let mut end: usize = n;
    while end > start && white_space(s.get_char(end - 1))
        invariant
            n == s@.len(),
            start <= end <= n,
            head == s@.skip(start as int),
            forall|j: int| end <= j < n ==> is_white_space(#[trigger] s@[j]),
        decreases end,
    {
        end = end - 1;
    }
    proof {
        let k = n - end;
        assert forall|j: int| head.len() - k <= j < head.len() implies is_white_space(
            #[trigger] head[j],
        ) by {
            assert(head[j] == s@[j + start]);
        }
        lemma_trailing_space(head, k);
        if end > start {
            assert(head[head.len() - 1 - k] == s@[end - 1]);
        }
        lemma_space_bounds(head);
    }
    let r = s.substring_char(start, end);
    proof {
        assert(r@ =~= trimmed(s@));
    }
    owned(r)
}

} // verus!
