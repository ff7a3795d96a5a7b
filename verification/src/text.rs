//! Text as it comes back from a child process: decoding and trimming.

use vstd::prelude::*;
use vstd::utf8::*;

verus! {

/// Whether Unicode counts `c` as white space (`White_Space`).
pub open spec fn is_whitespace(c: char) -> bool {
    let n = c as u32;
    ||| 0x09 <= n <= 0x0D
    ||| n == 0x20
    ||| n == 0x85
    ||| n == 0xA0
    ||| n == 0x1680
    ||| 0x2000 <= n <= 0x200A
    ||| n == 0x2028
    ||| n == 0x2029
    ||| n == 0x202F
    ||| n == 0x205F
    ||| n == 0x3000
}

/// `s` without the whitespace it starts with.
pub open spec fn skip_whitespace(s: Seq<char>) -> Seq<char>
    decreases s.len(),
{
    if s.len() > 0 && is_whitespace(s[0]) {
        skip_whitespace(s.drop_first())
    } else {
        s
    }
}

/// `s` without the whitespace it ends with.
pub open spec fn drop_trailing_whitespace(s: Seq<char>) -> Seq<char>
    decreases s.len(),
{
    if s.len() > 0 && is_whitespace(s.last()) {
        drop_trailing_whitespace(s.drop_last())
    } else {
        s
    }
}

/// `s` without the whitespace at either end.
pub open spec fn trimmed(s: Seq<char>) -> Seq<char> {
    drop_trailing_whitespace(skip_whitespace(s))
}

/// Decodes bytes with `String::from_utf8`. Not proved: that the bytes are
/// accepted exactly where they are valid UTF-8, and that the text then holds
/// the characters they encode.
#[verifier::external_body]
pub(crate) fn text_from_utf8(bytes: Vec<u8>) -> (text: Option<String>)
    ensures
        text is Some <==> valid_utf8(bytes@),
        text matches Some(decoded) ==> decoded@ == decode_utf8(bytes@),
{
    String::from_utf8(bytes).ok()
}

/// Whether `c` is whitespace.
pub fn char_is_whitespace(c: char) -> (yes: bool)
    ensures
        yes == is_whitespace(c),
{
    let n: u32 = c as u32;
    (0x09 <= n && n <= 0x0D) || n == 0x20 || n == 0x85 || n == 0xA0 || n == 0x1680 || (0x2000 <= n
        && n <= 0x200A) || n == 0x2028 || n == 0x2029 || n == 0x202F || n == 0x205F || n == 0x3000
}

/// Skipping whitespace from `from` on gives the same as from `from + 1` on
/// where the character at `from` is whitespace.
proof fn lemma_skip_step(s: Seq<char>, from: int)
    requires
        0 <= from < s.len(),
        is_whitespace(s[from]),
    ensures
        skip_whitespace(s.subrange(from, s.len() as int)) == skip_whitespace(
            s.subrange(from + 1, s.len() as int),
        ),
{
    let rest = s.subrange(from, s.len() as int);
    assert(rest.drop_first() =~= s.subrange(from + 1, s.len() as int));
}

/// Dropping trailing whitespace up to `to` gives the same as up to `to - 1`
/// where the character before `to` is whitespace.
proof fn lemma_drop_step(s: Seq<char>, from: int, to: int)
    requires
        0 <= from < to <= s.len(),
        is_whitespace(s[to - 1]),
    ensures
        drop_trailing_whitespace(s.subrange(from, to)) == drop_trailing_whitespace(
            s.subrange(from, to - 1),
        ),
{
    let part = s.subrange(from, to);
    assert(part.drop_last() =~= s.subrange(from, to - 1));
}

/// Skipping whitespace from `from` on leads to `to`, where all between the
/// two is whitespace and the text ends at `to` or goes on with something
/// else.
proof fn lemma_skip_to(s: Seq<char>, from: int, to: int)
    requires
        0 <= from <= to <= s.len(),
        forall|j: int| from <= j < to ==> is_whitespace(#[trigger] s[j]),
        to == s.len() || !is_whitespace(s[to]),
    ensures
        skip_whitespace(s.subrange(from, s.len() as int)) == s.subrange(to, s.len() as int),
    decreases to - from,
{
    if from < to {
        lemma_skip_step(s, from);
        lemma_skip_to(s, from + 1, to);
    } else {
        let rest = s.subrange(to, s.len() as int);
        if rest.len() > 0 {
            assert(rest[0] == s[to]);
        }
    }
}

/// Dropping trailing whitespace from before `end` leads back to `to`, where
/// all between the two is whitespace and the part begins at `to` or has
/// something else before it.
proof fn lemma_drop_to(s: Seq<char>, from: int, to: int, end: int)
    requires
        0 <= from <= to <= end <= s.len(),
        forall|j: int| to <= j < end ==> is_whitespace(#[trigger] s[j]),
        to == from || !is_whitespace(s[to - 1]),
    ensures
        drop_trailing_whitespace(s.subrange(from, end)) == s.subrange(from, to),
    decreases end - to,
{
    if to < end {
        lemma_drop_step(s, from, end);
        lemma_drop_to(s, from, to, end - 1);
    } else {
        let part = s.subrange(from, to);
        if part.len() > 0 {
            assert(part.last() == s[to - 1]);
        }
    }
}

/// The trimmed text is the part between the first and the last character
/// that is not whitespace, both included: where all before `first` and all
/// from `end` on is whitespace, and the part between them neither begins nor
/// ends with whitespace, that part is the trimmed text.
pub proof fn lemma_trimmed_is_the_middle(s: Seq<char>, first: int, end: int)
    requires
        0 <= first <= end <= s.len(),
        forall|j: int| 0 <= j < first ==> is_whitespace(#[trigger] s[j]),
        forall|j: int| end <= j < s.len() ==> is_whitespace(#[trigger] s[j]),
        first < end ==> !is_whitespace(s[first]) && !is_whitespace(s[end - 1]),
    ensures
        trimmed(s) == s.subrange(first, end),
{
    let n = s.len() as int;
    assert(s.subrange(0, n) =~= s);
    if first < end {
        lemma_skip_to(s, 0, first);
        lemma_drop_to(s, first, end, n);
    } else {
        lemma_skip_to(s, 0, n);
        assert(s.subrange(n, n) =~= s.subrange(first, end));
    }
}

/// The text without the whitespace at either end.
pub fn trim(text: &str) -> (short: String)
    ensures
        short@ == trimmed(text@),
{
    let n: usize = text.unicode_len();
    let mut seen: usize = 0;
    let mut first: usize = 0;
    let mut end: usize = 0;
    for c in it: text.chars()
        invariant
            it.seq() == text@,
            n == text@.len(),
            seen == it.index(),
            first <= end <= seen,
            forall|j: int| 0 <= j < first ==> is_whitespace(#[trigger] text@[j]),
            forall|j: int| end <= j < seen ==> is_whitespace(#[trigger] text@[j]),
            first < end ==> !is_whitespace(text@[first as int]) && !is_whitespace(
                text@[end - 1],
            ),
            first == end ==> first == seen,
    {
        if char_is_whitespace(c) {
            if first == end {
                first = seen + 1;
                end = seen + 1;
            }
        } else {
            end = seen + 1;
        }
        seen += 1;
    }
    proof {
        lemma_trimmed_is_the_middle(text@, first as int, end as int);
    }
    text.substring_char(first, end).to_owned()
}

} // verus!
