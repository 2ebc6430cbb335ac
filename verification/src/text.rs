//! Whitespace in text: telling a blank text from one that says something,
//! trimming a text, and taking its first line.

use vstd::prelude::*;
use vstd::string::StrSliceExecFns;

verus! {

/// Whether `c` is a whitespace character, that is, has the Unicode property
/// `White_Space`. The standard library decides it; here it only has a name.
pub uninterp spec fn is_whitespace(c: char) -> bool;

/// A text is blank when every one of its characters is whitespace. The
/// empty text is blank. This is exactly the texts that are empty once
/// leading and trailing whitespace is removed.
pub open spec fn is_blank(text: Seq<char>) -> bool {
    forall|i: int| 0 <= i < text.len() ==> is_whitespace(#[trigger] text[i])
}

/// How many whitespace characters stand at the front of `text` before the
/// first character that is none, or the end.
pub open spec fn leading_blanks(text: Seq<char>) -> nat
    decreases text.len(),
{
    if text.len() > 0 && is_whitespace(text.first()) {
        1 + leading_blanks(text.drop_first())
    } else {
        0
    }
}

/// How many whitespace characters stand at the end of `text` behind the
/// last character that is none, or the start.
pub open spec fn trailing_blanks(text: Seq<char>) -> nat
    decreases text.len(),
{
    if text.len() > 0 && is_whitespace(text.last()) {
        1 + trailing_blanks(text.drop_last())
    } else {
        0
    }
}

/// `text` without the whitespace at its front and at its end. What stands
/// between two other characters stays.
pub open spec fn trimmed(text: Seq<char>) -> Seq<char> {
    if leading_blanks(text) == text.len() {
        Seq::empty()
    } else {
        text.subrange(leading_blanks(text) as int, text.len() - trailing_blanks(text))
    }
}

/// The part of `text` before its first line feed; all of it where it has
/// none.
pub open spec fn first_line(text: Seq<char>) -> Seq<char> {
    text.take(line_end(text) as int)
}

/// Where the first line of `text` ends: the place of its first line feed,
/// or its length where it has none.
pub open spec fn line_end(text: Seq<char>) -> nat
    decreases text.len(),
{
    if text.len() > 0 && text.first() != '\n' {
        1 + line_end(text.drop_first())
    } else {
        0
    }
}

/// `char::is_whitespace` of the standard library. Trusted, not proved: the
/// result is the `White_Space` property of `c`, which depends on `c` alone.
#[verifier::external_body]
fn char_is_whitespace(c: char) -> (white: bool)
    ensures
        white == is_whitespace(c),
{
    c.is_whitespace()
}

/// `text` without the whitespace at its front and at its end.
pub fn trim(text: &str) -> (inner: &str)
    ensures
        inner@ == trimmed(text@),
{
    let n: usize = text.unicode_len();
    // `start`: the first character that is no whitespace, or `n`.
    // `end`: behind the last character that is no whitespace, or 0.
    let mut start: usize = n;
    let mut end: usize = 0;
    let mut i: usize = 0;
    for c in it: text.chars()
        invariant
            it.seq() == text@,
            n == text@.len(),
            i == it.index(),
            end <= i,
            forall|j: int| end <= j < i ==> is_whitespace(#[trigger] text@[j]),
            end > 0 ==> !is_whitespace(text@[end - 1]),
            end == 0 ==> start == n,
            end > 0 ==> start < end && !is_whitespace(text@[start as int]),
            end > 0 ==> forall|j: int| 0 <= j < start ==> is_whitespace(#[trigger] text@[j]),
    {
        if !char_is_whitespace(c) {
            if end == 0 {
                start = i;
            }
            end = i + 1;
        }
        i += 1;
    }
    if end == 0 {
        proof {
            lemma_leading_blanks(text@, n as int);
        }
        text.substring_char(0, 0)
    } else {
        proof {
            lemma_leading_blanks(text@, start as int);
            lemma_trailing_blanks(text@, n - end);
        }
        text.substring_char(start, end)
    }
}

/// The part of `text` before its first line feed; all of it where it has
/// none.
pub fn first_line_of(text: &str) -> (line: &str)
    ensures
        line@ == first_line(text@),
{
    let n: usize = text.unicode_len();
    let mut end: usize = 0;
    for c in it: text.chars()
        invariant
            it.seq() == text@,
            n == text@.len(),
            end == it.index(),
            forall|j: int| 0 <= j < it.index() ==> #[trigger] text@[j] != '\n',
    {
        if c == '\n' {
            proof {
                lemma_line_end(text@, end as int);
            }
            return text.substring_char(0, end);
        }
        end += 1;
    }
    proof {
        lemma_line_end(text@, end as int);
    }
    text.substring_char(0, end)
}

/// Tells whether `text` is blank.
pub fn blank(text: &str) -> (empty: bool)
    ensures
        empty == is_blank(text@),
{
    for c in it: text.chars()
        invariant
            it.seq() == text@,
            forall|j: int| 0 <= j < it.index() ==> is_whitespace(#[trigger] text@[j]),
    {
        if !char_is_whitespace(c) {
            return false;
        }
    }
    true
}

/// The empty text is blank.
pub proof fn lemma_empty_is_blank()
    ensures
        is_blank(Seq::<char>::empty()),
{
}

/// If the first `k` characters of `text` are whitespace and the next one,
/// if there is one, is not, then `k` is the number of leading blanks.
pub proof fn lemma_leading_blanks(text: Seq<char>, k: int)
    requires
        0 <= k <= text.len(),
        forall|i: int| 0 <= i < k ==> is_whitespace(#[trigger] text[i]),
        k < text.len() ==> !is_whitespace(text[k]),
    ensures
        leading_blanks(text) == k,
    decreases k,
{
    if k > 0 {
        let rest = text.drop_first();
        assert forall|i: int| 0 <= i < k - 1 implies is_whitespace(#[trigger] rest[i]) by {
            assert(rest[i] == text[i + 1]);
        }
        lemma_leading_blanks(rest, k - 1);
    }
}

/// If the last `k` characters of `text` are whitespace and the one before
/// them, if there is one, is not, then `k` is the number of trailing blanks.
pub proof fn lemma_trailing_blanks(text: Seq<char>, k: int)
    requires
        0 <= k <= text.len(),
        forall|i: int| text.len() - k <= i < text.len() ==> is_whitespace(#[trigger] text[i]),
        k < text.len() ==> !is_whitespace(text[text.len() - k - 1]),
    ensures
        trailing_blanks(text) == k,
    decreases k,
{
    if k > 0 {
        let rest = text.drop_last();
        assert forall|i: int| rest.len() - (k - 1) <= i < rest.len() implies is_whitespace(
            #[trigger] rest[i],
        ) by {
            assert(rest[i] == text[i]);
        }
        lemma_trailing_blanks(rest, k - 1);
    }
}

/// If no character before place `k` of `text` is a line feed and the one at
/// `k`, if there is one, is, then the first line ends at `k`.
pub proof fn lemma_line_end(text: Seq<char>, k: int)
    requires
        0 <= k <= text.len(),
        forall|i: int| 0 <= i < k ==> #[trigger] text[i] != '\n',
        k < text.len() ==> text[k] == '\n',
    ensures
        line_end(text) == k,
    decreases k,
{
    if k > 0 {
        let rest = text.drop_first();
        assert forall|i: int| 0 <= i < k - 1 implies #[trigger] rest[i] != '\n' by {
            assert(rest[i] == text[i + 1]);
        }
        lemma_line_end(rest, k - 1);
    }
}

/// The leading blanks of a text are whitespace, they are followed by a
/// character that is none or by the end, and they are no more than the text
/// is long.
pub proof fn lemma_leading_blanks_bound(text: Seq<char>)
    ensures
        leading_blanks(text) <= text.len(),
        forall|i: int| 0 <= i < leading_blanks(text) ==> is_whitespace(#[trigger] text[i]),
        leading_blanks(text) < text.len() ==> !is_whitespace(text[leading_blanks(text) as int]),
    decreases text.len(),
{
    if text.len() > 0 && is_whitespace(text.first()) {
        let rest = text.drop_first();
        lemma_leading_blanks_bound(rest);
        assert forall|i: int| 0 <= i < leading_blanks(text) implies is_whitespace(
            #[trigger] text[i],
        ) by {
            if i > 0 {
                assert(text[i] == rest[i - 1]);
            }
        }
        if leading_blanks(text) < text.len() {
            assert(text[leading_blanks(text) as int] == rest[leading_blanks(rest) as int]);
        }
    }
}

/// A text is blank exactly if nothing is left of it once it is trimmed.
pub proof fn lemma_blank_iff_trims_to_nothing(text: Seq<char>)
    ensures
        is_blank(text) <==> trimmed(text).len() == 0,
{
    lemma_leading_blanks_bound(text);
    if is_blank(text) {
        lemma_leading_blanks(text, text.len() as int);
    } else {
        // Some character is no whitespace, so the leading blanks end before
        // the end, at such a character; the trailing blanks end behind it.
        let first = leading_blanks(text) as int;
        assert(first < text.len());
        lemma_trailing_blanks_stop(text, first);
    }
}

/// The trailing blanks of a text do not reach back to a character that is
/// no whitespace.
pub proof fn lemma_trailing_blanks_stop(text: Seq<char>, at: int)
    requires
        0 <= at < text.len(),
        !is_whitespace(text[at]),
    ensures
        trailing_blanks(text) < text.len() - at,
    decreases text.len(),
{
    if is_whitespace(text.last()) {
        let rest = text.drop_last();
        assert(at < rest.len());
        assert(rest[at] == text[at]);
        lemma_trailing_blanks_stop(rest, at);
    }
}

} // verus!
