//! The content rule on free text: a text that is empty once the white space
//! at its ends is taken away is blank, and a blank text is refused.

use vstd::prelude::*;
use vstd::std_specs::iter::IteratorSpec;

verus! {

/// Whether a character has the Unicode property `White_Space`.
pub open spec fn is_whitespace(c: char) -> bool {
    let n: u32 = c as u32;
    ||| 0x09 <= n <= 0x0d
    ||| n == 0x20
    ||| n == 0x85
    ||| n == 0xa0
    ||| n == 0x1680
    ||| 0x2000 <= n <= 0x200a
    ||| n == 0x2028
    ||| n == 0x2029
    ||| n == 0x202f
    ||| n == 0x205f
    ||| n == 0x3000
}

/// Whether nothing is left of a text once the white space at its ends is taken
/// away: every character of it, if it has any, is white space.
pub open spec fn is_blank(text: Seq<char>) -> bool {
    forall|i: int| 0 <= i < text.len() ==> is_whitespace(#[trigger] text[i])
}

/// A text without the white space at its start.
pub open spec fn trim_start(text: Seq<char>) -> Seq<char>
    decreases text.len(),
{
    if text.len() > 0 && is_whitespace(text.first()) {
        trim_start(text.drop_first())
    } else {
        text
    }
}

/// A text without the white space at its end.
pub open spec fn trim_end(text: Seq<char>) -> Seq<char>
    decreases text.len(),
{
    if text.len() > 0 && is_whitespace(text.last()) {
        trim_end(text.drop_last())
    } else {
        text
    }
}

/// A text without the white space at its two ends.
pub open spec fn trimmed(text: Seq<char>) -> Seq<char> {
    trim_end(trim_start(text))
}

/// Of a blank text nothing is left without the white space at its start; a
/// text that is not blank then starts with a character that is none.
proof fn lemma_trim_start(text: Seq<char>)
    ensures
        is_blank(text) ==> trim_start(text).len() == 0,
        !is_blank(text) ==> trim_start(text).len() > 0 && !is_whitespace(trim_start(text).first()),
    decreases text.len(),
{
    if text.len() > 0 && is_whitespace(text.first()) {
        let rest = text.drop_first();
        lemma_trim_start(rest);
        if is_blank(text) {
            assert forall|i: int| 0 <= i < rest.len() implies is_whitespace(#[trigger] rest[i]) by {
                assert(rest[i] == text[i + 1]);
            }
        } else {
            let i = choose|i: int| 0 <= i < text.len() && !is_whitespace(#[trigger] text[i]);
            assert(rest[i - 1] == text[i]);
        }
    } else if text.len() > 0 {
        assert(!is_whitespace(text[0]));
    }
}

/// A text that starts with a character that is no white space keeps it
/// without the white space at its end.
proof fn lemma_trim_end(text: Seq<char>)
    requires
        text.len() > 0,
        !is_whitespace(text.first()),
    ensures
        trim_end(text).len() > 0,
    decreases text.len(),
{
    if is_whitespace(text.last()) {
        assert(text.len() > 1);
        assert(text.drop_last().first() == text.first());
        lemma_trim_end(text.drop_last());
    }
}

/// A text is blank exactly when nothing is left of it once the white space at
/// its two ends is taken away.
pub proof fn lemma_blank_iff_trimmed_empty(text: Seq<char>)
    ensures
        is_blank(text) <==> trimmed(text).len() == 0,
{
    lemma_trim_start(text);
    if !is_blank(text) {
        lemma_trim_end(trim_start(text));
    }
}

/// Tells whether a character is white space.
pub fn whitespace(c: char) -> (b: bool)
    ensures
        b == is_whitespace(c),
{
    let n: u32 = c as u32;
    (0x09 <= n && n <= 0x0d) || n == 0x20 || n == 0x85 || n == 0xa0 || n == 0x1680 || (0x2000 <= n
        && n <= 0x200a) || n == 0x2028 || n == 0x2029 || n == 0x202f || n == 0x205f || n == 0x3000
}

/// Tells whether a text is blank.
pub fn blank(text: &str) -> (b: bool)
    ensures
        b == is_blank(text@),
{
    let chars = text.chars();
    for c in it: chars
        invariant
            it.seq() == text@,
            forall|j: int| 0 <= j < it.index() ==> is_whitespace(#[trigger] text@[j]),
    {
        if !whitespace(c) {
            return false;
        }
    }
    true
}

/// Tells whether two texts hold the same characters.
pub fn same_text(a: &str, b: &str) -> (same: bool)
    ensures
        same == (a@ == b@),
{
    let mut rest = b.chars();
    let chars = a.chars();
    for c in it: chars
        invariant
            it.seq() == a@,
            rest.obeys_prophetic_iter_laws(),
            it.index() <= b@.len(),
            rest.remaining() == b@.skip(it.index() as int),
            a@.take(it.index() as int) == b@.take(it.index() as int),
    {
        match rest.next() {
            Some(d) => {
                if c != d {
                    return false;
                }
                assert(a@.take(it.index() + 1) == a@.take(it.index() as int).push(c));
                assert(b@.take(it.index() + 1) == b@.take(it.index() as int).push(d));
            },
            None => {
                return false;
            },
        }
    }
    let last = rest.next();
    assert(a@.take(a@.len() as int) == a@);
    assert(b@.take(b@.len() as int) == b@);
    last.is_none()
}

} // verus!
