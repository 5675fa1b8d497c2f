//! Widths of text and padding with spaces.
//!
//! The width of a text is the number of its characters. A space is one
//! character, so padding a text with `n` spaces widens it by exactly `n`.

use vstd::prelude::*;
use vstd::string::*;

verus! {

/// The width of `text`: the number of its characters.
pub open spec fn width(text: Seq<char>) -> nat {
    text.len()
}

/// A run of `n` spaces.
pub open spec fn spaces(n: nat) -> Seq<char> {
    Seq::new(n, |i: int| ' ')
}

/// `text` followed by as many spaces as it takes to reach the width
/// `target`; `text` itself where it is already that wide or wider.
pub open spec fn pad_to(text: Seq<char>, target: nat) -> Seq<char> {
    if width(text) <= target {
        text + spaces((target - width(text)) as nat)
    } else {
        text
    }
}

/// Whether `text` begins with a dot, which marks a hidden entry.
pub open spec fn starts_with_dot(text: Seq<char>) -> bool {
    text.len() > 0 && text[0] == '.'
}

/// Padding reaches the target width exactly, keeps the text as a prefix and
/// adds nothing but spaces.
pub proof fn lemma_pad_to(text: Seq<char>, target: nat)
    requires
        width(text) <= target,
    ensures
        width(pad_to(text, target)) == target,
        pad_to(text, target).subrange(0, text.len() as int) == text,
        forall|i: int|
            text.len() <= i < pad_to(text, target).len() ==> pad_to(text, target)[i] == ' ',
        starts_with_dot(pad_to(text, target)) == starts_with_dot(text),
{
    assert(pad_to(text, target).subrange(0, text.len() as int) =~= text);
}

/// The width of `text`: the number of its characters.
pub fn char_len(text: &str) -> (n: usize)
    ensures
        n == width(text@),
{
    text.unicode_len()
}

/// Appends `count` spaces to `text`.
pub fn push_spaces(text: &mut String, count: usize)
    ensures
        final(text)@ == old(text)@ + spaces(count as nat),
{
    let mut done: usize = 0;
    while done < count
        invariant
            done <= count,
            text@ == old(text)@ + spaces(done as nat),
        decreases count - done,
    {
        proof {
            reveal_strlit(" ");
            assert(spaces((done + 1) as nat) =~= spaces(done as nat) + seq![' ']);
        }
        text.append(" ");
        done = done + 1;
    }
}

/// Pads `text` with spaces to one more than the width `widest`, so that at
/// least one space follows it.
pub fn pad_past(text: &mut String, widest: usize)
    requires
        width(old(text)@) <= widest,
    ensures
        final(text)@ == pad_to(old(text)@, (widest + 1) as nat),
{
    let len = char_len(text.as_str());
    push_spaces(text, widest - len);
    proof {
        reveal_strlit(" ");
        assert(spaces((widest - len + 1) as nat) =~= spaces((widest - len) as nat) + seq![' ']);
    }
    text.append(" ");
}

/// Whether `text` begins with a dot.
pub fn is_hidden_name(text: &str) -> (hidden: bool)
    ensures
        hidden == starts_with_dot(text@),
{
    if text.is_empty() {
        false
    } else {
        text.get_char(0) == '.'
    }
}

} // verus!
