//! The styles of a row and their rendering as terminal colours.
//!
//! The colouring itself is done by the `colored` crate, which decides from
//! the environment of the process (and from an override that can be set at
//! any time) whether it emits escape sequences at all. What this module
//! states about a styled text therefore holds whichever way that decision
//! falls.

use colored::Colorize;
use vstd::prelude::*;

verus! {

/// The styles in which the fields of a row are shown.
#[derive(Clone, Copy, Debug, PartialEq, Eq, Structural)]
pub enum Style {
    /// The name of a directory: blue.
    DirName,
    /// The name of a file and the size of a directory: white.
    Neutral,
    /// The size of a file: yellow.
    FileSize,
    /// The modification time: bright cyan.
    Timestamp,
}

/// The style of the name of an entry.
pub open spec fn name_style(is_dir: bool) -> Style {
    if is_dir {
        Style::DirName
    } else {
        Style::Neutral
    }
}

/// The style of the size of an entry.
pub open spec fn size_style(is_dir: bool) -> Style {
    if is_dir {
        Style::Neutral
    } else {
        Style::FileSize
    }
}

/// The SGR colour code of a style.
pub open spec fn color_code(style: Style) -> Seq<char> {
    match style {
        Style::DirName => seq!['3', '4'],
        Style::Neutral => seq!['3', '7'],
        Style::FileSize => seq!['3', '3'],
        Style::Timestamp => seq!['9', '6'],
    }
}

/// The escape sequence that switches to the colour `code`.
pub open spec fn color_start(code: Seq<char>) -> Seq<char> {
    seq!['\x1b', '['] + code + seq!['m']
}

/// The escape sequence that switches all colouring off.
pub open spec fn color_reset() -> Seq<char> {
    seq!['\x1b', '[', '0', 'm']
}

/// Whether the reset sequence occurs somewhere in `text`.
pub open spec fn has_reset(text: Seq<char>) -> bool {
    exists|i: int|
        0 <= i && i + 4 <= text.len() && #[trigger] text.subrange(i, i + 4) == color_reset()
}

/// `text` with `start` put in again behind every reset sequence that it
/// holds, from left to right, so that what follows an inner reset is
/// coloured again. A text without a reset sequence is left as it is.
pub open spec fn restyled(text: Seq<char>, start: Seq<char>) -> Seq<char>
    decreases text.len(),
{
    if text.len() < 4 {
        text
    } else if text.subrange(0, 4) == color_reset() {
        color_reset() + start + restyled(text.skip(4), start)
    } else {
        seq![text[0]] + restyled(text.skip(1), start)
    }
}

/// Whether `out` is a rendering of `text` in the colour `code`.
///
/// With colouring off the rendering is the text itself. With colouring on
/// it is the start sequence of the colour, the text with the start sequence
/// put in again behind every inner reset, and the reset sequence. The
/// renderer asks more than once whether colouring is on, and the answer can
/// be switched in between: then the start sequence may be missing in front,
/// behind the inner resets, or both, while the reset sequence still ends
/// the rendering.
pub open spec fn is_painted(out: Seq<char>, text: Seq<char>, code: Seq<char>) -> bool {
    let start = color_start(code);
    let inner = restyled(text, start);
    ||| out == text
    ||| out == start + inner + color_reset()
    ||| out == start + text + color_reset()
    ||| out == inner + color_reset()
    ||| out == text + color_reset()
}

/// A text without a reset sequence is rendered as it is between the start
/// and the reset sequence.
pub proof fn lemma_restyled_plain(text: Seq<char>, start: Seq<char>)
    requires
        !has_reset(text),
    ensures
        restyled(text, start) == text,
    decreases text.len(),
{
    if text.len() >= 4 {
        let rest = text.skip(1);
        assert(text.subrange(0int, 0int + 4) != color_reset());
        assert forall|i: int| 0 <= i && i + 4 <= rest.len() implies #[trigger] rest.subrange(
            i,
            i + 4,
        ) != color_reset() by {
            assert(rest.subrange(i, i + 4) =~= text.subrange(i + 1, (i + 1) + 4));
        }
        lemma_restyled_plain(rest, start);
        assert(seq![text[0]] + rest =~= text);
    }
}

/// `text` rendered by `Colorize::blue` of the `colored` crate and the
/// `to_string` of the `ColoredString` it returns. The contract claims that
/// the result is a rendering of `text` in colour 34, in the sense of
/// [`is_painted`].
#[verifier::external_body]
fn paint_blue(text: &str) -> (out: String)
    ensures
        is_painted(out@, text@, seq!['3', '4']),
{
    text.blue().to_string()
}

/// `text` rendered by `Colorize::white` of the `colored` crate and the
/// `to_string` of the `ColoredString` it returns. The contract claims that
/// the result is a rendering of `text` in colour 37, in the sense of
/// [`is_painted`].
#[verifier::external_body]
fn paint_white(text: &str) -> (out: String)
    ensures
        is_painted(out@, text@, seq!['3', '7']),
{
    text.white().to_string()
}

/// `text` rendered by `Colorize::yellow` of the `colored` crate and the
/// `to_string` of the `ColoredString` it returns. The contract claims that
/// the result is a rendering of `text` in colour 33, in the sense of
/// [`is_painted`].
#[verifier::external_body]
fn paint_yellow(text: &str) -> (out: String)
    ensures
        is_painted(out@, text@, seq!['3', '3']),
{
    text.yellow().to_string()
}

/// `text` rendered by `Colorize::bright_cyan` of the `colored` crate and the
/// `to_string` of the `ColoredString` it returns. The contract claims that
/// the result is a rendering of `text` in colour 96, in the sense of
/// [`is_painted`].
#[verifier::external_body]
fn paint_bright_cyan(text: &str) -> (out: String)
    ensures
        is_painted(out@, text@, seq!['9', '6']),
{
    text.bright_cyan().to_string()
}

/// The style in which the name of an entry is shown.
pub fn style_of_name(is_dir: bool) -> (style: Style)
    ensures
        style == name_style(is_dir),
{
    if is_dir {
        Style::DirName
    } else {
        Style::Neutral
    }
}

/// The style in which the size of an entry is shown.
pub fn style_of_size(is_dir: bool) -> (style: Style)
    ensures
        style == size_style(is_dir),
{
    if is_dir {
        Style::Neutral
    } else {
        Style::FileSize
    }
}

/// Renders `text` in `style`.
pub fn paint(text: &str, style: Style) -> (out: String)
    ensures
        is_painted(out@, text@, color_code(style)),
{
    match style {
        Style::DirName => paint_blue(text),
        Style::Neutral => paint_white(text),
        Style::FileSize => paint_yellow(text),
        Style::Timestamp => paint_bright_cyan(text),
    }
}

} // verus!
