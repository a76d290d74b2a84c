//! Colouring of the action label, through yansi.
//!
//! yansi emits the escape codes only while painting is globally enabled, so a
//! painted label is either the bare text or the text framed by a colour code
//! and a reset; the contracts here admit both.
use vstd::prelude::*;

verus! {

/// The semantic colour of a label.
#[derive(Clone, Copy, Debug, PartialEq, Eq, Structural)]
pub enum Tone {
    /// An operation still running (yellow).
    Pending,
    /// A finished operation (green).
    Success,
    /// A failed operation (red).
    Failure,
    /// A warning message (yellow).
    Warning,
    /// An informational message (cyan).
    Info,
}

/// The digit of the ANSI foreground code `3x` for a tone.
pub open spec fn tone_code(tone: Tone) -> char {
    match tone {
        Tone::Pending => '3',
        Tone::Success => '2',
        Tone::Failure => '1',
        Tone::Warning => '3',
        Tone::Info => '6',
    }
}

/// The escape sequence that selects the foreground colour `3<code>`.
pub open spec fn ansi_open(code: char) -> Seq<char> {
    seq!['\x1b', '[', '3', code, 'm']
}

/// The escape sequence that resets all styling.
pub open spec fn ansi_reset() -> Seq<char> {
    seq!['\x1b', '[', '0', 'm']
}

/// `text` framed by the colour code of `tone` and a reset.
pub open spec fn framed(tone: Tone, text: Seq<char>) -> Seq<char> {
    ansi_open(tone_code(tone)) + text + ansi_reset()
}

/// `out` is what painting `text` in `tone` may give: the text itself while
/// painting is disabled, the framed text while it is enabled.
pub open spec fn painted(tone: Tone, text: Seq<char>, out: Seq<char>) -> bool {
    out == text || out == framed(tone, text)
}

/// Relies on yansi's `Paint::yellow` and its `Display`: the text, framed by
/// `ESC[33m` and `ESC[0m` when painting is enabled, bare otherwise.
#[verifier::external_body]
fn yellow(text: &str) -> (r: String)
    ensures
        r@ == text@ || r@ == ansi_open('3') + text@ + ansi_reset(),
{
    yansi::Paint::yellow(text).to_string()
}

/// Relies on yansi's `Paint::green` and its `Display`: the text, framed by
/// `ESC[32m` and `ESC[0m` when painting is enabled, bare otherwise.
#[verifier::external_body]
fn green(text: &str) -> (r: String)
    ensures
        r@ == text@ || r@ == ansi_open('2') + text@ + ansi_reset(),
{
    yansi::Paint::green(text).to_string()
}

/// Relies on yansi's `Paint::red` and its `Display`: the text, framed by
/// `ESC[31m` and `ESC[0m` when painting is enabled, bare otherwise.
#[verifier::external_body]
fn red(text: &str) -> (r: String)
    ensures
        r@ == text@ || r@ == ansi_open('1') + text@ + ansi_reset(),
{
    yansi::Paint::red(text).to_string()
}

/// Relies on yansi's `Paint::cyan` and its `Display`: the text, framed by
/// `ESC[36m` and `ESC[0m` when painting is enabled, bare otherwise.
#[verifier::external_body]
fn cyan(text: &str) -> (r: String)
    ensures
        r@ == text@ || r@ == ansi_open('6') + text@ + ansi_reset(),
{
    yansi::Paint::cyan(text).to_string()
}

/// Paints `text` in the colour of `tone`.
pub fn paint(tone: Tone, text: &str) -> (r: String)
    ensures
        painted(tone, text@, r@),
{
    match tone {
        Tone::Pending => yellow(text),
        Tone::Success => green(text),
        Tone::Failure => red(text),
        Tone::Warning => yellow(text),
        Tone::Info => cyan(text),
    }
}

} // verus!
