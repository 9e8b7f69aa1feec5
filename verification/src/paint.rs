//! Colouring of report words for a terminal.

use owo_colors::OwoColorize;
use vstd::prelude::*;

verus! {

/// What a piece of the report says about the run, which decides its colour.
#[derive(Clone, Copy, Debug, PartialEq, Eq)]
pub enum Tone {
    /// A test or the whole run passed: green.
    Pass,
    /// A test or the whole run failed: red.
    Fail,
    /// A warning label: bold yellow.
    Warning,
}

/// Whether the report carries colour codes.
#[derive(Clone, Copy, Debug, PartialEq, Eq)]
pub enum Palette {
    /// The bare words.
    Plain,
    /// ANSI escape sequences around the coloured words.
    Ansi,
}

/// `text` between the escape sequence that switches a rendition on and the
/// one that switches it off again.
pub open spec fn wrapped(on: Seq<char>, text: Seq<char>, off: Seq<char>) -> Seq<char> {
    on + text + off
}

/// `text` as it is written out for `tone` under `palette`.
pub open spec fn painted(tone: Tone, text: Seq<char>, palette: Palette) -> Seq<char> {
    match palette {
        Palette::Plain => text,
        Palette::Ansi => match tone {
            Tone::Pass => wrapped("\x1b[32m"@, text, "\x1b[39m"@),
            Tone::Fail => wrapped("\x1b[31m"@, text, "\x1b[39m"@),
            Tone::Warning => wrapped(
                "\x1b[1m"@,
                wrapped("\x1b[33m"@, text, "\x1b[39m"@),
                "\x1b[0m"@,
            ),
        },
    }
}

/// `OwoColorize::green` on a string slice, written out with `{}`: the
/// foreground is set to green (SGR 32) before the text and back to the
/// default (SGR 39) after it.
#[verifier::external_body]
fn green(text: &str) -> (out: String)
    ensures
        out@ == wrapped("\x1b[32m"@, text@, "\x1b[39m"@),
{
    format!("{}", text.green())
}

/// `OwoColorize::red` on a string slice, written out with `{}`: the
/// foreground is set to red (SGR 31) before the text and back to the default
/// (SGR 39) after it.
#[verifier::external_body]
fn red(text: &str) -> (out: String)
    ensures
        out@ == wrapped("\x1b[31m"@, text@, "\x1b[39m"@),
{
    format!("{}", text.red())
}

/// `OwoColorize::yellow` on a string slice, written out with `{}`: the
/// foreground is set to yellow (SGR 33) before the text and back to the
/// default (SGR 39) after it.
#[verifier::external_body]
fn yellow(text: &str) -> (out: String)
    ensures
        out@ == wrapped("\x1b[33m"@, text@, "\x1b[39m"@),
{
    format!("{}", text.yellow())
}

/// `OwoColorize::bold` on a string slice, written out with `{}`: bold is
/// switched on (SGR 1) before the text and every rendition is reset (SGR 0)
/// after it.
#[verifier::external_body]
fn bold(text: &str) -> (out: String)
    ensures
        out@ == wrapped("\x1b[1m"@, text@, "\x1b[0m"@),
{
    format!("{}", text.bold())
}

/// Writes `text` out for `tone` under `palette`.
pub fn paint(tone: Tone, text: &str, palette: Palette) -> (out: String)
    ensures
        out@ == painted(tone, text@, palette),
{
    match palette {
        Palette::Plain => text.to_owned(),
        Palette::Ansi => match tone {
            Tone::Pass => green(text),
            Tone::Fail => red(text),
            Tone::Warning => {
                let inner = yellow(text);
                bold(inner.as_str())
            },
        },
    }
}

} // verus!
