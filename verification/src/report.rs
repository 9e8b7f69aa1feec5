//! The text of the report.
//!
//! Every piece of the report is defined here twice: as a sequence of
//! characters, which is what the contracts speak of, and as a function that
//! builds exactly that `String`.

use crate::outcome::Failure;
use crate::outcome::FailureView;
use crate::outcome::failure_views;
use crate::paint::Palette;
use crate::paint::Tone;
use crate::paint::paint;
use crate::paint::painted;
use vstd::prelude::*;

verus! {

/// The character of a single decimal digit.
pub open spec fn digit(d: nat) -> char {
    if d == 0 {
        '0'
    } else if d == 1 {
        '1'
    } else if d == 2 {
        '2'
    } else if d == 3 {
        '3'
    } else if d == 4 {
        '4'
    } else if d == 5 {
        '5'
    } else if d == 6 {
        '6'
    } else if d == 7 {
        '7'
    } else if d == 8 {
        '8'
    } else {
        '9'
    }
}

/// `n` in decimal, without sign or leading zeros.
pub open spec fn decimal(n: nat) -> Seq<char>
    decreases n,
{
    if n < 10 {
        seq![digit(n)]
    } else {
        decimal(n / 10).push(digit(n % 10))
    }
}

/// The line fragment that announces a test before it is called. It has no
/// line end: the verdict follows on the same line once the test is over.
pub open spec fn announcement(name: Seq<char>) -> Seq<char> {
    "test "@ + name + " ... "@
}

/// The rest of a test's line: `ok` or `FAILED`, and the line end.
pub open spec fn verdict(passed: bool, palette: Palette) -> Seq<char> {
    if passed {
        painted(Tone::Pass, "ok"@, palette) + "\n"@
    } else {
        painted(Tone::Fail, "FAILED"@, palette) + "\n"@
    }
}

/// The block that the report holds for one failure: a header with the
/// test's name, the message of its panic, and an empty line.
pub open spec fn failure_block(failure: FailureView, palette: Palette) -> Seq<char> {
    "---- "@ + failure.name + " panic ----\n"@ + painted(
        Tone::Fail,
        failure.payload.message(),
        palette,
    ) + "\n\n"@
}

/// The blocks of `failures`, one after the other in the order of the
/// sequence.
pub open spec fn failure_blocks(failures: Seq<FailureView>, palette: Palette) -> Seq<char>
    decreases failures.len(),
{
    if failures.len() == 0 {
        Seq::empty()
    } else {
        failure_blocks(failures.drop_last(), palette) + failure_block(failures.last(), palette)
    }
}

/// The verdict on the whole run, without a line end: the summary follows on
/// the same line.
pub open spec fn result_line(failed: bool, palette: Palette) -> Seq<char> {
    if failed {
        "test result: "@ + painted(Tone::Fail, "FAILED"@, palette)
    } else {
        "test result: "@ + painted(Tone::Pass, "ok"@, palette)
    }
}

/// The counts and the time taken, which end the line of the verdict.
pub open spec fn summary(passed: nat, failed: nat, elapsed: Seq<char>) -> Seq<char> {
    ". "@ + decimal(passed) + " passed; "@ + decimal(failed) + " failed; finished in "@ + elapsed
        + "\n"@
}

/// The part of the report that follows the last test: an empty line, the
/// failures if there are any, the verdict and the summary.
pub open spec fn closing(
    passed: nat,
    failures: Seq<FailureView>,
    elapsed: Seq<char>,
    palette: Palette,
) -> Seq<char> {
    if failures.len() > 0 {
        "\n"@ + "failures:\n\n"@ + failure_blocks(failures, palette) + result_line(true, palette)
            + summary(passed, failures.len(), elapsed)
    } else {
        "\n"@ + result_line(false, palette) + summary(passed, 0, elapsed)
    }
}

/// The line that opens a run, after an empty line.
pub open spec fn banner(count: nat) -> Seq<char> {
    "\nRunning "@ + decimal(count) + " tests...\n"@
}

/// What is said in place of a run where panics cannot be caught.
pub open spec fn unsupported_warning(palette: Palette) -> Seq<char> {
    "\n"@ + painted(Tone::Warning, "warning(winit-test)"@, palette)
        + ": tests cannot be run under miri\n"@
        + "    = See this issue for more information: https://github.com/notgull/winit-test/issues/2\n"@
        + "\n"@
}

fn digit_text(d: usize) -> (text: &'static str)
    requires
        d < 10,
    ensures
        text@ == seq![digit(d as nat)],
{
    proof {
        reveal_strlit("0");
        reveal_strlit("1");
        reveal_strlit("2");
        reveal_strlit("3");
        reveal_strlit("4");
        reveal_strlit("5");
        reveal_strlit("6");
        reveal_strlit("7");
        reveal_strlit("8");
        reveal_strlit("9");
    }
    let text = if d == 0 {
        "0"
    } else if d == 1 {
        "1"
    } else if d == 2 {
        "2"
    } else if d == 3 {
        "3"
    } else if d == 4 {
        "4"
    } else if d == 5 {
        "5"
    } else if d == 6 {
        "6"
    } else if d == 7 {
        "7"
    } else if d == 8 {
        "8"
    } else {
        "9"
    };
    text
}

/// Writes `n` in decimal.
pub fn decimal_text(n: usize) -> (text: String)
    ensures
        text@ == decimal(n as nat),
    decreases n,
{
    if n < 10 {
        digit_text(n).to_owned()
    } else {
        let mut text = decimal_text(n / 10);
        text.append(digit_text(n % 10));
        text
    }
}

/// Builds the announcement of the test called `name`.
pub fn announcement_text(name: &str) -> (text: String)
    ensures
        text@ == announcement(name@),
{
    let mut text = "test ".to_owned();
    text.append(name);
    text.append(" ... ");
    text
}

/// Builds the rest of a test's line.
pub fn verdict_text(passed: bool, palette: Palette) -> (text: String)
    ensures
        text@ == verdict(passed, palette),
{
    let mut text = if passed {
        paint(Tone::Pass, "ok", palette)
    } else {
        paint(Tone::Fail, "FAILED", palette)
    };
    text.append("\n");
    text
}

/// Builds the block of one failure.
pub fn failure_block_text(failure: &Failure, palette: Palette) -> (text: String)
    ensures
        text@ == failure_block(failure@, palette),
{
    let message = failure.payload.message();
    let shown = paint(Tone::Fail, message.as_str(), palette);
    let mut text = "---- ".to_owned();
    text.append(failure.name);
    text.append(" panic ----\n");
    text.append(shown.as_str());
    text.append("\n\n");
    text
}

/// Builds the blocks of `failures`, in the order of the vector.
pub fn failure_blocks_text(failures: &Vec<Failure>, palette: Palette) -> (text: String)
    ensures
        text@ == failure_blocks(failure_views(failures@), palette),
{
    let ghost all = failure_views(failures@);
    let mut text = String::new();
    let mut i: usize = 0;
    while i < failures.len()
        invariant
            i <= failures.len(),
            all == failure_views(failures@),
            text@ == failure_blocks(all.take(i as int), palette),
        decreases failures.len() - i,
    {
        let block = failure_block_text(&failures[i], palette);
        text.append(block.as_str());
        proof {
            let upto = all.take(i + 1);
            assert(upto.drop_last() =~= all.take(i as int));
        }
        i += 1;
    }
    assert(all.take(i as int) =~= all);
    text
}

/// Builds the verdict on the whole run.
pub fn result_line_text(failed: bool, palette: Palette) -> (text: String)
    ensures
        text@ == result_line(failed, palette),
{
    let word = if failed {
        paint(Tone::Fail, "FAILED", palette)
    } else {
        paint(Tone::Pass, "ok", palette)
    };
    let mut text = "test result: ".to_owned();
    text.append(word.as_str());
    text
}

/// Builds the counts and the time taken. `elapsed` is the time as it is to
/// be shown.
pub fn summary_text(passed: usize, failed: usize, elapsed: &str) -> (text: String)
    ensures
        text@ == summary(passed as nat, failed as nat, elapsed@),
{
    let passed_digits = decimal_text(passed);
    let failed_digits = decimal_text(failed);
    let mut text = ". ".to_owned();
    text.append(passed_digits.as_str());
    text.append(" passed; ");
    text.append(failed_digits.as_str());
    text.append(" failed; finished in ");
    text.append(elapsed);
    text.append("\n");
    text
}

/// Builds the part of the report that follows the last test.
pub fn closing_text(passed: usize, failures: &Vec<Failure>, elapsed: &str, palette: Palette) -> (text:
    String)
    ensures
        text@ == closing(passed as nat, failure_views(failures@), elapsed@, palette),
{
    let mut text = "\n".to_owned();
    if failures.len() > 0 {
        let blocks = failure_blocks_text(failures, palette);
        text.append("failures:\n\n");
        text.append(blocks.as_str());
    }
    let result = result_line_text(failures.len() > 0, palette);
    let counts = summary_text(passed, failures.len(), elapsed);
    text.append(result.as_str());
    text.append(counts.as_str());
    text
}

/// Builds the line that opens a run of `count` tests.
pub fn banner_text(count: usize) -> (text: String)
    ensures
        text@ == banner(count as nat),
{
    let digits = decimal_text(count);
    let mut text = "\nRunning ".to_owned();
    text.append(digits.as_str());
    text.append(" tests...\n");
    text
}

/// Builds what is said in place of a run where panics cannot be caught.
pub fn unsupported_warning_text(palette: Palette) -> (text: String)
    ensures
        text@ == unsupported_warning(palette),
{
    let label = paint(Tone::Warning, "warning(winit-test)", palette);
    let mut text = "\n".to_owned();
    text.append(label.as_str());
    text.append(": tests cannot be run under miri\n");
    text.append(
        "    = See this issue for more information: https://github.com/notgull/winit-test/issues/2\n",
    );
    text.append("\n");
    text
}

} // verus!
