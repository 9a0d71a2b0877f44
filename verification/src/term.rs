use vstd::prelude::*;

use crate::theme::Colour;
use crate::util::decimal;

verus! {

/// The parameters that select `colour` in a colour sequence.
pub open spec fn colour_code(colour: Colour) -> Seq<char> {
    match colour {
        Colour::Ansi(n) => "5;"@ + decimal(n as nat),
        Colour::Rgb(r, g, b) => "2;"@ + decimal(r as nat) + ";"@ + decimal(g as nat) + ";"@
            + decimal(b as nat),
        Colour::White => "5;7"@,
    }
}

/// The sequence that sets the foreground to `colour`.
pub open spec fn fg_code(colour: Colour) -> Seq<char> {
    "\x1B[38;"@ + colour_code(colour) + "m"@
}

/// The sequence that sets the background to `colour`.
pub open spec fn bg_code(colour: Colour) -> Seq<char> {
    "\x1B[48;"@ + colour_code(colour) + "m"@
}

/// Formats termion's `Fg` of the termion colour that `colour` stands for
/// (`AnsiValue`, `Rgb` or `White`). The contract gives the sequence that
/// termion writes for it: the introducer, `38;`, then `5;` and the palette
/// index or `2;` and the three channels in decimal, then `m`.
#[verifier::external_body]
pub(crate) fn fg_sequence(colour: Colour) -> (r: String)
    ensures
        r@ == fg_code(colour),
{
    match colour {
        Colour::Ansi(n) => format!("{}", termion::color::Fg(termion::color::AnsiValue(n))),
        Colour::Rgb(r, g, b) => format!("{}", termion::color::Fg(termion::color::Rgb(r, g, b))),
        Colour::White => format!("{}", termion::color::Fg(termion::color::White)),
    }
}

/// Formats termion's `Bg` of the termion colour that `colour` stands for.
/// The contract gives the sequence that termion writes for it: as for the
/// foreground, with `48;` in place of `38;`.
#[verifier::external_body]
pub(crate) fn bg_sequence(colour: Colour) -> (r: String)
    ensures
        r@ == bg_code(colour),
{
    match colour {
        Colour::Ansi(n) => format!("{}", termion::color::Bg(termion::color::AnsiValue(n))),
        Colour::Rgb(r, g, b) => format!("{}", termion::color::Bg(termion::color::Rgb(r, g, b))),
        Colour::White => format!("{}", termion::color::Bg(termion::color::White)),
    }
}

/// Formats termion's `Fg(Reset)`, which writes the sequence that restores
/// the default foreground.
#[verifier::external_body]
pub(crate) fn fg_reset() -> (r: String)
    ensures
        r@ == "\x1B[39m"@,
{
    format!("{}", termion::color::Fg(termion::color::Reset))
}

/// Formats termion's `Bg(Reset)`, which writes the sequence that restores
/// the default background.
#[verifier::external_body]
pub(crate) fn bg_reset() -> (r: String)
    ensures
        r@ == "\x1B[49m"@,
{
    format!("{}", termion::color::Bg(termion::color::Reset))
}

/// Formats termion's `Bold`, the sequence that switches bold text on.
#[verifier::external_body]
pub(crate) fn bold_on() -> (r: String)
    ensures
        r@ == "\x1B[1m"@,
{
    format!("{}", termion::style::Bold)
}

/// Formats termion's `NoBold`, the sequence that switches bold text off.
#[verifier::external_body]
pub(crate) fn bold_off() -> (r: String)
    ensures
        r@ == "\x1B[21m"@,
{
    format!("{}", termion::style::NoBold)
}

/// Formats termion's `Italic`, the sequence that switches italic text on.
#[verifier::external_body]
pub(crate) fn italic_on() -> (r: String)
    ensures
        r@ == "\x1B[3m"@,
{
    format!("{}", termion::style::Italic)
}

/// Formats termion's `NoItalic`, the sequence that switches italic text off.
#[verifier::external_body]
pub(crate) fn italic_off() -> (r: String)
    ensures
        r@ == "\x1B[23m"@,
{
    format!("{}", termion::style::NoItalic)
}

/// Formats termion's `Underline`, the sequence that switches underlining on.
#[verifier::external_body]
pub(crate) fn underline_on() -> (r: String)
    ensures
        r@ == "\x1B[4m"@,
{
    format!("{}", termion::style::Underline)
}

/// Formats termion's `NoUnderline`, the sequence that switches underlining off.
#[verifier::external_body]
pub(crate) fn underline_off() -> (r: String)
    ensures
        r@ == "\x1B[24m"@,
{
    format!("{}", termion::style::NoUnderline)
}

/// Formats termion's `Goto(1, 1)`, the sequence that moves the cursor to the
/// top left cell.
#[verifier::external_body]
pub(crate) fn cursor_home() -> (r: String)
    ensures
        r@ == "\x1B[1;1H"@,
{
    format!("{}", termion::cursor::Goto(1, 1))
}

/// Calls `String::push`, which appends one character to a string.
#[verifier::external_body]
pub(crate) fn push_char(text: &mut String, c: char)
    ensures
        final(text)@ == old(text)@.push(c),
{
    text.push(c)
}

} // verus!
