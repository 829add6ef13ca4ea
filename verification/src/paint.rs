//! Colored terminal text, written by the `owo-colors` and `ansi_term` crates.
use owo_colors::OwoColorize;
use vstd::prelude::*;

verus! {

/// An ANSI "select graphic rendition" sequence: ESC `[` code `m`.
pub open spec fn sgr(code: Seq<char>) -> Seq<char> {
    seq!['\x1b', '['] + code + seq!['m']
}

/// `owo-colors` foreground coloring: the color's code before the text, and
/// the code of the default foreground color (39) after it.
pub open spec fn owo_foreground(code: Seq<char>, text: Seq<char>) -> Seq<char> {
    sgr(code) + text + sgr(seq!['3', '9'])
}

/// `owo-colors` underlining: code 4 before the text, the reset code 0 after it.
pub open spec fn owo_underlined(text: Seq<char>) -> Seq<char> {
    sgr(seq!['4']) + text + sgr(seq!['0'])
}

pub open spec fn red_code() -> Seq<char> {
    seq!['3', '1']
}

pub open spec fn green_code() -> Seq<char> {
    seq!['3', '2']
}

pub open spec fn magenta_code() -> Seq<char> {
    seq!['3', '5']
}

pub open spec fn cyan_code() -> Seq<char> {
    seq!['3', '6']
}

/// `OwoColorize::cyan`, displayed: the text between the codes of cyan and of
/// the default foreground.
#[verifier::external_body]
pub(crate) fn owo_cyan(text: &str) -> (r: String)
    ensures
        r@ == owo_foreground(cyan_code(), text@),
{
    format!("{}", text.cyan())
}

/// `OwoColorize::magenta`, displayed: the text between the codes of magenta
/// and of the default foreground.
#[verifier::external_body]
pub(crate) fn owo_magenta(text: &str) -> (r: String)
    ensures
        r@ == owo_foreground(magenta_code(), text@),
{
    format!("{}", text.magenta())
}

/// `OwoColorize::green`, displayed: the text between the codes of green and
/// of the default foreground.
#[verifier::external_body]
pub(crate) fn owo_green(text: &str) -> (r: String)
    ensures
        r@ == owo_foreground(green_code(), text@),
{
    format!("{}", text.green())
}

/// `OwoColorize::red`, displayed: the text between the codes of red and of
/// the default foreground.
#[verifier::external_body]
pub(crate) fn owo_red(text: &str) -> (r: String)
    ensures
        r@ == owo_foreground(red_code(), text@),
{
    format!("{}", text.red())
}

/// `OwoColorize::underline`, displayed: the text between the underline code
/// and the reset code.
#[verifier::external_body]
pub(crate) fn owo_underline(text: &str) -> (r: String)
    ensures
        r@ == owo_underlined(text@),
{
    format!("{}", text.underline())
}

/// The colors that the program paints whole messages in with `ansi_term`.
#[derive(Clone, Copy, PartialEq, Eq, Structural, Debug)]
pub enum TermColor {
    Red,
    Green,
    Cyan,
}

/// The foreground code `ansi_term` writes for a color.
pub open spec fn term_color_code(color: TermColor) -> Seq<char> {
    match color {
        TermColor::Red => red_code(),
        TermColor::Green => green_code(),
        TermColor::Cyan => cyan_code(),
    }
}

/// `ansi_term::Colour::paint`, displayed: the color's code before the text and
/// the reset code after it.
#[verifier::external_body]
pub(crate) fn ansi_paint(color: TermColor, text: &str) -> (r: String)
    ensures
        r@ == sgr(term_color_code(color)) + text@ + sgr(seq!['0']),
{
    let colour = match color {
        TermColor::Red => ansi_term::Colour::Red,
        TermColor::Green => ansi_term::Colour::Green,
        TermColor::Cyan => ansi_term::Colour::Cyan,
    };
    format!("{}", colour.paint(text))
}

} // verus!
