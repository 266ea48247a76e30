//! Terminal styles, through `owo_colors`: a styled text is the text between
//! the ANSI escape sequence that switches the style on and the one that
//! switches it off again.

use owo_colors::OwoColorize;
use vstd::prelude::*;

verus! {

/// `text` between the escape sequences `on` and `off`.
pub open spec fn wrapped(on: Seq<char>, text: Seq<char>, off: Seq<char>) -> Seq<char> {
    on + text + off
}

/// A text in bold: after `ESC[1m` and before `ESC[0m`.
pub open spec fn in_bold(text: Seq<char>) -> Seq<char> {
    wrapped("\x1b[1m"@, text, "\x1b[0m"@)
}

/// A text in dimmed: after `ESC[2m` and before `ESC[0m`.
pub open spec fn in_dim(text: Seq<char>) -> Seq<char> {
    wrapped("\x1b[2m"@, text, "\x1b[0m"@)
}

/// A text in red: after `ESC[31m` and before `ESC[39m`.
pub open spec fn in_red(text: Seq<char>) -> Seq<char> {
    wrapped("\x1b[31m"@, text, "\x1b[39m"@)
}

/// A text in green: after `ESC[32m` and before `ESC[39m`.
pub open spec fn in_green(text: Seq<char>) -> Seq<char> {
    wrapped("\x1b[32m"@, text, "\x1b[39m"@)
}

/// A text in yellow: after `ESC[33m` and before `ESC[39m`.
pub open spec fn in_yellow(text: Seq<char>) -> Seq<char> {
    wrapped("\x1b[33m"@, text, "\x1b[39m"@)
}

/// A text in blue: after `ESC[34m` and before `ESC[39m`.
pub open spec fn in_blue(text: Seq<char>) -> Seq<char> {
    wrapped("\x1b[34m"@, text, "\x1b[39m"@)
}

/// A text in bright black: after `ESC[90m` and before `ESC[39m`.
pub open spec fn in_bright_black(text: Seq<char>) -> Seq<char> {
    wrapped("\x1b[90m"@, text, "\x1b[39m"@)
}

/// `OwoColorize::bold`, as the `Display` of its result writes it: the text
/// after `ESC[1m` and before `ESC[0m`.
#[verifier::external_body]
pub(crate) fn bold(text: &str) -> (r: String)
    ensures
        r@ == in_bold(text@),
{
    format!("{}", text.bold())
}

/// `OwoColorize::dimmed`, as the `Display` of its result writes it: the text
/// after `ESC[2m` and before `ESC[0m`.
#[verifier::external_body]
pub(crate) fn dimmed(text: &str) -> (r: String)
    ensures
        r@ == in_dim(text@),
{
    format!("{}", text.dimmed())
}

/// `OwoColorize::red`, as the `Display` of its result writes it: the text
/// after `ESC[31m` and before `ESC[39m`.
#[verifier::external_body]
pub(crate) fn red(text: &str) -> (r: String)
    ensures
        r@ == in_red(text@),
{
    format!("{}", text.red())
}

/// `OwoColorize::green`, as the `Display` of its result writes it: the text
/// after `ESC[32m` and before `ESC[39m`.
#[verifier::external_body]
pub(crate) fn green(text: &str) -> (r: String)
    ensures
        r@ == in_green(text@),
{
    format!("{}", text.green())
}

/// `OwoColorize::yellow`, as the `Display` of its result writes it: the text
/// after `ESC[33m` and before `ESC[39m`.
#[verifier::external_body]
pub(crate) fn yellow(text: &str) -> (r: String)
    ensures
        r@ == in_yellow(text@),
{
    format!("{}", text.yellow())
}

/// `OwoColorize::blue`, as the `Display` of its result writes it: the text
/// after `ESC[34m` and before `ESC[39m`.
#[verifier::external_body]
pub(crate) fn blue(text: &str) -> (r: String)
    ensures
        r@ == in_blue(text@),
{
    format!("{}", text.blue())
}

/// `OwoColorize::bright_black`, as the `Display` of its result writes it: the text
/// after `ESC[90m` and before `ESC[39m`.
#[verifier::external_body]
pub(crate) fn bright_black(text: &str) -> (r: String)
    ensures
        r@ == in_bright_black(text@),
{
    format!("{}", text.bright_black())
}

} // verus!
