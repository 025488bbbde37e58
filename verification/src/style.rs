//! Terminal styling: each helper wraps a piece of text in one fixed ANSI
//! style, leaving the wrapped text itself unchanged.

use vstd::prelude::*;
use ansi_term::{Color, Style};

verus! {

/// `s` wrapped in the ANSI bold style.
pub open spec fn bold_spec(s: Seq<char>) -> Seq<char> {
    "\u{1b}[1m"@ + s + "\u{1b}[0m"@
}

/// `s` wrapped in the ANSI blue foreground style.
pub open spec fn blue_spec(s: Seq<char>) -> Seq<char> {
    "\u{1b}[34m"@ + s + "\u{1b}[0m"@
}

/// `s` wrapped in the ANSI green foreground style.
pub open spec fn green_spec(s: Seq<char>) -> Seq<char> {
    "\u{1b}[32m"@ + s + "\u{1b}[0m"@
}

/// `s` wrapped in the ANSI red foreground style.
pub open spec fn red_spec(s: Seq<char>) -> Seq<char> {
    "\u{1b}[31m"@ + s + "\u{1b}[0m"@
}

/// Relies on ansi_term's `Style::bold` and `Style::paint`: a bold-only style
/// renders as the code `ESC[1m`, then the text, then the reset `ESC[0m`.
#[verifier::external_body]
pub(crate) fn paint_bold(s: &str) -> (r: String)
    ensures
        r@ == bold_spec(s@),
{
    Style::new().bold().paint(s).to_string()
}

/// Relies on ansi_term's `Colour::paint`: a blue foreground renders as the
/// code `ESC[34m`, then the text, then the reset `ESC[0m`.
#[verifier::external_body]
pub(crate) fn paint_blue(s: &str) -> (r: String)
    ensures
        r@ == blue_spec(s@),
{
    Color::Blue.paint(s).to_string()
}

/// Relies on ansi_term's `Colour::paint`: a green foreground renders as the
/// code `ESC[32m`, then the text, then the reset `ESC[0m`.
#[verifier::external_body]
pub(crate) fn paint_green(s: &str) -> (r: String)
    ensures
        r@ == green_spec(s@),
{
    Color::Green.paint(s).to_string()
}

/// Relies on ansi_term's `Colour::paint`: a red foreground renders as the
/// code `ESC[31m`, then the text, then the reset `ESC[0m`.
#[verifier::external_body]
pub(crate) fn paint_red(s: &str) -> (r: String)
    ensures
        r@ == red_spec(s@),
{
    Color::Red.paint(s).to_string()
}

} // verus!
