//! Terminal styling of the status words.
use vstd::prelude::*;

verus! {

/// The foreground colours that the status words are shown in.
#[derive(Clone, Copy, Debug, PartialEq, Eq, Structural)]
pub enum Tint {
    Cyan,
    Green,
    Red,
    White,
}

/// The escape sequence that selects the foreground colour `tint`.
pub open spec fn tint_on(tint: Tint) -> Seq<char> {
    match tint {
        Tint::Cyan => "\x1b[36m"@,
        Tint::Green => "\x1b[32m"@,
        Tint::Red => "\x1b[31m"@,
        Tint::White => "\x1b[37m"@,
    }
}

/// The escape sequence that selects bold face.
pub open spec fn bold_on() -> Seq<char> {
    "\x1b[1m"@
}

/// The escape sequence that ends all styling.
pub open spec fn style_off() -> Seq<char> {
    "\x1b[0m"@
}

/// `text` in bold face and in the colour `tint`: wrapped in escape sequences
/// when `ansi` is set, unchanged otherwise.
pub open spec fn painted(text: Seq<char>, tint: Tint, ansi: bool) -> Seq<char> {
    if ansi {
        tint_on(tint) + bold_on() + text + style_off()
    } else {
        text
    }
}

/// Whether styled output is wanted on standard output.
///
/// Calls `console::colors_enabled`. The answer depends on the terminal and on
/// the environment of the process, so nothing is claimed of it.
#[verifier::external_body]
pub(crate) fn colors_enabled() -> bool {
    console::colors_enabled()
}

/// Renders `text` in bold face and in the colour `tint`.
///
/// Calls `console::style` with the foreground colour, `bold` and
/// `force_styling(ansi)`, and formats the styled value. With styling forced
/// off, `console` writes the text alone; with styling forced on it writes the
/// colour sequence, the bold sequence, the text and the reset sequence, in that
/// order. This contract is taken from `console`'s formatting code, not proved.
#[verifier::external_body]
pub(crate) fn paint(text: &str, tint: Tint, ansi: bool) -> (out: String)
    ensures
        out@ == painted(text@, tint, ansi),
{
    let color = match tint {
        Tint::Cyan => console::Color::Cyan,
        Tint::Green => console::Color::Green,
        Tint::Red => console::Color::Red,
        Tint::White => console::Color::White,
    };
    console::style(text).fg(color).bold().force_styling(ansi).to_string()
}

} // verus!
