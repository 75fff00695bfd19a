//! Colour for the marks, by way of the `ansi_term` crate.

use ansi_term::Colour;
use vstd::prelude::*;

verus! {

/// The colours in which marks are painted.
#[derive(Clone, Copy, PartialEq, Eq, Debug, Structural)]
pub enum Ink {
    Red,
    Blue,
}

impl Ink {
    /// The number by which a terminal knows this colour as a foreground.
    pub open spec fn code(self) -> Seq<char> {
        match self {
            Ink::Red => seq!['3', '1'],
            Ink::Blue => seq!['3', '4'],
        }
    }
}

/// `text` between the escape sequence that switches a terminal to the
/// foreground colour `ink` and the one that resets it: `ESC [ code m`, the
/// text, `ESC [ 0 m`.
pub open spec fn painted(ink: Ink, text: Seq<char>) -> Seq<char> {
    seq!['\x1b', '['] + ink.code() + seq!['m'] + text + seq!['\x1b', '[', '0', 'm']
}

/// Paints `text` with `ansi_term::Colour::paint` and writes the painted
/// string out.
///
/// Trusted, not proved: that for `Colour::Red` and `Colour::Blue` the
/// written string is the escape sequence `ESC [ 31 m` or `ESC [ 34 m`, then
/// the text unchanged, then the reset sequence `ESC [ 0 m`.
#[verifier::external_body]
pub(crate) fn paint(ink: Ink, text: &str) -> (coloured: String)
    ensures
        coloured@ == painted(ink, text@),
{
    let colour = match ink {
        Ink::Red => Colour::Red,
        Ink::Blue => Colour::Blue,
    };
    colour.paint(text).to_string()
}

} // verus!
