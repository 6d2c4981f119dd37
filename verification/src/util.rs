//! The tones of the terminal output and their colours.

use vstd::prelude::*;

verus! {

/// What a span of output stands for; the presentation picks its colour by it.
#[derive(Debug, Clone, Copy, PartialEq, Eq, Structural)]
pub enum Tone {
    /// Something succeeded.
    Success,
    /// Something failed.
    Failure,
    /// Plain text.
    Plain,
}

/// The colour of a tone, as its number in the 256-colour palette.
pub open spec fn tone_color(tone: Tone) -> u8 {
    match tone {
        Tone::Success => 77,
        Tone::Failure => 9,
        Tone::Plain => 255,
    }
}

/// The colour of a tone, as its number in the 256-colour palette.
pub fn ansi256(tone: Tone) -> (code: u8)
    ensures
        code == tone_color(tone),
{
    match tone {
        Tone::Success => 77,
        Tone::Failure => 9,
        Tone::Plain => 255,
    }
}

} // verus!
