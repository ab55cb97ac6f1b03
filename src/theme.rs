//! The colours of the counter's theme.
use vstd::prelude::*;

verus! {

/// Dark grey of backgrounds.
pub const DARK_GREY: &'static str = "#232323";

/// Deep red, the main colour.
pub const EVIL_RED: &'static str = "#8b0000";

/// Bright red of highlights.
pub const BRIGHT_RED: &'static str = "#ff1744";

/// Background of the card that holds the counter.
pub const CARD_BG: &'static str = "#18141a";

/// Muted red of ordinary text.
pub const TEXT_MUTED: &'static str = "#e57373";

/// Light blue of cold values.
pub const COOL_BLUE: &'static str = "#6bb6ff";

/// A colour role that a rendered element takes.
#[derive(Clone, Copy, Debug, PartialEq, Eq, Structural)]
pub enum ColorToken {
    /// Bright accent.
    Bright,
    /// Cool accent.
    Cool,
    /// Muted text.
    Muted,
}

/// The colour value of a token.
pub open spec fn hex_spec(t: ColorToken) -> Seq<char> {
    match t {
        ColorToken::Bright => BRIGHT_RED@,
        ColorToken::Cool => COOL_BLUE@,
        ColorToken::Muted => TEXT_MUTED@,
    }
}

impl ColorToken {
    /// The colour value of this token.
    pub fn hex(&self) -> (r: &'static str)
        ensures
            r@ == hex_spec(*self),
    {
        match self {
            ColorToken::Bright => BRIGHT_RED,
            ColorToken::Cool => COOL_BLUE,
            ColorToken::Muted => TEXT_MUTED,
        }
    }
}

} // verus!
