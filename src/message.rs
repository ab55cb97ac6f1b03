//! What the counter shows: the display line and the message that classifies
//! the value.
use vstd::prelude::*;
use crate::decimal::{append_decimal, decimal_text};
use crate::theme::ColorToken;

verus! {

/// The four classes of a counter value.
#[derive(Clone, Copy, Debug, PartialEq, Eq, Structural)]
pub enum Level {
    /// Above 50.
    High,
    /// Below zero.
    Negative,
    /// Exactly zero.
    Zero,
    /// From 1 to 50.
    Normal,
}

/// The class of `v`, tested in order: above 50, below zero, zero, the rest.
pub open spec fn level_of(v: int) -> Level {
    if v > 50 {
        Level::High
    } else if v < 0 {
        Level::Negative
    } else if v == 0 {
        Level::Zero
    } else {
        Level::Normal
    }
}

/// The colour of the message of a class.
pub open spec fn level_color(l: Level) -> ColorToken {
    match l {
        Level::High => ColorToken::Bright,
        Level::Negative => ColorToken::Cool,
        Level::Zero => ColorToken::Muted,
        Level::Normal => ColorToken::Muted,
    }
}

/// The message text for the value `v`.
pub open spec fn message_text(v: int) -> Seq<char> {
    match level_of(v) {
        Level::High => "\u{1F525} Count is HIGH! "@ + decimal_text(v) + " is above 50!"@,
        Level::Negative => "\u{2744}\u{FE0F} Count is NEGATIVE! "@ + decimal_text(v)
            + " is below zero!"@,
        Level::Zero => "\u{1F634} Count is ZERO! Reset complete!"@,
        Level::Normal => "Count is normal (1-49)"@,
    }
}

/// The display line for the value `v`.
pub open spec fn display_text(v: int) -> Seq<char> {
    "Count: "@ + decimal_text(v)
}

/// Every value falls in exactly one class, and the class is the one whose
/// range holds it.
pub proof fn lemma_classes_partition(v: int)
    ensures
        (level_of(v) == Level::High) == (v > 50),
        (level_of(v) == Level::Negative) == (v < 0),
        (level_of(v) == Level::Zero) == (v == 0),
        (level_of(v) == Level::Normal) == (1 <= v <= 50),
        (v > 50) || (v < 0) || (v == 0) || (1 <= v <= 50),
        !((v > 50) && (v < 0)) && !((v > 50) && (v == 0)) && !((v > 50) && (1 <= v <= 50)),
        !((v < 0) && (v == 0)) && !((v < 0) && (1 <= v <= 50)) && !((v == 0) && (1 <= v
            <= 50)),
{
}

/// The class of `v`.
pub fn classify(v: i32) -> (r: Level)
    ensures
        r == level_of(v as int),
{
    if v > 50 {
        Level::High
    } else if v < 0 {
        Level::Negative
    } else if v == 0 {
        Level::Zero
    } else {
        Level::Normal
    }
}

impl Level {
    /// The colour of the message of this class.
    pub fn color(&self) -> (r: ColorToken)
        ensures
            r == level_color(*self),
    {
        match self {
            Level::High => ColorToken::Bright,
            Level::Negative => ColorToken::Cool,
            Level::Zero => ColorToken::Muted,
            Level::Normal => ColorToken::Muted,
        }
    }
}

/// The message of a value: its text and its colour, always in one shape.
#[derive(Clone, Debug)]
pub struct Message {
    pub text: String,
    pub color: ColorToken,
}

impl Message {
    /// The message for the value `v`.
    pub open spec fn renders(&self, v: int) -> bool {
        &&& self.text@ == message_text(v)
        &&& self.color == level_color(level_of(v))
    }
}

/// The message text for `v`.
pub fn message_string(v: i32) -> (r: String)
    ensures
        r@ == message_text(v as int),
{
    let level = classify(v);
    match level {
        Level::High => {
            let mut s = String::from_str("\u{1F525} Count is HIGH! ");
            append_decimal(&mut s, v);
            s.append(" is above 50!");
            s
        },
        Level::Negative => {
            let mut s = String::from_str("\u{2744}\u{FE0F} Count is NEGATIVE! ");
            append_decimal(&mut s, v);
            s.append(" is below zero!");
            s
        },
        Level::Zero => String::from_str("\u{1F634} Count is ZERO! Reset complete!"),
        Level::Normal => String::from_str("Count is normal (1-49)"),
    }
}

/// The message, text and colour, for `v`.
pub fn counter_message(v: i32) -> (r: Message)
    ensures
        r.renders(v as int),
{
    let level = classify(v);
    Message { text: message_string(v), color: level.color() }
}

/// The display line for `v`: `Count: ` and its decimal text.
pub fn display_string(v: i32) -> (r: String)
    ensures
        r@ == display_text(v as int),
{
    let mut s = String::from_str("Count: ");
    append_decimal(&mut s, v);
    s
}

} // verus!
