//! A counter with five operations, the message that classifies its value and
//! the texts that a view renders from it.
//!
//! The counter holds an `i32`; adding one, taking one away and doubling wrap
//! around on overflow, and halving rounds toward zero.
pub mod counter;
pub mod decimal;
pub mod message;
pub mod operations;
pub mod theme;

pub use counter::Counter;
pub use message::{Level, Message};
pub use operations::Operation;
pub use theme::ColorToken;
