//! A small International Morse Code engine.
//!
//! The crate turns bytes of ASCII text into timed tone activity: each
//! supported character maps to its standard dot/dash pattern, and an
//! encoder walks an input buffer, driving a tone-and-timing surface one
//! character at a time. The host supplies the hardware (a tone output and
//! a blocking millisecond delay) behind the [`player::MorsePlayer`] trait.

pub mod morse;
pub mod player;
