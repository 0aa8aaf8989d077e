use vstd::prelude::*;

verus! {

/// The error type shared by the grid and the engine.
#[derive(Debug, Clone)]
pub enum Error {
    /// A constructor or resize was given a zero dimension.
    InvalidDimensions { width: usize, height: usize },
    /// A grid access was given a position outside the grid's rectangle.
    OutOfBounds { x: usize, y: usize, width: usize, height: usize },
    /// Reserved for rule-string parsing in surrounding tooling.
    InvalidRuleFormat(String),
    /// Reserved for pattern parsing in surrounding tooling.
    PatternParseError(String),
    /// Reserved for I/O in surrounding tooling.
    IoError(String),
    /// Generic error with a message.
    Other(String),
}

} // verus!
