//! Observations that the classifier makes while it runs. They are kept apart
//! from the result: a caller may print them, and nothing depends on them.
use vstd::prelude::*;

verus! {

/// One diagnostic observation.
#[derive(Clone, Copy, Debug, PartialEq, Eq, Structural)]
pub enum Diagnostic {
    /// The start value is at most the threshold; the counting phase follows.
    LowStart,
    /// A counting step that was not skipped.
    Looping,
    /// The final count is one.
    One,
    /// The final count is two.
    Two,
}

impl Diagnostic {
    /// The line of text that stands for this observation.
    pub fn message(&self) -> (r: &'static str)
        ensures
            r@ == self.message_spec(),
    {
        match self {
            Diagnostic::LowStart => "Low start",
            Diagnostic::Looping => "Looping",
            Diagnostic::One => "One",
            Diagnostic::Two => "Two",
        }
    }

    /// The characters of `message`.
    pub open spec fn message_spec(&self) -> Seq<char> {
        match self {
            Diagnostic::LowStart => "Low start"@,
            Diagnostic::Looping => "Looping"@,
            Diagnostic::One => "One"@,
            Diagnostic::Two => "Two"@,
        }
    }
}

} // verus!
