//! The input mode of the client: a closed enumeration with a fixed cyclic
//! successor ordering `Text -> Image -> Rag -> Agent -> Text`.

use vstd::prelude::*;

verus! {

#[derive(Clone, Copy, PartialEq, Eq, Structural, Debug)]
pub enum Mode {
    Text,
    Image,
    Rag,
    Agent,
}

/// The cyclic successor of a mode.
pub open spec fn spec_next_mode(m: Mode) -> Mode {
    match m {
        Mode::Text => Mode::Image,
        Mode::Image => Mode::Rag,
        Mode::Rag => Mode::Agent,
        Mode::Agent => Mode::Text,
    }
}

impl Mode {
    /// Advance to the next mode in the fixed cycle.
    pub fn next(&mut self)
        ensures
            *final(self) == spec_next_mode(*old(self)),
    {
        *self = match self {
            Mode::Text => Mode::Image,
            Mode::Image => Mode::Rag,
            Mode::Rag => Mode::Agent,
            Mode::Agent => Mode::Text,
        };
    }

    /// Short lower-case label of the mode, as shown in the status bar.
    pub fn as_str(&self) -> (r: &'static str)
        ensures
            *self == Mode::Text ==> r@ == "text"@,
            *self == Mode::Image ==> r@ == "image"@,
            *self == Mode::Rag ==> r@ == "rag"@,
            *self == Mode::Agent ==> r@ == "agent"@,
    {
        match self {
            Mode::Text => "text",
            Mode::Image => "image",
            Mode::Rag => "rag",
            Mode::Agent => "agent",
        }
    }
}

/// Applying the successor four times returns to the original mode, for every
/// mode: the successor ordering is a cycle of length four.
pub proof fn lemma_mode_cycle(m: Mode)
    ensures
        spec_next_mode(spec_next_mode(spec_next_mode(spec_next_mode(m)))) == m,
{
}

} // verus!
