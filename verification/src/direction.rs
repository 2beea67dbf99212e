//! The direction labels and their encodings for reporting.

use vstd::prelude::*;

verus! {

/// The dominant plane of a movement. Absence of movement is `None` of an
/// `Option<MovementDirection>`, not a label of its own.
#[derive(Debug, Clone, Copy, PartialEq, Eq, Structural)]
pub enum MovementDirection {
    Horizontal,
    Vertical,
    Diagonal,
}

impl MovementDirection {
    /// The digit that stands for a label.
    pub open spec fn digit(self) -> u8 {
        match self {
            MovementDirection::Vertical => 0,
            MovementDirection::Horizontal => 1,
            MovementDirection::Diagonal => 2,
        }
    }

    /// The letter that stands for a label.
    pub open spec fn letter(self) -> char {
        match self {
            MovementDirection::Vertical => 'V',
            MovementDirection::Horizontal => 'H',
            MovementDirection::Diagonal => 'D',
        }
    }

    /// Digit encoding: Vertical is 0, Horizontal is 1, Diagonal is 2.
    pub fn as_digit(&self) -> (digit: u8)
        ensures
            digit == self.digit(),
    {
        match *self {
            MovementDirection::Vertical => 0,
            MovementDirection::Horizontal => 1,
            MovementDirection::Diagonal => 2,
        }
    }

    /// Character encoding: the initial of the label, in upper case.
    pub fn as_char(&self) -> (letter: char)
        ensures
            letter == self.letter(),
    {
        match *self {
            MovementDirection::Vertical => 'V',
            MovementDirection::Horizontal => 'H',
            MovementDirection::Diagonal => 'D',
        }
    }

    /// Distinct labels have distinct digits and distinct letters, so either
    /// encoding can be decoded.
    pub proof fn lemma_encodings_injective(a: MovementDirection, b: MovementDirection)
        ensures
            a.digit() == b.digit() <==> a == b,
            a.letter() == b.letter() <==> a == b,
            a.digit() < 3,
    {
    }
}

} // verus!
