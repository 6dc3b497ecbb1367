use vstd::prelude::*;

verus! {

/// A number as the audio device or the platform hands it over, counted in
/// thousandths: of a second for a time, of normal speed for a rate.
#[derive(Clone, Copy, Debug, PartialEq, Eq)]
pub enum Reading {
    /// A finite number of thousandths.
    Finite(i64),
    /// Positive infinity.
    Infinity,
    /// Negative infinity.
    NegativeInfinity,
    /// Not a number.
    NotANumber,
}

impl Reading {
    /// A reading can be acted on when it is finite and not negative.
    pub open spec fn usable(self) -> bool {
        self matches Reading::Finite(v) && v >= 0
    }

    /// The thousandths of a finite reading.
    pub open spec fn thousandths(self) -> int
        recommends
            self is Finite,
    {
        self->Finite_0 as int
    }

    /// The thousandths of a reading, if it is usable.
    pub fn checked(self) -> (r: Option<i64>)
        ensures
            self.usable() ==> r == Some(self->Finite_0),
            !self.usable() ==> r is None,
    {
        match self {
            Reading::Finite(v) => if v >= 0 {
                Some(v)
            } else {
                None
            },
            _ => None,
        }
    }
}

} // verus!
