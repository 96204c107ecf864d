use vstd::prelude::*;

verus! {

/// A position on the list's fractional scale, held as plain integers.
///
/// It stands for a real number `x` by its floor and by whether `x` has a
/// fractional part: `whole` is the floor, and `fractional` is false exactly
/// when `x` is the whole number `whole` itself (else `whole < x < whole + 1`).
/// With `n` elements the oldest sits at -1 and the newest at `n - 2`.
#[derive(Clone, Copy, Debug, PartialEq, Eq, Structural)]
pub struct FracIndex {
    pub whole: i64,
    pub fractional: bool,
}

impl FracIndex {
    /// The smallest whole position at or above the one named: the one that
    /// a read at this position addresses.
    pub open spec fn ceil(self) -> int {
        if self.fractional {
            self.whole + 1
        } else {
            self.whole as int
        }
    }

    /// Whether the position lies between -1 and `len - 2`, both included.
    pub open spec fn in_bounds(self, len: int) -> bool {
        -1 <= self.whole && self.ceil() <= len - 2
    }

    /// How many steps from the head the addressed element lies, on a list of
    /// `len` elements.
    pub open spec fn steps(self, len: int) -> int {
        len - 2 - self.ceil()
    }

    /// The whole position `whole`.
    pub fn at(whole: i64) -> (r: FracIndex)
        ensures
            r.whole == whole,
            !r.fractional,
    {
        FracIndex { whole, fractional: false }
    }

    /// A position strictly between `whole` and `whole + 1`.
    pub fn between(whole: i64) -> (r: FracIndex)
        ensures
            r.whole == whole,
            r.fractional,
    {
        FracIndex { whole, fractional: true }
    }

    /// How many steps from the head the addressed element lies on a list of
    /// `len` elements, or `None` where the position is out of bounds.
    pub fn steps_from_head(&self, len: usize) -> (r: Option<usize>)
        ensures
            r.is_some() == self.in_bounds(len as int),
            r.is_some() ==> r.unwrap() as int == self.steps(len as int),
    {
        let ceil: i128 = if self.fractional {
            self.whole as i128 + 1
        } else {
            self.whole as i128
        };
        if self.whole < -1 || ceil > len as i128 - 2 {
            None
        } else {
            Some((len as i128 - 2 - ceil) as usize)
        }
    }
}

} // verus!
