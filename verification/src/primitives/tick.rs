use vstd::prelude::*;

verus! {

/// A logical time step of the world.
#[derive(Clone, Copy, Debug, PartialEq, Eq, PartialOrd, Ord, Hash, Structural)]
pub struct Tick(pub u64);

impl Tick {
    /// The tick with the given value.
    pub fn new(value: u64) -> (r: Self)
        ensures
            r.0 == value,
    {
        Tick(value)
    }

    /// The first tick.
    pub fn zero() -> (r: Self)
        ensures
            r.0 == 0,
    {
        Tick(0)
    }

    /// The value of the tick.
    pub fn value(self) -> (r: u64)
        ensures
            r == self.0,
    {
        self.0
    }

    /// The following tick, or `None` when the value would overflow.
    pub fn checked_next(self) -> (r: Option<Self>)
        ensures
            match r {
                Some(next) => self.0 < u64::MAX && next.0 == self.0 + 1,
                None => self.0 == u64::MAX,
            },
    {
        if self.0 < u64::MAX {
            Some(Tick(self.0 + 1))
        } else {
            None
        }
    }
}

} // verus!
