use vstd::prelude::*;

verus! {

/// A non-negative amount of a resource or of battery charge.
#[derive(Clone, Copy, Debug, PartialEq, Eq, PartialOrd, Ord, Hash, Structural)]
pub struct Quantity(pub u64);

impl Quantity {
    /// The quantity with the given value.
    pub fn new(value: u64) -> (r: Self)
        ensures
            r.0 == value,
    {
        Quantity(value)
    }

    /// No quantity.
    pub fn zero() -> (r: Self)
        ensures
            r.0 == 0,
    {
        Quantity(0)
    }

    /// A quantity of one.
    pub fn one() -> (r: Self)
        ensures
            r.0 == 1,
    {
        Quantity(1)
    }

    /// The value of the quantity.
    pub fn value(self) -> (r: u64)
        ensures
            r == self.0,
    {
        self.0
    }

    /// Whether the quantity is zero.
    pub fn is_zero(self) -> (r: bool)
        ensures
            r == (self.0 == 0),
    {
        self.0 == 0
    }

    /// The sum, or `None` when it does not fit.
    pub fn checked_add(self, other: Self) -> (r: Option<Self>)
        ensures
            match r {
                Some(s) => s.0 == self.0 + other.0,
                None => self.0 + other.0 > u64::MAX,
            },
    {
        if self.0 <= u64::MAX - other.0 {
            Some(Quantity(self.0 + other.0))
        } else {
            None
        }
    }

    /// The difference, or `None` when `other` exceeds `self`.
    pub fn checked_sub(self, other: Self) -> (r: Option<Self>)
        ensures
            match r {
                Some(d) => d.0 == self.0 - other.0,
                None => self.0 < other.0,
            },
    {
        if other.0 <= self.0 {
            Some(Quantity(self.0 - other.0))
        } else {
            None
        }
    }
}

} // verus!
