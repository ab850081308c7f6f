use vstd::prelude::*;

use crate::arithmetic::difference;
use crate::arithmetic::lemma_difference_value;
use crate::natural::Natural;
use crate::natural::value_of;

verus! {

/// `a` is less than `b` exactly when `difference(b, Successor(a))` resolves:
/// `b - (a + 1)` is defined, so `b > a`.
pub open spec fn less_than(a: Natural, b: Natural) -> bool {
    difference(b, Natural::Successor(Box::new(a))) is Some
}

/// `a` is at most `b` exactly when `difference(b, a)` resolves.
pub open spec fn less_than_or_equal(a: Natural, b: Natural) -> bool {
    difference(b, a) is Some
}

/// `a` is greater than `b` exactly when `difference(a, Successor(b))`
/// resolves.
pub open spec fn greater_than(a: Natural, b: Natural) -> bool {
    difference(a, Natural::Successor(Box::new(b))) is Some
}

/// `a` is at least `b` exactly when `difference(a, b)` resolves.
pub open spec fn greater_than_or_equal(a: Natural, b: Natural) -> bool {
    difference(a, b) is Some
}

/// Each order relation denotes the corresponding comparison of the numbers
/// the two values denote. All four reduce to one resolution of the partial
/// difference relation, so they are mutually consistent by construction.
pub proof fn lemma_order_value(a: Natural, b: Natural)
    ensures
        less_than(a, b) <==> value_of(a) < value_of(b),
        less_than_or_equal(a, b) <==> value_of(a) <= value_of(b),
        greater_than(a, b) <==> value_of(a) > value_of(b),
        greater_than_or_equal(a, b) <==> value_of(a) >= value_of(b),
{
    lemma_difference_value(b, Natural::Successor(Box::new(a)));
    lemma_difference_value(b, a);
    lemma_difference_value(a, Natural::Successor(Box::new(b)));
    lemma_difference_value(a, b);
}

impl Natural {
    /// Decides whether the less-than relation resolves on `(self, other)`,
    /// by attempting the one difference resolution it is derived from.
    pub fn is_less_than(&self, other: &Natural) -> (r: bool)
        ensures
            r == less_than(*self, *other),
    {
        other.duplicate().subtract(Natural::Successor(Box::new(self.duplicate()))).is_some()
    }

    /// Decides whether the less-than-or-equal relation resolves on
    /// `(self, other)`.
    pub fn is_less_than_or_equal(&self, other: &Natural) -> (r: bool)
        ensures
            r == less_than_or_equal(*self, *other),
    {
        other.duplicate().subtract(self.duplicate()).is_some()
    }

    /// Decides whether the greater-than relation resolves on `(self, other)`.
    pub fn is_greater_than(&self, other: &Natural) -> (r: bool)
        ensures
            r == greater_than(*self, *other),
    {
        self.duplicate().subtract(Natural::Successor(Box::new(other.duplicate()))).is_some()
    }

    /// Decides whether the greater-than-or-equal relation resolves on
    /// `(self, other)`.
    pub fn is_greater_than_or_equal(&self, other: &Natural) -> (r: bool)
        ensures
            r == greater_than_or_equal(*self, *other),
    {
        self.duplicate().subtract(other.duplicate()).is_some()
    }
}

} // verus!
