use vstd::prelude::*;

use crate::natural::Natural;
use crate::natural::value_of;

verus! {

/// The sum relation: `sum(a, Zero) == a`, and `sum(a, Successor(b))` shifts
/// one unit from the second operand onto the first, recursing on a strictly
/// smaller second operand. Total over all pairs of domain values.
pub open spec fn sum(a: Natural, b: Natural) -> Natural
    decreases b,
{
    match b {
        Natural::Zero => a,
        Natural::Successor(m) => sum(Natural::Successor(Box::new(a)), *m),
    }
}

/// The difference relation, truncated subtraction: `difference(a, Zero) == a`
/// and `difference(Successor(a), Successor(b)) == difference(a, b)`. Partial:
/// no case matches `difference(Zero, Successor(b))`, so subtraction is
/// undefined (`None`) exactly when the subtrahend exceeds the minuend.
pub open spec fn difference(a: Natural, b: Natural) -> Option<Natural>
    decreases b,
{
    match b {
        Natural::Zero => Some(a),
        Natural::Successor(m) => match a {
            Natural::Zero => None,
            Natural::Successor(k) => difference(*k, *m),
        },
    }
}

/// The product relation: `product(a, Zero) == Zero` and
/// `product(a, Successor(b)) == sum(product(a, b), a)`. Total, since the sum
/// relation is total.
pub open spec fn product(a: Natural, b: Natural) -> Natural
    decreases b,
{
    match b {
        Natural::Zero => Natural::Zero,
        Natural::Successor(m) => sum(product(a, *m), a),
    }
}

/// The sum relation denotes addition: the value of `sum(a, b)` is the sum of
/// the values of `a` and `b`.
pub proof fn lemma_sum_value(a: Natural, b: Natural)
    ensures
        value_of(sum(a, b)) == value_of(a) + value_of(b),
    decreases b,
{
    match b {
        Natural::Zero => {}
        Natural::Successor(m) => {
            lemma_sum_value(Natural::Successor(Box::new(a)), *m);
        }
    }
}

/// The difference relation denotes truncated subtraction: it resolves exactly
/// when the subtrahend's value is at most the minuend's, and then denotes
/// their difference.
pub proof fn lemma_difference_value(a: Natural, b: Natural)
    ensures
        difference(a, b) is Some <==> value_of(b) <= value_of(a),
        difference(a, b) matches Some(c) ==> value_of(c) == value_of(a) - value_of(b),
    decreases b,
{
    match b {
        Natural::Zero => {}
        Natural::Successor(m) => {
            match a {
                Natural::Zero => {}
                Natural::Successor(k) => {
                    lemma_difference_value(*k, *m);
                }
            }
        }
    }
}

/// The product relation denotes multiplication: the value of `product(a, b)`
/// is the product of the values of `a` and `b`.
pub proof fn lemma_product_value(a: Natural, b: Natural)
    ensures
        value_of(product(a, b)) == value_of(a) * value_of(b),
    decreases b,
{
    match b {
        Natural::Zero => {
            assert(value_of(a) * 0 == 0) by (nonlinear_arith);
        }
        Natural::Successor(m) => {
            lemma_product_value(a, *m);
            lemma_sum_value(product(a, *m), a);
            assert(value_of(a) * (value_of(*m) + 1) == value_of(a) * value_of(*m) + value_of(a))
                by (nonlinear_arith);
        }
    }
}

impl Natural {
    /// Resolves the sum relation: returns the domain value related to
    /// `(self, addend)` under it.
    pub fn add(self, addend: Natural) -> (r: Natural)
        ensures
            r == sum(self, addend),
        decreases addend,
    {
        match addend {
            Natural::Zero => self,
            Natural::Successor(m) => Natural::Successor(Box::new(self)).add(*m),
        }
    }

    /// Resolves the difference relation: `Some` of the domain value related
    /// to `(self, subtrahend)` under it, or `None` where the relation has no
    /// matching case because the subtrahend exceeds the minuend.
    pub fn subtract(self, subtrahend: Natural) -> (r: Option<Natural>)
        ensures
            r == difference(self, subtrahend),
        decreases subtrahend,
    {
        match subtrahend {
            Natural::Zero => Some(self),
            Natural::Successor(m) => match self {
                Natural::Zero => None,
                Natural::Successor(k) => (*k).subtract(*m),
            },
        }
    }

    /// Resolves the product relation: returns the domain value related to
    /// `(self, multiplicand)` under it.
    pub fn multiply(&self, multiplicand: &Natural) -> (r: Natural)
        ensures
            r == product(*self, *multiplicand),
        decreases *multiplicand,
    {
        match multiplicand {
            Natural::Zero => Natural::Zero,
            Natural::Successor(m) => self.multiply(m).add(self.duplicate()),
        }
    }
}

} // verus!
