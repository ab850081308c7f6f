use vstd::prelude::*;

verus! {

/// The natural-number domain: a closed set with exactly two value formers,
/// the zero value and the successor of any other value. Two compositions
/// denote the same number exactly when they are structurally identical.
pub enum Natural {
    Zero,
    Successor(Box<Natural>),
}

/// The number a domain value denotes: `value_of(Zero) == 0` and
/// `value_of(Successor(n)) == 1 + value_of(n)`.
pub open spec fn value_of(n: Natural) -> nat
    decreases n,
{
    match n {
        Natural::Zero => 0,
        Natural::Successor(m) => 1 + value_of(*m),
    }
}

/// The congruence relation: structural sameness of two domain values,
/// the terminal success criterion every proof over the domain reduces to.
pub open spec fn congruent(a: Natural, b: Natural) -> bool
    decreases a,
{
    match (a, b) {
        (Natural::Zero, Natural::Zero) => true,
        (Natural::Successor(x), Natural::Successor(y)) => congruent(*x, *y),
        _ => false,
    }
}

/// Congruence is exactly equality: every value is congruent to itself and
/// to no structurally distinct value.
pub proof fn lemma_congruent_iff_equal(a: Natural, b: Natural)
    ensures
        congruent(a, b) <==> a == b,
    decreases a,
{
    match (a, b) {
        (Natural::Successor(x), Natural::Successor(y)) => {
            lemma_congruent_iff_equal(*x, *y);
        }
        _ => {}
    }
}

/// Denotation is injective: two values denoting the same number are the
/// same value, so an equation of denoted numbers lifts to the domain.
pub proof fn lemma_value_injective(a: Natural, b: Natural)
    requires
        value_of(a) == value_of(b),
    ensures
        a == b,
    decreases a,
{
    match (a, b) {
        (Natural::Successor(x), Natural::Successor(y)) => {
            lemma_value_injective(*x, *y);
        }
        _ => {}
    }
}

impl Natural {
    /// Builds the domain value that denotes `n`: a chain of `n` successors
    /// over the zero value.
    pub fn from_u64(n: u64) -> (r: Natural)
        ensures
            value_of(r) == n,
    {
        let mut result = Natural::Zero;
        let mut i: u64 = 0;
        while i < n
            invariant
                i <= n,
                value_of(result) == i,
            decreases n - i,
        {
            result = Natural::Successor(Box::new(result));
            i = i + 1;
        }
        result
    }

    /// Reifies a domain value into a machine integer, for inspection only:
    /// the successor depth of the value.
    pub fn reify(&self) -> (r: u64)
        requires
            value_of(*self) <= u64::MAX,
        ensures
            r == value_of(*self),
        decreases *self,
    {
        match self {
            Natural::Zero => 0,
            Natural::Successor(m) => 1 + m.reify(),
        }
    }

    /// Forms a new value equal to this one by recomposing its structure.
    pub fn duplicate(&self) -> (r: Natural)
        ensures
            r == *self,
        decreases *self,
    {
        match self {
            Natural::Zero => Natural::Zero,
            Natural::Successor(m) => Natural::Successor(Box::new(m.duplicate())),
        }
    }

    /// Decides the congruence relation: true exactly when the two values
    /// are the same domain value.
    pub fn congruent_to(&self, other: &Natural) -> (r: bool)
        ensures
            r == congruent(*self, *other),
            r == (*self == *other),
        decreases *self,
    {
        proof {
            lemma_congruent_iff_equal(*self, *other);
        }
        match (self, other) {
            (Natural::Zero, Natural::Zero) => true,
            (Natural::Successor(x), Natural::Successor(y)) => x.congruent_to(y),
            _ => false,
        }
    }
}

} // verus!
