use vstd::prelude::*;

use crate::arithmetic::difference;
use crate::arithmetic::lemma_difference_value;
use crate::arithmetic::lemma_product_value;
use crate::arithmetic::lemma_sum_value;
use crate::arithmetic::product;
use crate::arithmetic::sum;
use crate::natural::Natural;
use crate::natural::congruent;
use crate::natural::lemma_congruent_iff_equal;
use crate::natural::lemma_value_injective;
use crate::natural::value_of;
use crate::ordering::greater_than;
use crate::ordering::greater_than_or_equal;
use crate::ordering::lemma_order_value;
use crate::ordering::less_than;
use crate::ordering::less_than_or_equal;

verus! {

/// Every domain value is congruent to itself, and to no structurally
/// distinct value.
pub proof fn law_congruence(a: Natural, b: Natural)
    ensures
        congruent(a, a),
        a != b ==> !congruent(a, b),
{
    lemma_congruent_iff_equal(a, a);
    lemma_congruent_iff_equal(a, b);
}

/// The zero value is a two-sided identity of the sum relation.
pub proof fn law_sum_identity(a: Natural)
    ensures
        sum(a, Natural::Zero) == a,
        sum(Natural::Zero, a) == a,
{
    lemma_sum_value(Natural::Zero, a);
    lemma_value_injective(sum(Natural::Zero, a), a);
}

/// The sum relation is commutative; this is derived from what the two
/// resolutions denote, not assumed.
pub proof fn law_sum_commutative(a: Natural, b: Natural)
    ensures
        sum(a, b) == sum(b, a),
{
    lemma_sum_value(a, b);
    lemma_sum_value(b, a);
    lemma_value_injective(sum(a, b), sum(b, a));
}

/// The sum relation is associative.
pub proof fn law_sum_associative(a: Natural, b: Natural, c: Natural)
    ensures
        sum(sum(a, b), c) == sum(a, sum(b, c)),
{
    lemma_sum_value(a, b);
    lemma_sum_value(sum(a, b), c);
    lemma_sum_value(b, c);
    lemma_sum_value(a, sum(b, c));
    lemma_value_injective(sum(sum(a, b), c), sum(a, sum(b, c)));
}

/// The difference relation takes every value to zero against itself, takes
/// every value to itself against zero, and has no case at all for
/// subtracting a successor from zero.
pub proof fn law_difference(a: Natural)
    ensures
        difference(a, a) == Some(Natural::Zero),
        difference(a, Natural::Zero) == Some(a),
        difference(Natural::Zero, Natural::Successor(Box::new(a))) is None,
{
    lemma_difference_value(a, a);
    match difference(a, a) {
        Some(c) => {
            lemma_value_injective(c, Natural::Zero);
        }
        None => {}
    }
}

/// Wherever the subtrahend is at most the minuend by the order relation,
/// the difference relation resolves, and adding the subtrahend back
/// restores the minuend.
pub proof fn law_difference_sum_round_trip(a: Natural, b: Natural)
    requires
        less_than_or_equal(b, a),
    ensures
        difference(a, b) matches Some(c) && sum(c, b) == a,
{
    lemma_difference_value(a, b);
    match difference(a, b) {
        Some(c) => {
            lemma_sum_value(c, b);
            lemma_value_injective(sum(c, b), a);
        }
        None => {}
    }
}

/// The zero value annihilates the product relation, and the successor of
/// zero is a right identity of it.
pub proof fn law_product_identity(a: Natural)
    ensures
        product(a, Natural::Zero) == Natural::Zero,
        product(a, Natural::Successor(Box::new(Natural::Zero))) == a,
{
    reveal_with_fuel(product, 2);
    law_sum_identity(a);
}

/// On distinct values the order relations are total and mutually
/// consistent: exactly one of less-than and greater-than resolves, and the
/// two weak relations resolve exactly with their strict counterparts.
pub proof fn law_order_totality(a: Natural, b: Natural)
    requires
        a != b,
    ensures
        less_than(a, b) || greater_than(a, b),
        !(less_than(a, b) && greater_than(a, b)),
        less_than(a, b) <==> less_than_or_equal(a, b),
        greater_than(a, b) <==> greater_than_or_equal(a, b),
{
    lemma_order_value(a, b);
    if value_of(a) == value_of(b) {
        lemma_value_injective(a, b);
    }
}

} // verus!
