use crate::strategy::probability::Probability;
use std::cmp::Ordering;
use vstd::std_specs::cmp::PartialEqSpecImpl;
use vstd::std_specs::cmp::PartialOrdSpecImpl;
use vstd::prelude::*;

verus! {

/// The two probabilities as fractions over a common denominator: the
/// numerator of `p` times the denominator of `q`, and the numerator of `q`
/// times the denominator of `p`.
fn cross_products(p: Probability, q: Probability) -> (r: (u128, u128))
    ensures
        r.0 == p.num() * q.den(),
        r.1 == q.num() * p.den(),
{
    let a = p.numerator() as u128;
    let b = p.denominator() as u128;
    let c = q.numerator() as u128;
    let d = q.denominator() as u128;
    proof {
        assert(a * d <= u64::MAX * u64::MAX) by (nonlinear_arith)
            requires
                a <= u64::MAX,
                d <= u64::MAX,
        ;
        assert(c * b <= u64::MAX * u64::MAX) by (nonlinear_arith)
            requires
                c <= u64::MAX,
                b <= u64::MAX,
        ;
    }
    (a * d, c * b)
}

/// The two fractions have the same value.
pub open spec fn same_value(p: Probability, q: Probability) -> bool {
    p.num() * q.den() == q.num() * p.den()
}

/// Two probabilities are equal when their values are, whatever their
/// denominators (1/2 equals 2/4).
impl PartialEq for Probability {
    fn eq(&self, other: &Self) -> (r: bool) {
        let (x, y) = cross_products(*self, *other);
        x == y
    }
}

impl PartialEqSpecImpl for Probability {
    open spec fn obeys_eq_spec() -> bool {
        true
    }

    open spec fn eq_spec(&self, other: &Self) -> bool {
        same_value(*self, *other)
    }
}

/// Probabilities are ordered by their values.
impl PartialOrd for Probability {
    fn partial_cmp(&self, other: &Self) -> (r: Option<Ordering>) {
        let (x, y) = cross_products(*self, *other);
        if x < y {
            Some(Ordering::Less)
        } else if x == y {
            Some(Ordering::Equal)
        } else {
            Some(Ordering::Greater)
        }
    }
}

impl PartialOrdSpecImpl for Probability {
    open spec fn obeys_partial_cmp_spec() -> bool {
        true
    }

    open spec fn partial_cmp_spec(&self, other: &Self) -> Option<Ordering> {
        if self.num() * other.den() < other.num() * self.den() {
            Some(Ordering::Less)
        } else if self.num() * other.den() == other.num() * self.den() {
            Some(Ordering::Equal)
        } else {
            Some(Ordering::Greater)
        }
    }
}

/// Equality of probabilities by value is an equivalence: reflexive,
/// symmetric and, since denominators are positive, transitive.
pub proof fn lemma_value_equality_is_equivalence(p: Probability, q: Probability, r: Probability)
    requires
        p.den() > 0,
        q.den() > 0,
        r.den() > 0,
    ensures
        same_value(p, p),
        same_value(p, q) ==> same_value(q, p),
        same_value(p, q) && same_value(q, r) ==> same_value(p, r),
{
    if same_value(p, q) && same_value(q, r) {
        let (a, b, c, d, e, f) = (p.num(), p.den(), q.num(), q.den(), r.num(), r.den());
        assert(a * f == e * b) by (nonlinear_arith)
            requires
                a * d == c * b,
                c * f == e * d,
                d > 0,
        ;
    }
}

} // verus!
