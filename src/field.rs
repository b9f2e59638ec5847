//! The polarity rule of the magnetic field interaction.
use vstd::prelude::*;

verus! {

/// Magnetic polarity of a body.
#[derive(Debug, Clone, Copy, PartialEq, Eq, Structural)]
pub enum Polarity {
    North,
    South,
}

/// The kind of force two bodies exert on each other.
#[derive(Debug, Clone, Copy, PartialEq, Eq, Structural)]
pub enum Interaction {
    /// The bodies push each other apart: the base magnitude is negative.
    Repulsion,
    /// The bodies pull each other together: the base magnitude is positive.
    Attraction,
}

/// Bodies of equal polarity repel, bodies of opposite polarity attract.
pub open spec fn interaction_spec(a: Polarity, b: Polarity) -> Interaction {
    if a == b {
        Interaction::Repulsion
    } else {
        Interaction::Attraction
    }
}

impl Interaction {
    /// The sign that multiplies `strength_a * strength_b` to give the base magnitude.
    pub open spec fn sign_spec(self) -> int {
        match self {
            Interaction::Repulsion => -1,
            Interaction::Attraction => 1,
        }
    }

    /// The sign of the base interaction magnitude: `-1` for repulsion, `1` for attraction.
    pub fn sign(&self) -> (r: i8)
        ensures
            r as int == self.sign_spec(),
    {
        match self {
            Interaction::Repulsion => -1,
            Interaction::Attraction => 1,
        }
    }
}

impl Polarity {
    /// How a body of this polarity interacts with one of polarity `other`.
    pub fn interaction_with(&self, other: &Polarity) -> (r: Interaction)
        ensures
            r == interaction_spec(*self, *other),
    {
        if *self == *other {
            Interaction::Repulsion
        } else {
            Interaction::Attraction
        }
    }
}

/// Base interaction magnitude of two bodies before distance falloff, in exact
/// arithmetic: the product of their strengths, negated when they repel.
pub open spec fn base_magnitude(a: Polarity, b: Polarity, strength_a: int, strength_b: int) -> int {
    interaction_spec(a, b).sign_spec() * (strength_a * strength_b)
}

/// For bodies of positive strength the base magnitude is negative (repulsive)
/// when their polarities are equal and positive (attractive) when they differ,
/// and its size is the product of the strengths either way.
pub proof fn lemma_base_magnitude_sign(a: Polarity, b: Polarity, strength_a: int, strength_b: int)
    requires
        strength_a > 0,
        strength_b > 0,
    ensures
        a == b ==> base_magnitude(a, b, strength_a, strength_b) < 0,
        a != b ==> base_magnitude(a, b, strength_a, strength_b) > 0,
        base_magnitude(a, b, strength_a, strength_b) == if a == b {
            -(strength_a * strength_b)
        } else {
            strength_a * strength_b
        },
{
    assert(strength_a * strength_b > 0) by (nonlinear_arith)
        requires strength_a > 0, strength_b > 0;
}

/// The rule is the same seen from either body: `a` repels `b` exactly when
/// `b` repels `a`, with the same base magnitude.
pub proof fn lemma_interaction_symmetric(a: Polarity, b: Polarity, strength_a: int, strength_b: int)
    ensures
        interaction_spec(a, b) == interaction_spec(b, a),
        base_magnitude(a, b, strength_a, strength_b) == base_magnitude(b, a, strength_b, strength_a),
{
    assert(strength_a * strength_b == strength_b * strength_a) by (nonlinear_arith);
}

} // verus!
