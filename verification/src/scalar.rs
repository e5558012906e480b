//! The scalar core: a measurement value, its propagated uncertainty, and
//! the symbolic trail of every operation that produced it.
//!
//! Every operation is first-order error propagation under independence:
//! variances add in quadrature for sums and differences, relative variances
//! for products and quotients, and a transcendental function scales the
//! input uncertainty by its local derivative. The host evaluates those
//! IEEE-754 formulas and hands the results in as [`Fp`] values; the core
//! settles from the operand bit patterns whether the operation's domain is
//! violated, signals absence of a result where it is, and otherwise records
//! the handed-in numbers under a freshly derived trail.

use vstd::prelude::*;

use crate::fp::Fp;
use crate::fp::is_non_finite;
use crate::fp::is_non_finite_bits;
use crate::fp::is_one;
use crate::fp::is_one_bits;
use crate::fp::is_zero;
use crate::fp::is_zero_bits;
use crate::fp::le_zero;
use crate::fp::le_zero_bits;
use crate::fp::lt_zero;
use crate::fp::lt_zero_bits;
use crate::fp::round_is_even;
use crate::fp::round_is_even_bits;
use crate::trail::binary;
use crate::trail::binary_trail;
use crate::trail::chosen;
use crate::trail::chosen_trail;
use crate::trail::display_line;
use crate::trail::line;
use crate::trail::param_trail;
use crate::trail::parameterised;
use crate::trail::power_trail;
use crate::trail::powered;
use crate::trail::seed;
use crate::trail::seed_trail;
use crate::trail::skipped;
use crate::trail::skipped_trail;
use crate::trail::unary;
use crate::trail::unary_trail;

verus! {

/// A measurement: its value and propagated uncertainty as the host
/// evaluated them, and the symbolic derivation trail built here. A value
/// object: no operation mutates an existing measurement.
#[derive(Debug)]
pub struct UnifiedNumber {
    pub value: Fp,
    pub uncertainty: Fp,
    pub symbolic: String,
}

/// The record a sum leaves: the handed-in value and uncertainty under the
/// trail `(a) + (b)`.
pub open spec fn is_sum(
    a: UnifiedNumber,
    b: UnifiedNumber,
    value: Fp,
    uncertainty: Fp,
    r: UnifiedNumber,
) -> bool {
    &&& r.value == value
    &&& r.uncertainty == uncertainty
    &&& r.symbolic@ == binary_trail(a.symbolic@, ") + ("@, b.symbolic@)
}

/// The record a difference leaves: the handed-in value and uncertainty
/// under the trail `(a) - (b)`.
pub open spec fn is_difference(
    a: UnifiedNumber,
    b: UnifiedNumber,
    value: Fp,
    uncertainty: Fp,
    r: UnifiedNumber,
) -> bool {
    &&& r.value == value
    &&& r.uncertainty == uncertainty
    &&& r.symbolic@ == binary_trail(a.symbolic@, ") - ("@, b.symbolic@)
}

impl UnifiedNumber {
    /// A fresh measurement from a (value, uncertainty) pair; the trail is
    /// seeded as `value±uncertainty`.
    pub fn new(value: Fp, uncertainty: Fp) -> (r: UnifiedNumber)
        ensures
            r.value == value,
            r.uncertainty == uncertainty,
            r.symbolic@ == seed_trail(value.text@, uncertainty.text@),
    {
        let symbolic = seed(value.text.as_str(), uncertainty.text.as_str());
        UnifiedNumber { value, uncertainty, symbolic }
    }

    /// Sum. The host evaluates `a + b` and `sqrt(sa^2 + sb^2)`; always
    /// defined.
    pub fn add(&self, other: &UnifiedNumber, value: Fp, uncertainty: Fp) -> (r: UnifiedNumber)
        ensures
            is_sum(*self, *other, value, uncertainty, r),
    {
        let symbolic = binary(self.symbolic.as_str(), ") + (", other.symbolic.as_str());
        UnifiedNumber { value, uncertainty, symbolic }
    }

    /// Difference. The host evaluates `a - b` and `sqrt(sa^2 + sb^2)`;
    /// always defined.
    pub fn subtract(&self, other: &UnifiedNumber, value: Fp, uncertainty: Fp) -> (r: UnifiedNumber)
        ensures
            is_difference(*self, *other, value, uncertainty, r),
    {
        let symbolic = binary(self.symbolic.as_str(), ") - (", other.symbolic.as_str());
        UnifiedNumber { value, uncertainty, symbolic }
    }

    /// Product. The host evaluates `a * b` and
    /// `|a*b| * sqrt((sa/a)^2 + (sb/b)^2)`; always defined, and the division
    /// by an operand's own value in the relative term is deliberately left
    /// unguarded, as the failure policy acknowledges.
    pub fn multiply(&self, other: &UnifiedNumber, value: Fp, uncertainty: Fp) -> (r: UnifiedNumber)
        ensures
            r.value == value,
            r.uncertainty == uncertainty,
            r.symbolic@ == binary_trail(self.symbolic@, ") * ("@, other.symbolic@),
    {
        let symbolic = binary(self.symbolic.as_str(), ") * (", other.symbolic.as_str());
        UnifiedNumber { value, uncertainty, symbolic }
    }

    /// Quotient: absent exactly when the divisor's value compares equal to
    /// zero. Otherwise the host evaluates `a / b` and
    /// `|a/b| * sqrt((sa/a)^2 + (sb/b)^2)` and the trail becomes `(a) / (b)`.
    pub fn divide(&self, other: &UnifiedNumber, value: Fp, uncertainty: Fp) -> (r: Option<
        UnifiedNumber,
    >)
        ensures
            (r is Some) <==> !is_zero_bits(other.value.bits),
            r matches Some(n) ==> n.value == value && n.uncertainty == uncertainty
                && n.symbolic@ == binary_trail(self.symbolic@, ") / ("@, other.symbolic@),
    {
        if is_zero(other.value.bits) {
            None
        } else {
            let symbolic = binary(self.symbolic.as_str(), ") / (", other.symbolic.as_str());
            Some(UnifiedNumber { value, uncertainty, symbolic })
        }
    }

    /// Power. The host evaluates `a^e` and `sa * e * a^e / a`; always
    /// defined, with the division by `a` left unguarded as for `multiply`.
    pub fn power(&self, exponent: Fp, value: Fp, uncertainty: Fp) -> (r: UnifiedNumber)
        ensures
            r.value == value,
            r.uncertainty == uncertainty,
            r.symbolic@ == power_trail(self.symbolic@, exponent.text@),
    {
        let symbolic = powered(self.symbolic.as_str(), exponent.text.as_str());
        UnifiedNumber { value, uncertainty, symbolic }
    }

    /// Root of the given degree: absent exactly when the radicand's value
    /// is negative and the degree rounds to an even integer. Otherwise the
    /// host evaluates `a^(1/r)` and `sa / (r * a^(1/r)^(1 - 1/r))`.
    pub fn root(&self, degree: Fp, value: Fp, uncertainty: Fp) -> (r: Option<UnifiedNumber>)
        ensures
            (r is Some) <==> !(lt_zero_bits(self.value.bits) && round_is_even_bits(degree.bits)),
            r matches Some(n) ==> n.value == value && n.uncertainty == uncertainty
                && n.symbolic@ == param_trail("root("@, self.symbolic@, degree.text@),
    {
        if lt_zero(self.value.bits) && round_is_even(degree.bits) {
            None
        } else {
            let symbolic = parameterised("root(", self.symbolic.as_str(), degree.text.as_str());
            Some(UnifiedNumber { value, uncertainty, symbolic })
        }
    }

    /// Logarithm in the given base: absent exactly when the operand's value
    /// is at or below zero, the base is at or below zero, or the base
    /// compares equal to one. Otherwise the host evaluates `log_base(a)`
    /// and `sa / (a * ln(base))`.
    pub fn log(&self, base: Fp, value: Fp, uncertainty: Fp) -> (r: Option<UnifiedNumber>)
        ensures
            (r is Some) <==> !(le_zero_bits(self.value.bits) || le_zero_bits(base.bits)
                || is_one_bits(base.bits)),
            r matches Some(n) ==> n.value == value && n.uncertainty == uncertainty
                && n.symbolic@ == param_trail("log("@, self.symbolic@, base.text@),
    {
        if le_zero(self.value.bits) || le_zero(base.bits) || is_one(base.bits) {
            None
        } else {
            let symbolic = parameterised("log(", self.symbolic.as_str(), base.text.as_str());
            Some(UnifiedNumber { value, uncertainty, symbolic })
        }
    }

    /// Natural logarithm: absent exactly when the operand's value is at or
    /// below zero. Otherwise the host evaluates `ln(a)` and `sa / a`.
    pub fn ln(&self, value: Fp, uncertainty: Fp) -> (r: Option<UnifiedNumber>)
        ensures
            (r is Some) <==> !le_zero_bits(self.value.bits),
            r matches Some(n) ==> n.value == value && n.uncertainty == uncertainty
                && n.symbolic@ == unary_trail("ln("@, self.symbolic@),
    {
        if le_zero(self.value.bits) {
            None
        } else {
            let symbolic = unary("ln(", self.symbolic.as_str());
            Some(UnifiedNumber { value, uncertainty, symbolic })
        }
    }

    /// Exponential. The host evaluates `e^a` and `sa * e^a`; always defined.
    pub fn exp(&self, value: Fp, uncertainty: Fp) -> (r: UnifiedNumber)
        ensures
            r.value == value,
            r.uncertainty == uncertainty,
            r.symbolic@ == unary_trail("exp("@, self.symbolic@),
    {
        let symbolic = unary("exp(", self.symbolic.as_str());
        UnifiedNumber { value, uncertainty, symbolic }
    }

    /// Sine. The host evaluates `sin(a)` and `sa * cos(a)`; always defined.
    pub fn sin(&self, value: Fp, uncertainty: Fp) -> (r: UnifiedNumber)
        ensures
            r.value == value,
            r.uncertainty == uncertainty,
            r.symbolic@ == unary_trail("sin("@, self.symbolic@),
    {
        let symbolic = unary("sin(", self.symbolic.as_str());
        UnifiedNumber { value, uncertainty, symbolic }
    }

    /// Cosine. The host evaluates `cos(a)` and `sa * |sin(a)|`; always
    /// defined.
    pub fn cos(&self, value: Fp, uncertainty: Fp) -> (r: UnifiedNumber)
        ensures
            r.value == value,
            r.uncertainty == uncertainty,
            r.symbolic@ == unary_trail("cos("@, self.symbolic@),
    {
        let symbolic = unary("cos(", self.symbolic.as_str());
        UnifiedNumber { value, uncertainty, symbolic }
    }

    /// Tangent: absent exactly when the tangent the host evaluated is
    /// infinite or NaN, which is its pole case. Otherwise the host also
    /// evaluates `sa / cos(a)^2`.
    pub fn tan(&self, value: Fp, uncertainty: Fp) -> (r: Option<UnifiedNumber>)
        ensures
            (r is Some) <==> !is_non_finite_bits(value.bits),
            r matches Some(n) ==> n.value == value && n.uncertainty == uncertainty
                && n.symbolic@ == unary_trail("tan("@, self.symbolic@),
    {
        if is_non_finite(value.bits) {
            None
        } else {
            let symbolic = unary("tan(", self.symbolic.as_str());
            Some(UnifiedNumber { value, uncertainty, symbolic })
        }
    }

    /// Hyperbolic sine. The host evaluates `sinh(a)` and `sa * cosh(a)`;
    /// always defined.
    pub fn sinh(&self, value: Fp, uncertainty: Fp) -> (r: UnifiedNumber)
        ensures
            r.value == value,
            r.uncertainty == uncertainty,
            r.symbolic@ == unary_trail("sinh("@, self.symbolic@),
    {
        let symbolic = unary("sinh(", self.symbolic.as_str());
        UnifiedNumber { value, uncertainty, symbolic }
    }

    /// Hyperbolic cosine. The host evaluates `cosh(a)` and `sa * sinh(a)`;
    /// always defined.
    pub fn cosh(&self, value: Fp, uncertainty: Fp) -> (r: UnifiedNumber)
        ensures
            r.value == value,
            r.uncertainty == uncertainty,
            r.symbolic@ == unary_trail("cosh("@, self.symbolic@),
    {
        let symbolic = unary("cosh(", self.symbolic.as_str());
        UnifiedNumber { value, uncertainty, symbolic }
    }

    /// Hyperbolic tangent. The host evaluates `tanh(a)` and
    /// `sa / cosh(a)^2`; always defined.
    pub fn tanh(&self, value: Fp, uncertainty: Fp) -> (r: UnifiedNumber)
        ensures
            r.value == value,
            r.uncertainty == uncertainty,
            r.symbolic@ == unary_trail("tanh("@, self.symbolic@),
    {
        let symbolic = unary("tanh(", self.symbolic.as_str());
        UnifiedNumber { value, uncertainty, symbolic }
    }

    /// Deterministic selection between two already computed measurements:
    /// the condition picks one whole (value and uncertainty together), and
    /// the trail records which branch was kept and that the other was
    /// skipped. Always defined.
    pub fn choice(&self, other: &UnifiedNumber, condition: bool) -> (r: UnifiedNumber)
        ensures
            r.value == (if condition {
                self.value
            } else {
                other.value
            }),
            r.uncertainty == (if condition {
                self.uncertainty
            } else {
                other.uncertainty
            }),
            condition ==> r.symbolic@ == chosen_trail(self.symbolic@),
            !condition ==> r.symbolic@ == skipped_trail(other.symbolic@),
    {
        if condition {
            let symbolic = chosen(self.symbolic.as_str());
            UnifiedNumber {
                value: Fp { bits: self.value.bits, text: self.value.text.clone() },
                uncertainty: Fp { bits: self.uncertainty.bits, text: self.uncertainty.text.clone() },
                symbolic,
            }
        } else {
            let symbolic = skipped(other.symbolic.as_str());
            UnifiedNumber {
                value: Fp { bits: other.value.bits, text: other.value.text.clone() },
                uncertainty: Fp { bits: other.uncertainty.bits, text: other.uncertainty.text.clone() },
                symbolic,
            }
        }
    }

    /// The one line of text a measurement presents: its value, its
    /// uncertainty and its trail, each behind a fixed label.
    pub fn display(&self) -> (r: String)
        ensures
            r@ == display_line(self.value.text@, self.uncertainty.text@, self.symbolic@),
    {
        line(self.value.text.as_str(), self.uncertainty.text.as_str(), self.symbolic.as_str())
    }
}

} // verus!
