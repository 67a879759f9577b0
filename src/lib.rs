//! Numbers: a scalar abstraction over float-like types, and complex numbers
//! built on it.
//!
//! `Float` names what a scalar must offer: the four arithmetic operators and
//! negation, the constants zero, one and two, and square root, integer power,
//! hypotenuse, exponential, sine, cosine and the NaN and infinity tests. Each
//! named operation is described by a spec function of the trait, so that the
//! contracts of `Complex` state each result as an exact expression over the
//! operations of its scalar, in the order in which they are evaluated.
use vstd::prelude::*;
#[allow(unused_imports)]
use vstd::std_specs::ops::{AddSpec, DivSpec, MulSpec, NegSpec, SubSpec};

pub mod complex;
pub use complex::{Complex, im, re};

verus! {

/// A type that can be made from, and turned back into, a primitive scalar.
pub trait FloatWrapper: Sized {
    /// The primitive representation: the type itself for a primitive float,
    /// the component type for a complex number.
    type InnerFloat;

    fn from_primitive(f: Self::InnerFloat) -> Self;

    fn into_primitive(self) -> Self::InnerFloat;
}

/// A float-like scalar.
///
/// Its arithmetic operators are total: `lemma_arithmetic` states that every
/// operand pair meets the operators' preconditions and that each operator
/// returns what its spec function (`add_spec`, `mul_spec`, ...) gives.
/// Compound assignment is not asked of a scalar; `Complex` offers it.
pub trait Float:
    Sized
    + Copy
    + PartialEq
    + FloatWrapper
    + core::ops::Add<Self, Output = Self>
    + core::ops::Sub<Self, Output = Self>
    + core::ops::Mul<Self, Output = Self>
    + core::ops::Div<Self, Output = Self>
    + core::ops::Neg<Output = Self>
{
    /// The additive identity.
    spec fn zero() -> Self;

    /// The multiplicative identity.
    spec fn one() -> Self;

    /// The value two.
    spec fn two() -> Self;

    fn _0() -> (r: Self)
        ensures
            r == Self::zero(),
    ;

    fn _1() -> (r: Self)
        ensures
            r == Self::one(),
    ;

    fn _2() -> (r: Self)
        ensures
            r == Self::two(),
    ;

    /// Whether the values of this type are real numbers, as those of a
    /// primitive float are, rather than complex ones.
    open spec fn is_real() -> bool {
        true
    }

    /// Whether `exp_`, `sin_` and `cos_` are implemented for this type.
    open spec fn has_exp() -> bool {
        true
    }

    spec fn spec_sqrt(self) -> Self;

    spec fn spec_powi(self, p: i32) -> Self;

    spec fn spec_hypot(self, other: Self) -> Self;

    spec fn spec_exp(self) -> Self;

    spec fn spec_sin(self) -> Self;

    spec fn spec_cos(self) -> Self;

    spec fn spec_is_nan(self) -> bool;

    spec fn spec_is_infinite(self) -> bool;

    /// The arithmetic operators are total and behave as their spec functions say.
    proof fn lemma_arithmetic(a: Self, b: Self)
        ensures
            Self::obeys_add_spec(),
            Self::obeys_sub_spec(),
            Self::obeys_mul_spec(),
            Self::obeys_div_spec(),
            Self::obeys_neg_spec(),
            a.add_req(b),
            a.sub_req(b),
            a.mul_req(b),
            a.div_req(b),
            a.neg_req(),
    ;

    fn sqrt_(self) -> (r: Self)
        ensures
            r == self.spec_sqrt(),
    ;

    /// Integer power. A negative exponent is defined for real scalars only.
    fn powi_(self, p: i32) -> (r: Self)
        requires
            Self::is_real() || p >= 0,
        ensures
            r == self.spec_powi(p),
    ;

    fn hypot_(self, other: Self) -> (r: Self)
        ensures
            r == self.spec_hypot(other),
    ;

    fn exp_(self) -> (r: Self)
        requires
            Self::has_exp(),
        ensures
            r == self.spec_exp(),
    ;

    fn sin_(self) -> (r: Self)
        requires
            Self::has_exp(),
        ensures
            r == self.spec_sin(),
    ;

    fn cos_(self) -> (r: Self)
        requires
            Self::has_exp(),
        ensures
            r == self.spec_cos(),
    ;

    fn is_nan_(self) -> (r: bool)
        ensures
            r == self.spec_is_nan(),
    ;

    fn is_infinite_(self) -> (r: bool)
        ensures
            r == self.spec_is_infinite(),
    ;
}

/// A primitive float: a `Float` that is its own primitive representation.
pub trait PrimitiveFloat: Float + FloatWrapper<InnerFloat = Self> {

}

} // verus!
