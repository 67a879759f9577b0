use crate::{Float, FloatWrapper};
use vstd::prelude::*;
use vstd::std_specs::cmp::PartialEqSpec;
use vstd::std_specs::ops::{AddSpec, DivSpec, MulSpec, NegSpec, SubSpec};

verus! {

/// A complex number `re + im·i` over the scalar `T`.
#[derive(Clone, Copy, Debug)]
pub struct Complex<T: Float> {
    pub re: T,
    pub im: T,
}

/// The purely imaginary number `f·i`.
pub fn im<F: Float>(f: F) -> (r: Complex<F>)
    ensures
        r == (Complex { re: F::zero(), im: f }),
{
    Complex { re: F::_0(), im: f }
}

/// The purely real number `f`.
pub fn re<F: Float>(f: F) -> (r: Complex<F>)
    ensures
        r == (Complex { re: f, im: F::zero() }),
{
    Complex { re: f, im: F::_0() }
}

impl<T: Float> Complex<T> {
    /// The squared norm `re² + im²`, as the scalar computes it.
    pub open spec fn spec_norm_sqrt(self) -> T {
        self.re.mul_spec(self.re).add_spec(self.im.mul_spec(self.im))
    }

    /// The squared norm `re·re + im·im`.
    pub fn norm_sqrt(&self) -> (r: T)
        ensures
            r == self.spec_norm_sqrt(),
    {
        proof {
            T::lemma_arithmetic(self.re, self.re);
            T::lemma_arithmetic(self.im, self.im);
            T::lemma_arithmetic(self.re.mul_spec(self.re), self.im.mul_spec(self.im));
        }
        self.re * self.re + self.im * self.im
    }
}

impl<T: Float> core::ops::Add<Self> for Complex<T> {
    type Output = Self;

    fn add(self, other: Self) -> (r: Self) {
        proof {
            T::lemma_arithmetic(self.re, other.re);
            T::lemma_arithmetic(self.im, other.im);
        }
        Complex { re: self.re + other.re, im: self.im + other.im }
    }
}

/// Addition is componentwise.
impl<T: Float> vstd::std_specs::ops::AddSpecImpl<Self> for Complex<T> {
    open spec fn obeys_add_spec() -> bool {
        true
    }

    open spec fn add_req(self, other: Self) -> bool {
        true
    }

    open spec fn add_spec(self, other: Self) -> Self {
        Complex { re: self.re.add_spec(other.re), im: self.im.add_spec(other.im) }
    }
}

impl<T: Float> core::ops::Sub<Self> for Complex<T> {
    type Output = Self;

    fn sub(self, other: Self) -> (r: Self) {
        proof {
            T::lemma_arithmetic(self.re, other.re);
            T::lemma_arithmetic(self.im, other.im);
        }
        Complex { re: self.re - other.re, im: self.im - other.im }
    }
}

/// Subtraction is componentwise.
impl<T: Float> vstd::std_specs::ops::SubSpecImpl<Self> for Complex<T> {
    open spec fn obeys_sub_spec() -> bool {
        true
    }

    open spec fn sub_req(self, other: Self) -> bool {
        true
    }

    open spec fn sub_spec(self, other: Self) -> Self {
        Complex { re: self.re.sub_spec(other.re), im: self.im.sub_spec(other.im) }
    }
}

// (a+bi)*(c+di) = (ac-bd)+(ad+bc)i
impl<T: Float> core::ops::Mul<Self> for Complex<T> {
    type Output = Self;

    fn mul(self, other: Self) -> (r: Self) {
        proof {
            T::lemma_arithmetic(self.re, other.re);
            T::lemma_arithmetic(self.im, other.im);
            T::lemma_arithmetic(self.re, other.im);
            T::lemma_arithmetic(self.im, other.re);
            T::lemma_arithmetic(self.re.mul_spec(other.re), self.im.mul_spec(other.im));
            T::lemma_arithmetic(self.re.mul_spec(other.im), self.im.mul_spec(other.re));
        }
        let re = self.re * other.re - self.im * other.im;
        let im = self.re * other.im + self.im * other.re;
        Complex { re, im }
    }
}

/// `(a+bi)·(c+di) = (ac-bd) + (ad+bc)i`, in that order of evaluation.
impl<T: Float> vstd::std_specs::ops::MulSpecImpl<Self> for Complex<T> {
    open spec fn obeys_mul_spec() -> bool {
        true
    }

    open spec fn mul_req(self, other: Self) -> bool {
        true
    }

    open spec fn mul_spec(self, other: Self) -> Self {
        Complex {
            re: self.re.mul_spec(other.re).sub_spec(self.im.mul_spec(other.im)),
            im: self.re.mul_spec(other.im).add_spec(self.im.mul_spec(other.re)),
        }
    }
}

// (a+bi)/(c+di) = ((ac+bd)+(bc-ad)i) / (c^2+d^2)
impl<T: Float> core::ops::Div<Self> for Complex<T> {
    type Output = Self;

    fn div(self, other: Self) -> (r: Self) {
        let norm_sqrt = other.norm_sqrt();
        proof {
            T::lemma_arithmetic(self.re, other.re);
            T::lemma_arithmetic(self.im, other.im);
            T::lemma_arithmetic(self.re, other.im);
            T::lemma_arithmetic(self.im, other.re);
            T::lemma_arithmetic(self.re.mul_spec(other.re), self.im.mul_spec(other.im));
            T::lemma_arithmetic(self.im.mul_spec(other.re), self.re.mul_spec(other.im));
            T::lemma_arithmetic(
                self.re.mul_spec(other.re).add_spec(self.im.mul_spec(other.im)),
                norm_sqrt,
            );
            T::lemma_arithmetic(
                self.im.mul_spec(other.re).sub_spec(self.re.mul_spec(other.im)),
                norm_sqrt,
            );
        }
        let re = (self.re * other.re + self.im * other.im) / norm_sqrt;
        let im = (self.im * other.re - self.re * other.im) / norm_sqrt;
        Complex { re, im }
    }
}

/// `(a+bi)/(c+di) = (ac+bd)/(c²+d²) + (bc-ad)/(c²+d²)·i`. A divisor whose
/// squared norm is zero is no error: the scalar division decides the result.
impl<T: Float> vstd::std_specs::ops::DivSpecImpl<Self> for Complex<T> {
    open spec fn obeys_div_spec() -> bool {
        true
    }

    open spec fn div_req(self, other: Self) -> bool {
        true
    }

    open spec fn div_spec(self, other: Self) -> Self {
        Complex {
            re: self.re.mul_spec(other.re).add_spec(self.im.mul_spec(other.im)).div_spec(
                other.spec_norm_sqrt(),
            ),
            im: self.im.mul_spec(other.re).sub_spec(self.re.mul_spec(other.im)).div_spec(
                other.spec_norm_sqrt(),
            ),
        }
    }
}

impl<T: Float> core::ops::Neg for Complex<T> {
    type Output = Self;

    fn neg(self) -> (r: Self) {
        proof {
            T::lemma_arithmetic(self.re, self.im);
            T::lemma_arithmetic(self.im, self.re);
        }
        Complex { im: self.im.neg(), re: self.re.neg() }
    }
}

/// Negation is componentwise.
impl<T: Float> vstd::std_specs::ops::NegSpecImpl for Complex<T> {
    open spec fn obeys_neg_spec() -> bool {
        true
    }

    open spec fn neg_req(self) -> bool {
        true
    }

    open spec fn neg_spec(self) -> Self {
        Complex { re: self.re.neg_spec(), im: self.im.neg_spec() }
    }
}

impl<T: Float> core::cmp::PartialEq for Complex<T> {
    fn eq(&self, other: &Self) -> (r: bool) {
        self.re == other.re && self.im == other.im
    }
}

/// Two complex numbers are equal when their scalar parts are, as the scalar's
/// own `==` decides: no tolerance.
impl<T: Float> vstd::std_specs::cmp::PartialEqSpecImpl for Complex<T> {
    open spec fn obeys_eq_spec() -> bool {
        T::obeys_eq_spec()
    }

    open spec fn eq_spec(&self, other: &Self) -> bool {
        self.re.eq_spec(&other.re) && self.im.eq_spec(&other.im)
    }
}

impl<T: Float + core::cmp::Eq> core::cmp::Eq for Complex<T> {

}

impl<T: Float> core::convert::From<T> for Complex<T> {
    fn from(n: T) -> (r: Self) {
        Complex { re: n, im: T::_0() }
    }
}

/// A scalar is the complex number with that real part and no imaginary part.
impl<T: Float> vstd::std_specs::convert::FromSpecImpl<T> for Complex<T> {
    open spec fn obeys_from_spec() -> bool {
        true
    }

    open spec fn from_spec(n: T) -> Self {
        Complex { re: n, im: T::zero() }
    }
}

impl<T: Float> core::convert::From<[T; 2]> for Complex<T> {
    fn from(n: [T; 2]) -> (r: Self) {
        Complex { re: n[0], im: n[1] }
    }
}

/// The pair `[re, im]` is the complex number `re + im·i`.
impl<T: Float> vstd::std_specs::convert::FromSpecImpl<[T; 2]> for Complex<T> {
    open spec fn obeys_from_spec() -> bool {
        true
    }

    open spec fn from_spec(n: [T; 2]) -> Self {
        Complex { re: n@[0], im: n@[1] }
    }
}

impl<T: Float> core::ops::AddAssign for Complex<T> {
    fn add_assign(&mut self, rhs: Self)
        ensures
            *final(self) == old(self).add_spec(rhs),
    {
        *self = *self + rhs
    }
}

impl<T: Float> core::ops::SubAssign for Complex<T> {
    fn sub_assign(&mut self, rhs: Self)
        ensures
            *final(self) == old(self).sub_spec(rhs),
    {
        *self = *self - rhs
    }
}

impl<T: Float> core::ops::MulAssign for Complex<T> {
    fn mul_assign(&mut self, rhs: Self)
        ensures
            *final(self) == old(self).mul_spec(rhs),
    {
        *self = *self * rhs
    }
}

impl<T: Float> core::ops::DivAssign for Complex<T> {
    fn div_assign(&mut self, rhs: Self)
        ensures
            *final(self) == old(self).div_spec(rhs),
    {
        *self = *self / rhs
    }
}

/// The primitive representation of a complex number is its component scalar.
impl<T: Float> FloatWrapper for Complex<T> {
    type InnerFloat = T;

    fn from_primitive(f: T) -> (r: Self)
        ensures
            r == (Complex { re: f, im: T::zero() }),
    {
        Complex { re: f, im: T::_0() }
    }

    /// Keeps the real part and drops the imaginary one.
    fn into_primitive(self) -> (r: T)
        ensures
            r == self.re,
    {
        self.re
    }
}

impl<T: Float> Complex<T> {
    /// `self` to the power `n`: one, multiplied by `self` `n` times.
    pub open spec fn spec_pow(self, n: nat) -> Self
        decreases n,
    {
        if n == 0 {
            Complex { re: T::one(), im: T::zero() }
        } else {
            self.spec_pow((n - 1) as nat).mul_spec(self)
        }
    }

    /// `self` with its real part multiplied by minus one: the point at which
    /// the second exponential of `cos_` and `sin_` is taken.
    pub open spec fn spec_neg_re(self) -> Self {
        Complex { re: self.re.mul_spec(T::one().neg_spec()), im: self.im }
    }

    fn neg_re(self) -> (r: Self)
        ensures
            r == self.spec_neg_re(),
    {
        proof {
            T::lemma_arithmetic(T::one(), T::one());
            T::lemma_arithmetic(self.re, T::one().neg_spec());
        }
        let mut neg_self = self;
        neg_self.re = self.re * T::_1().neg();
        neg_self
    }
}

impl<T: Float> Float for Complex<T> {
    open spec fn zero() -> Self {
        Complex { re: T::zero(), im: T::zero() }
    }

    open spec fn one() -> Self {
        Complex { re: T::one(), im: T::zero() }
    }

    open spec fn two() -> Self {
        Complex { re: T::two(), im: T::zero() }
    }

    fn _0() -> (r: Self) {
        Complex { re: T::_0(), im: T::_0() }
    }

    fn _1() -> (r: Self) {
        Complex { re: T::_1(), im: T::_0() }
    }

    fn _2() -> (r: Self) {
        Complex { re: T::_2(), im: T::_0() }
    }

    open spec fn is_real() -> bool {
        false
    }

    /// The exponential is taken through the real cosine, sine and
    /// exponential of the parts, so it needs parts that are real.
    open spec fn has_exp() -> bool {
        T::is_real() && T::has_exp()
    }

    /// With `norm = hypot(re, im)`: `sqrt((norm+re)/2) + sqrt((norm-re)/2)·i`.
    /// Both roots are taken non-negative, whatever the sign of `im`.
    open spec fn spec_sqrt(self) -> Self {
        let norm = self.re.spec_hypot(self.im);
        Complex {
            re: norm.add_spec(self.re).div_spec(T::two()).spec_sqrt(),
            im: norm.sub_spec(self.re).div_spec(T::two()).spec_sqrt(),
        }
    }

    open spec fn spec_powi(self, p: i32) -> Self {
        self.spec_pow(p as nat)
    }

    /// `sqrt(a·a + b·b)`, in complex arithmetic.
    open spec fn spec_hypot(self, other: Self) -> Self {
        self.mul_spec(self).add_spec(other.mul_spec(other)).spec_sqrt()
    }

    /// `(cos(im) + sin(im)·i) · exp(re)`, from the scalar's own cosine, sine
    /// and exponential.
    open spec fn spec_exp(self) -> Self {
        Complex { re: self.im.spec_cos(), im: T::zero() }.add_spec(
            Complex { re: T::zero(), im: self.im.spec_sin() },
        ).mul_spec(Complex { re: self.re.spec_exp(), im: T::zero() })
    }

    /// `(exp(z) + exp(z')) / 2`, where `z'` is `z` with its real part negated.
    open spec fn spec_cos(self) -> Self {
        self.spec_exp().add_spec(self.spec_neg_re().spec_exp()).div_spec(
            Complex { re: T::two(), im: T::zero() },
        )
    }

    /// `(exp(z) - exp(z')) / 2i`, where `z'` is `z` with its real part negated.
    open spec fn spec_sin(self) -> Self {
        self.spec_exp().sub_spec(self.spec_neg_re().spec_exp()).div_spec(
            Complex { re: T::zero(), im: T::two() },
        )
    }

    open spec fn spec_is_nan(self) -> bool {
        self.re.spec_is_nan() || self.im.spec_is_nan()
    }

    open spec fn spec_is_infinite(self) -> bool {
        self.re.spec_is_infinite() || self.im.spec_is_infinite()
    }

    proof fn lemma_arithmetic(a: Self, b: Self) {
    }

    fn sqrt_(self) -> (r: Self) {
        let norm = self.re.hypot_(self.im);
        proof {
            T::lemma_arithmetic(norm, self.re);
            T::lemma_arithmetic(norm.add_spec(self.re), T::two());
            T::lemma_arithmetic(norm.sub_spec(self.re), T::two());
        }
        Complex { re: ((norm + self.re) / T::_2()).sqrt_(), im: ((norm - self.re) / T::_2()).sqrt_() }
    }

    fn powi_(self, n: i32) -> (r: Self) {
        let mut prod = Self::_1();
        let mut i: i32 = 0;
        while i < n
            invariant
                0 <= i <= n,
                prod == self.spec_pow(i as nat),
            decreases n - i,
        {
            prod = prod * self;
            i = i + 1;
        }
        prod
    }

    fn hypot_(self, other: Self) -> (r: Self) {
        (self * self + other * other).sqrt_()
    }

    fn exp_(self) -> (r: Self) {
        (re(self.im.cos_()) + im(self.im.sin_())) * re(self.re.exp_())
    }

    fn cos_(self) -> (r: Self) {
        let neg_self = self.neg_re();
        (self.exp_() + neg_self.exp_()) / Self::_2()
    }

    fn sin_(self) -> (r: Self) {
        let neg_self = self.neg_re();
        (self.exp_() - neg_self.exp_()) / im(T::_2())
    }

    fn is_nan_(self) -> (r: bool) {
        self.re.is_nan_() || self.im.is_nan_()
    }

    fn is_infinite_(self) -> (r: bool) {
        self.re.is_infinite_() || self.im.is_infinite_()
    }
}

/// Adding `z2` and subtracting it again gives back `z1` exactly, whenever the
/// scalar gives back each part of `z1` when the same part of `z2` is added and
/// subtracted: complex addition and subtraction add no rounding of their own.
pub proof fn lemma_add_sub_round_trip<T: Float>(z1: Complex<T>, z2: Complex<T>)
    requires
        z1.re.add_spec(z2.re).sub_spec(z2.re) == z1.re,
        z1.im.add_spec(z2.im).sub_spec(z2.im) == z1.im,
    ensures
        z1.add_spec(z2).sub_spec(z2) == z1,
{
}

} // verus!
