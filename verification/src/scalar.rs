//! The scalar abstraction the solver core is generic over.
//!
//! The state, flux, ghost-cell and face kernels are written once against
//! [`Real`], so that the same source evaluates with a plain
//! floating-point scalar for production runs and with a forward-mode
//! dual number for gradient extraction (or any other scalar a caller
//! supplies, such as a reverse-mode tape). The trait names each
//! operation's result as a spec function of its operands, and the
//! kernels' contracts are written over those spec functions: they hold
//! for every scalar whose operations return what its spec functions
//! name. Implementing the trait is the caller's promise of exactly that.
use vstd::prelude::*;

verus! {

/// A scalar type the solver can compute with.
///
/// Branch decisions (dry/wet, sign tests) are taken on the scalar's
/// *value*: [`Real::value_gt`] and [`Real::value_is_zero`] compare
/// values only, so that a dual number takes the same branch as the
/// plain number it carries.
///
/// Besides the results of its operations, an implementation states the
/// few laws of its arithmetic that the solver's properties rest on: the
/// positive part of a value, negation, and the order of a product's
/// operands. They hold of IEEE-754 `f64` and of a dual number over it.
pub trait Real: Copy + Sized {
    /// The additive identity.
    spec fn zero_spec() -> Self;

    /// Standard gravity `g` as a scalar constant.
    spec fn gravity_spec() -> Self;

    /// One half, as a scalar constant.
    spec fn half_spec() -> Self;

    /// Sum of two scalars.
    spec fn add_spec(self, rhs: Self) -> Self;

    /// Difference of two scalars.
    spec fn sub_spec(self, rhs: Self) -> Self;

    /// Product of two scalars.
    spec fn mul_spec(self, rhs: Self) -> Self;

    /// Quotient of two scalars.
    spec fn div_spec(self, rhs: Self) -> Self;

    /// Negation of a scalar.
    spec fn neg_spec(self) -> Self;

    /// Larger of two scalars.
    spec fn max_spec(self, rhs: Self) -> Self;

    /// Square root of a scalar.
    spec fn sqrt_spec(self) -> Self;

    /// Whether the scalar's value is exactly zero.
    spec fn value_is_zero_spec(self) -> bool;

    /// Whether the scalar's value is strictly greater than `rhs`'s.
    spec fn value_gt_spec(self, rhs: Self) -> bool;

    /// Whether the scalar is a finite number (for a dual number: both
    /// of its parts are).
    spec fn is_finite_spec(self) -> bool;

    /// The value of zero is zero, and zero's value is not greater than
    /// itself.
    proof fn lemma_zero_value()
        ensures
            Self::zero_spec().value_is_zero_spec(),
            !Self::zero_spec().value_gt_spec(Self::zero_spec()),
    ;

    /// A scalar whose value is greater than zero is its own positive
    /// part `max(a, 0)`, and its value is not zero.
    proof fn lemma_max_zero_of_positive(a: Self)
        requires
            a.value_gt_spec(Self::zero_spec()),
        ensures
            a.max_spec(Self::zero_spec()) == a,
            !a.value_is_zero_spec(),
    ;

    /// The positive part `max(a, 0)` of a scalar whose value is not
    /// greater than zero (NaN included) has value zero.
    proof fn lemma_max_zero_of_nonpositive(a: Self)
        requires
            !a.value_gt_spec(Self::zero_spec()),
        ensures
            a.max_spec(Self::zero_spec()).value_is_zero_spec(),
    ;

    /// Negation is an involution, and the negation of a zero value is a
    /// zero value (for `f64`, `-0.0`, which compares equal to `0.0`).
    proof fn lemma_neg_involution(a: Self)
        ensures
            a.neg_spec().neg_spec() == a,
            a.value_is_zero_spec() ==> a.neg_spec().value_is_zero_spec(),
    ;

    /// The product of two finite scalars does not depend on the order of
    /// its operands. This holds of IEEE-754 multiplication, and of a dual
    /// number's product `(a, a')·(b, b') = (ab, a'b + ab')` built on it;
    /// an implementation states it for its own scalar.
    proof fn lemma_mul_commutative(a: Self, b: Self)
        requires
            a.is_finite_spec(),
            b.is_finite_spec(),
        ensures
            a.mul_spec(b) == b.mul_spec(a),
    ;

    /// The additive identity.
    fn zero() -> (r: Self)
        ensures
            r == Self::zero_spec(),
    ;

    /// Standard gravity `g`.
    fn gravity() -> (r: Self)
        ensures
            r == Self::gravity_spec(),
    ;

    /// One half.
    fn half() -> (r: Self)
        ensures
            r == Self::half_spec(),
    ;

    /// `self + rhs`.
    fn add(self, rhs: Self) -> (r: Self)
        ensures
            r == self.add_spec(rhs),
    ;

    /// `self - rhs`.
    fn sub(self, rhs: Self) -> (r: Self)
        ensures
            r == self.sub_spec(rhs),
    ;

    /// `self * rhs`.
    fn mul(self, rhs: Self) -> (r: Self)
        ensures
            r == self.mul_spec(rhs),
    ;

    /// `self / rhs`.
    fn div(self, rhs: Self) -> (r: Self)
        ensures
            r == self.div_spec(rhs),
    ;

    /// `-self`.
    fn neg(self) -> (r: Self)
        ensures
            r == self.neg_spec(),
    ;

    /// The larger of `self` and `rhs`.
    fn max(self, rhs: Self) -> (r: Self)
        ensures
            r == self.max_spec(rhs),
    ;

    /// Square root.
    fn sqrt(self) -> (r: Self)
        ensures
            r == self.sqrt_spec(),
    ;

    /// Whether the value of `self` is exactly zero.
    fn value_is_zero(&self) -> (r: bool)
        ensures
            r == self.value_is_zero_spec(),
    ;

    /// Whether the value of `self` is strictly greater than the value
    /// of `rhs`.
    fn value_gt(&self, rhs: &Self) -> (r: bool)
        ensures
            r == self.value_gt_spec(*rhs),
    ;
}

/// A bound that parallel builds tighten to `Send + Sync`; the serial
/// build places no requirement on the scalar.
pub trait MaybeSendSync {}

impl<T> MaybeSendSync for T {}

} // verus!
