use vstd::prelude::*;

verus! {

/// The element type that tensors, layers and models compute with.
///
/// The arithmetic itself belongs to the implementing type (in practice an
/// IEEE-754 float). Each operation has a spec counterpart that the
/// implementing type defines, and the operation returns exactly what its
/// counterpart gives: the result depends on the arguments alone. The
/// library's contracts say which operations are applied to which elements,
/// in which order, over these counterparts.
pub trait Scalar: Copy + Sized {
    /// The value that `zero` returns.
    spec fn spec_zero() -> Self;

    /// The value that `one` returns.
    spec fn spec_one() -> Self;

    /// The value that `plus` returns.
    spec fn spec_plus(self, other: Self) -> Self;

    /// The value that `times` returns.
    spec fn spec_times(self, other: Self) -> Self;

    /// The value that `divided_by` returns.
    spec fn spec_divided_by(self, other: Self) -> Self;

    /// The value that `negated` returns.
    spec fn spec_negated(self) -> Self;

    /// The value that `exp` returns.
    spec fn spec_exp(self) -> Self;

    /// The value that `is_positive` returns.
    spec fn spec_is_positive(self) -> bool;

    /// The additive identity.
    fn zero() -> (r: Self)
        ensures
            r == Self::spec_zero(),
    ;

    /// The multiplicative identity.
    fn one() -> (r: Self)
        ensures
            r == Self::spec_one(),
    ;

    /// `self + other`.
    fn plus(self, other: Self) -> (r: Self)
        ensures
            r == self.spec_plus(other),
    ;

    /// `self * other`.
    fn times(self, other: Self) -> (r: Self)
        ensures
            r == self.spec_times(other),
    ;

    /// `self / other`.
    fn divided_by(self, other: Self) -> (r: Self)
        ensures
            r == self.spec_divided_by(other),
    ;

    /// `-self`.
    fn negated(self) -> (r: Self)
        ensures
            r == self.spec_negated(),
    ;

    /// `e` raised to the power `self`.
    fn exp(self) -> (r: Self)
        ensures
            r == self.spec_exp(),
    ;

    /// Whether `self > 0`.
    fn is_positive(self) -> (r: bool)
        ensures
            r == self.spec_is_positive(),
    ;
}

} // verus!
