//! Forward-mode automatic differentiation with dual numbers.
//!
//! A [`Dual`] value carries a function value (`primal`) together with its
//! directional derivative (`tangent`) with respect to an implicitly chosen
//! differentiation variable. Arithmetic on dual values propagates both
//! components at once, so that a computation built from the supported
//! operations always represents `(f(x), f'(x))` for the function `f` it
//! evaluates.
//!
//! Every operation states its effect on both components against the
//! spec-level meaning of the underlying scalar operations, and the
//! differentiation laws (linearity, constant-shift invariance, the chain
//! rule and its closure under composition) are proved once for all scalar
//! and tangent types.

use vstd::prelude::*;

verus! {

/// A dual number: a function value paired with its derivative.
///
/// `Primal` and `Tangent` are deliberately independent parameters, so a
/// scalar primal can be paired with, say, a vector tangent. A seed variable
/// is written `Dual { primal: x, tangent: one }`; a constant has a zero
/// tangent. Values are plain immutable pairs: every operation consumes its
/// operands and builds a fresh `Dual`.
pub struct Dual<Primal, Tangent> {
    pub primal: Primal,
    pub tangent: Tangent,
}

/// Addition capability: a type that can be added to itself.
///
/// `spec_add` is the mathematical meaning of the operation; the executable
/// `add` must return exactly that value. Dual numbers implement this
/// capability themselves, so sums of duals nest freely.
pub trait AddOps: Sized {
    /// What `add` returns, as a mathematical function of its operands.
    spec fn spec_add(self, rhs: Self) -> Self;

    fn add(self, rhs: Self) -> (r: Self)
        ensures
            r == self.spec_add(rhs),
    ;
}

/// Subtraction capability, the mirror image of [`AddOps`].
pub trait SubOps: Sized {
    /// What `sub` returns, as a mathematical function of its operands.
    spec fn spec_sub(self, rhs: Self) -> Self;

    fn sub(self, rhs: Self) -> (r: Self)
        ensures
            r == self.spec_sub(rhs),
    ;
}

/// Multiplication capability of a tangent by a value of type `Rhs`,
/// yielding a tangent again. The chain rule for elementary functions
/// scales a tangent by the derivative of the outer function, which lives
/// in the primal's type, hence the heterogeneous right-hand side.
pub trait MulOps<Rhs>: Sized {
    /// What `mul` returns, as a mathematical function of its operands.
    spec fn spec_mul(self, rhs: Rhs) -> Self;

    fn mul(self, rhs: Rhs) -> (r: Self)
        ensures
            r == self.spec_mul(rhs),
    ;
}

/// Differentiable elementary functions, as a capability that plain scalars
/// and dual numbers share. A scalar implements `exp` as its ordinary
/// exponential; [`Dual`] implements it by the chain rule, recursively
/// through the same capability on its primal's own type, so duals of duals
/// compose transparently. Further elementary functions are added by
/// extending this trait, without touching the arithmetic operations.
pub trait DiffOps: Sized {
    /// What `exp` returns, as a mathematical function of its operand.
    spec fn spec_exp(self) -> Self;

    fn exp(self) -> (r: Self)
        ensures
            r == self.spec_exp(),
    ;
}

impl<Primal: AddOps, Tangent: AddOps> AddOps for Dual<Primal, Tangent> {
    /// Componentwise sum: differentiation is linear, `(f + g)' == f' + g'`.
    open spec fn spec_add(self, rhs: Self) -> Self {
        Dual {
            primal: self.primal.spec_add(rhs.primal),
            tangent: self.tangent.spec_add(rhs.tangent),
        }
    }

    fn add(self, rhs: Self) -> (r: Self) {
        Dual {
            primal: self.primal.add(rhs.primal),
            tangent: self.tangent.add(rhs.tangent),
        }
    }
}

impl<Primal: SubOps, Tangent: SubOps> SubOps for Dual<Primal, Tangent> {
    /// Componentwise difference: `(f - g)' == f' - g'`.
    open spec fn spec_sub(self, rhs: Self) -> Self {
        Dual {
            primal: self.primal.spec_sub(rhs.primal),
            tangent: self.tangent.spec_sub(rhs.tangent),
        }
    }

    fn sub(self, rhs: Self) -> (r: Self) {
        Dual {
            primal: self.primal.sub(rhs.primal),
            tangent: self.tangent.sub(rhs.tangent),
        }
    }
}

impl<Primal: AddOps, Tangent> Dual<Primal, Tangent> {
    /// Add a constant of the primal's type. A constant has derivative zero,
    /// so the tangent comes through unchanged, whatever the constant is.
    pub fn add_primal(self, rhs: Primal) -> (r: Self)
        ensures
            r.primal == self.primal.spec_add(rhs),
            r.tangent == self.tangent,
    {
        Dual { primal: self.primal.add(rhs), tangent: self.tangent }
    }
}

impl<Primal: SubOps, Tangent> Dual<Primal, Tangent> {
    /// Subtract a constant of the primal's type; the tangent is unchanged.
    pub fn sub_primal(self, rhs: Primal) -> (r: Self)
        ensures
            r.primal == self.primal.spec_sub(rhs),
            r.tangent == self.tangent,
    {
        Dual { primal: self.primal.sub(rhs), tangent: self.tangent }
    }
}

impl<Primal: DiffOps + Copy, Tangent: MulOps<Primal>> DiffOps for Dual<Primal, Tangent> {
    /// The chain rule for the exponential: `d/dx exp(f(x)) == f'(x) * exp(f(x))`.
    /// The new primal is the primal's own exponential; the new tangent is the
    /// old tangent scaled by that new primal.
    open spec fn spec_exp(self) -> Self {
        Dual {
            primal: self.primal.spec_exp(),
            tangent: self.tangent.spec_mul(self.primal.spec_exp()),
        }
    }

    fn exp(self) -> (r: Self) {
        let primal = self.primal.exp();
        Dual { primal, tangent: self.tangent.mul(primal) }
    }
}

/// Linearity of addition: summing two dual values adds the tangents, and
/// the primals, componentwise.
pub proof fn lemma_add_linear<P: AddOps, T: AddOps>(a: Dual<P, T>, b: Dual<P, T>)
    ensures
        a.spec_add(b).primal == a.primal.spec_add(b.primal),
        a.spec_add(b).tangent == a.tangent.spec_add(b.tangent),
{
}

/// Linearity of subtraction: the difference of two dual values subtracts
/// the tangents, and the primals, componentwise.
pub proof fn lemma_sub_linear<P: SubOps, T: SubOps>(a: Dual<P, T>, b: Dual<P, T>)
    ensures
        a.spec_sub(b).primal == a.primal.spec_sub(b.primal),
        a.spec_sub(b).tangent == a.tangent.spec_sub(b.tangent),
{
}

/// The chain rule for the exponential of a dual value: the primal becomes
/// its own exponential, and the tangent is scaled by that exponential.
pub proof fn lemma_exp_chain_rule<P: DiffOps + Copy, T: MulOps<P>>(d: Dual<P, T>)
    ensures
        d.spec_exp().primal == d.primal.spec_exp(),
        d.spec_exp().tangent == d.tangent.spec_mul(d.primal.spec_exp()),
{
}

/// The chain rule composes: two nested exponentials scale the tangent first
/// by `exp(primal)` and then by `exp(exp(primal))`, while the primal becomes
/// its doubly-applied exponential.
pub proof fn lemma_exp_compose<P: DiffOps + Copy, T: MulOps<P>>(d: Dual<P, T>)
    ensures
        d.spec_exp().spec_exp().primal == d.primal.spec_exp().spec_exp(),
        d.spec_exp().spec_exp().tangent == d.tangent.spec_mul(d.primal.spec_exp()).spec_mul(
            d.primal.spec_exp().spec_exp(),
        ),
{
}

} // verus!
