//! Taps that run only on one branch of a two-branch outcome.
//!
//! An [`Outcome`] is a value that is either a continuation (a success payload)
//! or a short-circuit (a failure payload). It is decomposed into a [`Branch`]
//! and rebuilt from one; the spec function [`Outcome::branch_of`] is the model
//! of a value, and two values with the same model are the same value.
use core::ops::ControlFlow;
use vstd::prelude::*;

verus! {

/// The two classes an outcome can fall in.
#[derive(Clone, Copy, Debug, PartialEq, Eq)]
pub enum Branch<C, B> {
    /// The success payload: the computation goes on with it.
    Continue(C),
    /// The failure payload: the computation stops with it.
    Break(B),
}

/// A value that is either a success payload or a failure payload.
///
/// `branch` decomposes a value into its class and payload, `from_output` and
/// `from_residual` rebuild one, and `branch_of` is the model that ties the three
/// together.
pub trait Outcome: Sized {
    /// The success payload.
    type Output;

    /// The failure payload.
    type Residual;

    /// The class and payload of a value.
    spec fn branch_of(self) -> Branch<Self::Output, Self::Residual>;

    /// A value is determined by its class and payload.
    proof fn lemma_branch_of_injective(a: Self, b: Self)
        requires
            a.branch_of() == b.branch_of(),
        ensures
            a == b,
    ;

    /// Splits a value into its class and payload.
    fn branch(self) -> (r: Branch<Self::Output, Self::Residual>)
        ensures
            r == self.branch_of(),
    ;

    /// Builds the success value that holds `output`.
    fn from_output(output: Self::Output) -> (r: Self)
        ensures
            r.branch_of() == Branch::<Self::Output, Self::Residual>::Continue(output),
    ;

    /// Builds the failure value that holds `residual`.
    fn from_residual(residual: Self::Residual) -> (r: Self)
        ensures
            r.branch_of() == Branch::<Self::Output, Self::Residual>::Break(residual),
    ;
}

impl<T, E> Outcome for Result<T, E> {
    type Output = T;

    type Residual = E;

    open spec fn branch_of(self) -> Branch<T, E> {
        match self {
            Ok(t) => Branch::Continue(t),
            Err(e) => Branch::Break(e),
        }
    }

    proof fn lemma_branch_of_injective(a: Self, b: Self) {
    }

    fn branch(self) -> (r: Branch<T, E>) {
        match self {
            Ok(t) => Branch::Continue(t),
            Err(e) => Branch::Break(e),
        }
    }

    fn from_output(output: T) -> (r: Self) {
        Ok(output)
    }

    fn from_residual(residual: E) -> (r: Self) {
        Err(residual)
    }
}

/// `None` is the failure class; its payload carries nothing.
impl<T> Outcome for Option<T> {
    type Output = T;

    type Residual = ();

    open spec fn branch_of(self) -> Branch<T, ()> {
        match self {
            Some(t) => Branch::Continue(t),
            None => Branch::Break(()),
        }
    }

    proof fn lemma_branch_of_injective(a: Self, b: Self) {
    }

    fn branch(self) -> (r: Branch<T, ()>) {
        match self {
            Some(t) => Branch::Continue(t),
            None => Branch::Break(()),
        }
    }

    fn from_output(output: T) -> (r: Self) {
        Some(output)
    }

    fn from_residual(residual: ()) -> (r: Self) {
        None
    }
}

impl<C, B> Outcome for Branch<C, B> {
    type Output = C;

    type Residual = B;

    open spec fn branch_of(self) -> Branch<C, B> {
        self
    }

    proof fn lemma_branch_of_injective(a: Self, b: Self) {
    }

    fn branch(self) -> (r: Branch<C, B>) {
        self
    }

    fn from_output(output: C) -> (r: Self) {
        Branch::Continue(output)
    }

    fn from_residual(residual: B) -> (r: Self) {
        Branch::Break(residual)
    }
}

/// `Continue` is the success class and `Break` the failure class.
impl<B, C> Outcome for ControlFlow<B, C> {
    type Output = C;

    type Residual = B;

    open spec fn branch_of(self) -> Branch<C, B> {
        match self {
            ControlFlow::Continue(c) => Branch::Continue(c),
            ControlFlow::Break(b) => Branch::Break(b),
        }
    }

    proof fn lemma_branch_of_injective(a: Self, b: Self) {
    }

    fn branch(self) -> (r: Branch<C, B>) {
        match self {
            ControlFlow::Continue(c) => Branch::Continue(c),
            ControlFlow::Break(b) => Branch::Break(b),
        }
    }

    fn from_output(output: C) -> (r: Self) {
        ControlFlow::Continue(output)
    }

    fn from_residual(residual: B) -> (r: Self) {
        ControlFlow::Break(residual)
    }
}

/// The success payload of `o`; meaningful only when `o` is in the success class.
pub open spec fn output_of<O: Outcome>(o: O) -> O::Output
    recommends
        o.branch_of() is Continue,
{
    o.branch_of()->Continue_0
}

/// The failure payload of `o`; meaningful only when `o` is in the failure class.
pub open spec fn residual_of<O: Outcome>(o: O) -> O::Residual
    recommends
        o.branch_of() is Break,
{
    o.branch_of()->Break_0
}

/// Every outcome is in exactly one of the two classes, so on a given value
/// exactly one of a success tap and a failure tap runs its effect.
pub proof fn lemma_exactly_one_class<O: Outcome>(o: O)
    ensures
        o.branch_of() is Continue <==> !(o.branch_of() is Break),
{
}

/// Taps that run only when an outcome is in one given class.
///
/// Each takes `self`, runs `func` on the payload if `self` is in the class the
/// method names, and returns a value of the class that `self` had. Where `func`
/// does not run, `self` is returned as it came. The `_dbg` forms take `debug`
/// as [`crate::tap::Tap`]'s do.
pub trait TapFallible: Outcome {
    /// Immutably accesses the success payload, if there is one.
    fn tap_continue<F: FnOnce(&Self::Output)>(self, func: F) -> (r: Self)
        requires
            self.branch_of() is Continue ==> func.requires((&output_of(self),)),
        ensures
            r == self,
            self.branch_of() is Continue ==> func.ensures((&output_of(self),), ()),
    {
        let ghost orig = self;
        match self.branch() {
            Branch::Continue(output) => {
                func(&output);
                let r = Self::from_output(output);
                proof {
                    Self::lemma_branch_of_injective(r, orig);
                }
                r
            },
            Branch::Break(residual) => {
                let r = Self::from_residual(residual);
                proof {
                    Self::lemma_branch_of_injective(r, orig);
                }
                r
            },
        }
    }

    /// Mutably accesses the success payload, if there is one; the change that
    /// `func` makes is kept in the returned value.
    fn tap_continue_mut<F: FnOnce(&mut Self::Output)>(self, func: F) -> (r: Self)
        requires
            self.branch_of() is Continue ==> forall|x: &mut Self::Output|
                *x == output_of(self) ==> func.requires((x,)),
        ensures
            r.branch_of() is Continue <==> self.branch_of() is Continue,
            self.branch_of() is Continue ==> exists|x: &mut Self::Output|
                *x == output_of(self) && func.ensures((x,), ()) && output_of(r) == *final(x),
            self.branch_of() is Break ==> r == self,
    {
        let ghost orig = self;
        match self.branch() {
            Branch::Continue(output) => {
                let mut output = output;
                func(&mut output);
                Self::from_output(output)
            },
            Branch::Break(residual) => {
                let r = Self::from_residual(residual);
                proof {
                    Self::lemma_branch_of_injective(r, orig);
                }
                r
            },
        }
    }

    /// Immutably accesses the failure payload, if there is one.
    fn tap_break<F: FnOnce(&Self::Residual)>(self, func: F) -> (r: Self)
        requires
            self.branch_of() is Break ==> func.requires((&residual_of(self),)),
        ensures
            r == self,
            self.branch_of() is Break ==> func.ensures((&residual_of(self),), ()),
    {
        let ghost orig = self;
        match self.branch() {
            Branch::Continue(output) => {
                let r = Self::from_output(output);
                proof {
                    Self::lemma_branch_of_injective(r, orig);
                }
                r
            },
            Branch::Break(residual) => {
                func(&residual);
                let r = Self::from_residual(residual);
                proof {
                    Self::lemma_branch_of_injective(r, orig);
                }
                r
            },
        }
    }

    /// Mutably accesses the failure payload, if there is one; the change that
    /// `func` makes is kept in the returned value.
    fn tap_break_mut<F: FnOnce(&mut Self::Residual)>(self, func: F) -> (r: Self)
        requires
            self.branch_of() is Break ==> forall|x: &mut Self::Residual|
                *x == residual_of(self) ==> func.requires((x,)),
        ensures
            r.branch_of() is Break <==> self.branch_of() is Break,
            self.branch_of() is Break ==> exists|x: &mut Self::Residual|
                *x == residual_of(self) && func.ensures((x,), ()) && residual_of(r) == *final(x),
            self.branch_of() is Continue ==> r == self,
    {
        let ghost orig = self;
        match self.branch() {
            Branch::Continue(output) => {
                let r = Self::from_output(output);
                proof {
                    Self::lemma_branch_of_injective(r, orig);
                }
                r
            },
            Branch::Break(residual) => {
                let mut residual = residual;
                func(&mut residual);
                Self::from_residual(residual)
            },
        }
    }

    /// [`TapFallible::tap_continue`] in a debug build; in a release build
    /// `func` is not called.
    fn tap_continue_dbg<F: FnOnce(&Self::Output)>(self, debug: bool, func: F) -> (r: Self)
        requires
            debug && self.branch_of() is Continue ==> func.requires((&output_of(self),)),
        ensures
            r == self,
            debug && self.branch_of() is Continue ==> func.ensures((&output_of(self),), ()),
    {
        if debug {
            self.tap_continue(func)
        } else {
            self
        }
    }

    /// [`TapFallible::tap_continue_mut`] in a debug build; in a release build
    /// `func` is not called and `self` is returned as it came.
    fn tap_continue_mut_dbg<F: FnOnce(&mut Self::Output)>(self, debug: bool, func: F) -> (r:
        Self)
        requires
            debug && self.branch_of() is Continue ==> forall|x: &mut Self::Output|
                *x == output_of(self) ==> func.requires((x,)),
        ensures
            r.branch_of() is Continue <==> self.branch_of() is Continue,
            debug && self.branch_of() is Continue ==> exists|x: &mut Self::Output|
                *x == output_of(self) && func.ensures((x,), ()) && output_of(r) == *final(x),
            !debug || self.branch_of() is Break ==> r == self,
    {
        if debug {
            self.tap_continue_mut(func)
        } else {
            self
        }
    }

    /// [`TapFallible::tap_break`] in a debug build; in a release build `func`
    /// is not called.
    fn tap_break_dbg<F: FnOnce(&Self::Residual)>(self, debug: bool, func: F) -> (r: Self)
        requires
            debug && self.branch_of() is Break ==> func.requires((&residual_of(self),)),
        ensures
            r == self,
            debug && self.branch_of() is Break ==> func.ensures((&residual_of(self),), ()),
    {
        if debug {
            self.tap_break(func)
        } else {
            self
        }
    }

    /// [`TapFallible::tap_break_mut`] in a debug build; in a release build
    /// `func` is not called and `self` is returned as it came.
    fn tap_break_mut_dbg<F: FnOnce(&mut Self::Residual)>(self, debug: bool, func: F) -> (r:
        Self)
        requires
            debug && self.branch_of() is Break ==> forall|x: &mut Self::Residual|
                *x == residual_of(self) ==> func.requires((x,)),
        ensures
            r.branch_of() is Break <==> self.branch_of() is Break,
            debug && self.branch_of() is Break ==> exists|x: &mut Self::Residual|
                *x == residual_of(self) && func.ensures((x,), ()) && residual_of(r) == *final(x),
            !debug || self.branch_of() is Continue ==> r == self,
    {
        if debug {
            self.tap_break_mut(func)
        } else {
            self
        }
    }
}

impl<O: Outcome> TapFallible for O {}

} // verus!

