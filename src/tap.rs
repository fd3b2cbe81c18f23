//! Point-free inspection and modification of values.
//!
//! Every method here takes a value, hands a borrow of it (or of a view derived
//! from it) to an effect function, and returns the value. The contracts state
//! that an immutable tap returns the value unchanged, that a mutable tap returns
//! it changed exactly as the effect changed it (through the view, where there is
//! one), and which argument the effect was called with.
use core::borrow::{Borrow, BorrowMut};
use core::ops::{Deref, DerefMut};
use vstd::prelude::*;

verus! {

/// Relies on `Borrow::borrow`: the view of `s` that the impl of `S` gives.
#[verifier::external_body]
fn borrow_view<S: Borrow<B>, B: ?Sized>(s: &S) -> &B {
    s.borrow()
}

/// Relies on `BorrowMut::borrow_mut`: the mutable view of `s` that the impl of
/// `S` gives.
#[verifier::external_body]
fn borrow_mut_view<S: BorrowMut<B>, B: ?Sized>(s: &mut S) -> &mut B {
    s.borrow_mut()
}

/// Relies on `AsRef::as_ref`: the reference into `s` that the impl of `S` gives.
#[verifier::external_body]
fn as_ref_view<S: AsRef<R>, R: ?Sized>(s: &S) -> &R {
    s.as_ref()
}

/// Relies on `AsMut::as_mut`: the mutable reference into `s` that the impl of
/// `S` gives.
#[verifier::external_body]
fn as_mut_view<S: AsMut<R>, R: ?Sized>(s: &mut S) -> &mut R {
    s.as_mut()
}

/// `v` is the view that `Borrow::<B>::borrow` gives of `s`.
///
/// Verus knows nothing of an arbitrary impl of `Borrow`, so this relation is
/// left closed: it only lets a contract say which view an effect received.
pub closed spec fn is_borrow_of<S: Borrow<B>, B: ?Sized>(s: &S, v: &B) -> bool {
    call_ensures(borrow_view::<S, B>, (s,), v)
}

/// `v` is the view that `BorrowMut::<B>::borrow_mut` gives of `s`; as a
/// relation of mutable references it also covers how `*final(v)` shows in
/// `*final(s)`, as far as the impl of `S` decides.
pub closed spec fn is_borrow_mut_of<S: BorrowMut<B>, B: ?Sized>(s: &mut S, v: &mut B) -> bool {
    call_ensures(borrow_mut_view::<S, B>, (s,), v)
}

/// A call of `borrow_mut_view` gives `is_borrow_mut_of` of its argument and
/// result.
broadcast proof fn lemma_borrow_mut_view<S: BorrowMut<B>, B: ?Sized>(s: &mut S, v: &mut B)
    ensures
        #[trigger] call_ensures(borrow_mut_view::<S, B>, (s,), v) ==> is_borrow_mut_of(s, v),
{
}

/// `v` is the reference that `AsRef::<R>::as_ref` gives of `s`.
pub closed spec fn is_as_ref_of<S: AsRef<R>, R: ?Sized>(s: &S, v: &R) -> bool {
    call_ensures(as_ref_view::<S, R>, (s,), v)
}

/// `v` is the reference that `AsMut::<R>::as_mut` gives of `s`; as a relation
/// of mutable references it also covers how `*final(v)` shows in `*final(s)`,
/// as far as the impl of `S` decides.
pub closed spec fn is_as_mut_of<S: AsMut<R>, R: ?Sized>(s: &mut S, v: &mut R) -> bool {
    call_ensures(as_mut_view::<S, R>, (s,), v)
}

/// A call of `as_mut_view` gives `is_as_mut_of` of its argument and result.
broadcast proof fn lemma_as_mut_view<S: AsMut<R>, R: ?Sized>(s: &mut S, v: &mut R)
    ensures
        #[trigger] call_ensures(as_mut_view::<S, R>, (s,), v) ==> is_as_mut_of(s, v),
{
}

/// Point-free value inspection and modification.
///
/// Each method takes `self`, lets `func` observe or modify it, and returns it,
/// so that a tap can be inserted into an expression chain without a `let`.
///
/// The `_dbg` forms take `debug`, which the caller sets to whether this is a
/// debug build (`cfg!(debug_assertions)`); when it is false the effect is not
/// called and `self` is returned as it came.
pub trait Tap: Sized {
    /// Immutable access to a value: `func` sees `&self`, and `self` is returned.
    fn tap<F: FnOnce(&Self)>(self, func: F) -> (r: Self)
        requires
            func.requires((&self,)),
        ensures
            r == self,
            func.ensures((&self,), ()),
    {
        func(&self);
        self
    }

    /// Mutable access to a value: `func` may modify it, and the modified value
    /// is returned.
    fn tap_mut<F: FnOnce(&mut Self)>(self, func: F) -> (r: Self)
        requires
            forall|x: &mut Self| *x == self ==> func.requires((x,)),
        ensures
            exists|x: &mut Self| *x == self && func.ensures((x,), ()) && *final(x) == r,
    {
        let mut s = self;
        func(&mut s);
        s
    }

    /// Immutable access to the `Borrow<B>` view of a value.
    fn tap_borrow<B: ?Sized, F: FnOnce(&B)>(self, func: F) -> (r: Self) where
        Self: Borrow<B>,
        requires
            forall|v: &B| is_borrow_of(&self, v) ==> func.requires((v,)),
        ensures
            r == self,
            exists|v: &B|
                is_borrow_of(&self, v) && func.ensures((v,), ()),
    {
        let v = borrow_view::<Self, B>(&self);
        assert(is_borrow_of(&self, v));
        func(v);
        self
    }

    /// Mutable access to the `BorrowMut<B>` view of a value.
    fn tap_borrow_mut<B: ?Sized, F: FnOnce(&mut B)>(self, func: F) -> (r: Self) where
        Self: BorrowMut<B>,
        requires
            forall|s: &mut Self, v: &mut B|
                *s == self && is_borrow_mut_of(s, v) ==> func.requires((v,)),
        ensures
            exists|s: &mut Self, v: &mut B|
                *s == self && is_borrow_mut_of(s, v) && func.ensures((v,), ()) && *final(s) == r,
    {
        broadcast use lemma_borrow_mut_view;
        let mut s = self;
        func(borrow_mut_view::<Self, B>(&mut s));
        s
    }

    /// Immutable access to the `AsRef<R>` view of a value.
    fn tap_ref<R: ?Sized, F: FnOnce(&R)>(self, func: F) -> (r: Self) where
        Self: AsRef<R>,
        requires
            forall|v: &R| is_as_ref_of(&self, v) ==> func.requires((v,)),
        ensures
            r == self,
            exists|v: &R|
                is_as_ref_of(&self, v) && func.ensures((v,), ()),
    {
        let v = as_ref_view::<Self, R>(&self);
        assert(is_as_ref_of(&self, v));
        func(v);
        self
    }

    /// Mutable access to the `AsMut<R>` view of a value.
    fn tap_ref_mut<R: ?Sized, F: FnOnce(&mut R)>(self, func: F) -> (r: Self) where
        Self: AsMut<R>,
        requires
            forall|s: &mut Self, v: &mut R|
                *s == self && is_as_mut_of(s, v) ==> func.requires((v,)),
        ensures
            exists|s: &mut Self, v: &mut R|
                *s == self && is_as_mut_of(s, v) && func.ensures((v,), ()) && *final(s) == r,
    {
        broadcast use lemma_as_mut_view;
        let mut s = self;
        func(as_mut_view::<Self, R>(&mut s));
        s
    }

    /// Immutable access to the `Deref::Target` of a value.
    fn tap_deref<T: ?Sized, F: FnOnce(&T)>(self, func: F) -> (r: Self) where
        Self: Deref<Target = T>,
        requires
            forall|v: &T| call_ensures(Self::deref, (&self,), v) ==> func.requires((v,)),
        ensures
            r == self,
            exists|v: &T| call_ensures(Self::deref, (&self,), v) && func.ensures((v,), ()),
    {
        func(Deref::deref(&self));
        self
    }

    /// Mutable access to the `Deref::Target` of a value.
    fn tap_deref_mut<T: ?Sized, F: FnOnce(&mut T)>(self, func: F) -> (r: Self) where
        Self: DerefMut + Deref<Target = T>,
        requires
            forall|s: &mut Self, v: &mut T|
                *s == self && call_ensures(Self::deref_mut, (s,), v) ==> func.requires((v,)),
        ensures
            exists|s: &mut Self, v: &mut T|
                *s == self && call_ensures(Self::deref_mut, (s,), v) && func.ensures((v,), ())
                    && *final(s) == r,
    {
        let mut s = self;
        func(DerefMut::deref_mut(&mut s));
        s
    }

    /// [`Tap::tap`] in a debug build; in a release build `func` is not called.
    fn tap_dbg<F: FnOnce(&Self)>(self, debug: bool, func: F) -> (r: Self)
        requires
            debug ==> func.requires((&self,)),
        ensures
            r == self,
            debug ==> func.ensures((&self,), ()),
    {
        if debug {
            func(&self);
        }
        self
    }

    /// [`Tap::tap_mut`] in a debug build; in a release build `func` is not
    /// called and `self` is returned as it came.
    fn tap_mut_dbg<F: FnOnce(&mut Self)>(self, debug: bool, func: F) -> (r: Self)
        requires
            debug ==> forall|x: &mut Self| *x == self ==> func.requires((x,)),
        ensures
            debug ==> exists|x: &mut Self| *x == self && func.ensures((x,), ()) && *final(x) == r,
            !debug ==> r == self,
    {
        let mut s = self;
        if debug {
            func(&mut s);
        }
        s
    }

    /// [`Tap::tap_borrow`] in a debug build; in a release build `func` is not
    /// called.
    fn tap_borrow_dbg<B: ?Sized, F: FnOnce(&B)>(self, debug: bool, func: F) -> (r: Self) where
        Self: Borrow<B>,
        requires
            debug ==> forall|v: &B| is_borrow_of(&self, v) ==> func.requires((v,)),
        ensures
            r == self,
            debug ==> exists|v: &B| is_borrow_of(&self, v) && func.ensures((v,), ()),
    {
        if debug {
            let v = borrow_view::<Self, B>(&self);
            assert(is_borrow_of(&self, v));
            func(v);
        }
        self
    }

    /// [`Tap::tap_borrow_mut`] in a debug build; in a release build `func` is
    /// not called and `self` is returned as it came.
    fn tap_borrow_mut_dbg<B: ?Sized, F: FnOnce(&mut B)>(self, debug: bool, func: F) -> (r:
        Self) where
        Self: BorrowMut<B>,
        requires
            debug ==> forall|s: &mut Self, v: &mut B|
                *s == self && is_borrow_mut_of(s, v) ==> func.requires((v,)),
        ensures
            debug ==> exists|s: &mut Self, v: &mut B|
                *s == self && is_borrow_mut_of(s, v) && func.ensures((v,), ()) && *final(s) == r,
            !debug ==> r == self,
    {
        broadcast use lemma_borrow_mut_view;
        let mut s = self;
        if debug {
            func(borrow_mut_view::<Self, B>(&mut s));
        }
        s
    }

    /// [`Tap::tap_ref`] in a debug build; in a release build `func` is not
    /// called.
    fn tap_ref_dbg<R: ?Sized, F: FnOnce(&R)>(self, debug: bool, func: F) -> (r: Self) where
        Self: AsRef<R>,
        requires
            debug ==> forall|v: &R| is_as_ref_of(&self, v) ==> func.requires((v,)),
        ensures
            r == self,
            debug ==> exists|v: &R| is_as_ref_of(&self, v) && func.ensures((v,), ()),
    {
        if debug {
            let v = as_ref_view::<Self, R>(&self);
            assert(is_as_ref_of(&self, v));
            func(v);
        }
        self
    }

    /// [`Tap::tap_ref_mut`] in a debug build; in a release build `func` is not
    /// called and `self` is returned as it came.
    fn tap_ref_mut_dbg<R: ?Sized, F: FnOnce(&mut R)>(self, debug: bool, func: F) -> (r: Self) where
        Self: AsMut<R>,
        requires
            debug ==> forall|s: &mut Self, v: &mut R|
                *s == self && is_as_mut_of(s, v) ==> func.requires((v,)),
        ensures
            debug ==> exists|s: &mut Self, v: &mut R|
                *s == self && is_as_mut_of(s, v) && func.ensures((v,), ()) && *final(s) == r,
            !debug ==> r == self,
    {
        broadcast use lemma_as_mut_view;
        let mut s = self;
        if debug {
            func(as_mut_view::<Self, R>(&mut s));
        }
        s
    }

    /// [`Tap::tap_deref`] in a debug build; in a release build `func` is not
    /// called.
    fn tap_deref_dbg<T: ?Sized, F: FnOnce(&T)>(self, debug: bool, func: F) -> (r: Self) where
        Self: Deref<Target = T>,
        requires
            debug ==> forall|v: &T| call_ensures(Self::deref, (&self,), v) ==> func.requires((v,)),
        ensures
            r == self,
            debug ==> exists|v: &T| call_ensures(Self::deref, (&self,), v) && func.ensures((v,), ()),
    {
        if debug {
            func(Deref::deref(&self));
        }
        self
    }

    /// [`Tap::tap_deref_mut`] in a debug build; in a release build `func` is
    /// not called and `self` is returned as it came.
    fn tap_deref_mut_dbg<T: ?Sized, F: FnOnce(&mut T)>(self, debug: bool, func: F) -> (r:
        Self) where
        Self: DerefMut + Deref<Target = T>,
        requires
            debug ==> forall|s: &mut Self, v: &mut T|
                *s == self && call_ensures(Self::deref_mut, (s,), v) ==> func.requires((v,)),
        ensures
            debug ==> exists|s: &mut Self, v: &mut T|
                *s == self && call_ensures(Self::deref_mut, (s,), v) && func.ensures((v,), ())
                    && *final(s) == r,
            !debug ==> r == self,
    {
        let mut s = self;
        if debug {
            func(DerefMut::deref_mut(&mut s));
        }
        s
    }
}

impl<T> Tap for T {}

} // verus!
