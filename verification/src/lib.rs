//! Hierarchical polymorphism with enums, modelled and checked.
//!
//! A base sum type is split into a family of sub-types, each holding a
//! subset of the base declaration's variants, together with conversion
//! operations between the base type and its sub-types and between sibling
//! sub-types.  The generator's analysis and synthesis steps work on the
//! crate's own declaration model and carry contracts that pin their
//! results down.

use std::rc::Rc;
use std::sync::Arc;
use vstd::prelude::*;

pub mod ast;
pub mod ident;
pub mod laws;
pub mod plan;
pub mod scan;
pub mod synth;
pub mod tags;
pub mod value;

verus! {

/// The main trait for polymorphic enums: casting between related types
/// of one hierarchy.  Generated types implement it; the container
/// implementations below lift it over common ownership wrappers.
pub trait PolyEnum<T>: Sized {
    /// Attempts to cast from one enum to another.
    fn cast(self) -> Option<T>;
}

/// The conversion capability the attribute-style generated types
/// implement: attempt to produce a `T`, returning nothing on a
/// variant the target type does not hold.
pub trait Cast<T>: Sized {
    /// Attempts to cast from one enum to another.
    fn cast(self) -> Option<T>;
}

/// The by-reference counterpart of [`Cast`], generated only by the
/// attribute-style entry point: attempt to view a value as a related
/// type without copying its payload.
pub trait CastRef<T> {
    /// Attempts to view the value as a `T`.
    fn cast_ref(&self) -> Option<&T>;

    /// Attempts to view the value mutably as a `T`.
    fn cast_mut(&mut self) -> Option<&mut T>;
}

/// Relies on std's `Arc::unwrap_or_clone`: it returns the held value
/// itself when this reference is the only one, and a clone of it
/// otherwise.
#[verifier::external_body]
fn arc_unwrap_or_clone<T: Clone>(v: Arc<T>) -> (r: T)
    ensures
        r == v || (exists|w: T| #[trigger] vstd::pervasive::cloned::<T>(w, r) && w == v),
{
    Arc::unwrap_or_clone(v)
}

/// Relies on std's `Rc::unwrap_or_clone`: it returns the held value
/// itself when this reference is the only one, and a clone of it
/// otherwise.
#[verifier::external_body]
fn rc_unwrap_or_clone<T: Clone>(v: Rc<T>) -> (r: T)
    ensures
        r == v || (exists|w: T| #[trigger] vstd::pervasive::cloned::<T>(w, r) && w == v),
{
    Rc::unwrap_or_clone(v)
}

impl<T: Clone + PolyEnum<U>, U> PolyEnum<Arc<U>> for Arc<T> {
    /// Lifts the cast over a shared pointer: unwraps or clones the
    /// held value, casts it, and rewraps a successful result.  The
    /// result is exactly what the held value's own cast produced on
    /// the unwrapped value.
    fn cast(self) -> (r: Option<Arc<U>>)
        ensures
            r matches Some(u) ==> (exists|inner: T, cu: U|
                (inner == self || (exists|w: T| #[trigger] vstd::pervasive::cloned::<T>(
                    w,
                    inner,
                ) && w == self)) && #[trigger] call_ensures(T::cast, (inner,), Some(cu)) && cu
                    == u),
            r is None ==> (exists|inner: T|
                (inner == self || (exists|w: T| #[trigger] vstd::pervasive::cloned::<T>(
                    w,
                    inner,
                ) && w == self)) && #[trigger] call_ensures(T::cast, (inner,), None::<U>)),
    {
        let inner = arc_unwrap_or_clone(self);
        match inner.cast() {
            Some(u) => Some(Arc::new(u)),
            None => None,
        }
    }
}

impl<T: PolyEnum<U>, U> PolyEnum<Box<U>> for Box<T> {
    /// Lifts the cast over an owning pointer: the result is the boxed
    /// value's own cast, rewrapped.
    fn cast(self) -> (r: Option<Box<U>>)
        ensures
            r matches Some(u) ==> call_ensures(T::cast, (*self,), Some(*u)),
            r is None ==> call_ensures(T::cast, (*self,), None::<U>),
    {
        match (*self).cast() {
            Some(u) => Some(Box::new(u)),
            None => None,
        }
    }
}

impl<T: Clone + PolyEnum<U>, U> PolyEnum<Rc<U>> for Rc<T> {
    /// Lifts the cast over a shared pointer: unwraps or clones the
    /// held value, casts it, and rewraps a successful result.  The
    /// result is exactly what the held value's own cast produced on
    /// the unwrapped value.
    fn cast(self) -> (r: Option<Rc<U>>)
        ensures
            r matches Some(u) ==> (exists|inner: T, cu: U|
                (inner == self || (exists|w: T| #[trigger] vstd::pervasive::cloned::<T>(
                    w,
                    inner,
                ) && w == self)) && #[trigger] call_ensures(T::cast, (inner,), Some(cu)) && cu
                    == u),
            r is None ==> (exists|inner: T|
                (inner == self || (exists|w: T| #[trigger] vstd::pervasive::cloned::<T>(
                    w,
                    inner,
                ) && w == self)) && #[trigger] call_ensures(T::cast, (inner,), None::<U>)),
    {
        let inner = rc_unwrap_or_clone(self);
        match inner.cast() {
            Some(u) => Some(Rc::new(u)),
            None => None,
        }
    }
}

impl<T: PolyEnum<U>, U> PolyEnum<Vec<U>> for Vec<T> {
    /// Lifts the cast over a sequence: casts the elements in order,
    /// and yields no value as soon as one element's cast fails.  A
    /// successful result holds, in order, exactly what each element's
    /// own cast produced; an empty sequence always succeeds.
    #[verifier::loop_isolation(false)]
    fn cast(self) -> (r: Option<Vec<U>>)
        ensures
            r matches Some(out) ==> out@.len() == self@.len() && (forall|i: int|
                0 <= i < self@.len() ==> call_ensures(T::cast, (self@[i],), Some(
                    #[trigger] out@[i],
                ))),
            r is None ==> (exists|i: int|
                0 <= i < self@.len() && #[trigger] call_ensures(T::cast, (self@[i],), None::<U>)),
            self@.len() == 0 ==> r is Some,
    {
        let ghost orig = self@;
        let mut rest = self;
        let mut out: Vec<U> = Vec::new();
        while rest.len() > 0
            invariant
                out@.len() + rest@.len() == orig.len(),
                rest@ == orig.subrange(out@.len() as int, orig.len() as int),
                forall|j: int|
                    0 <= j < out@.len() ==> call_ensures(T::cast, (orig[j],), Some(
                        #[trigger] out@[j],
                    )),
            decreases rest@.len(),
        {
            let ghost k = out@.len() as int;
            let x = rest.remove(0);
            proof {
                assert(x == orig[k]);
            }
            match x.cast() {
                Some(u) => {
                    out.push(u);
                    proof {
                        assert(rest@ =~= orig.subrange(out@.len() as int, orig.len() as int));
                    }
                },
                None => {
                    proof {
                        assert(call_ensures(T::cast, (orig[k],), None::<U>));
                        assert(0 <= k < orig.len());
                    }
                    return None;
                },
            }
        }
        Some(out)
    }
}

} // verus!
