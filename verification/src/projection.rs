//! How a stored value becomes the representation that observers receive.

use vstd::prelude::*;

verus! {

/// Turns the value of a cell into the representation handed to observers.
///
/// A projection may build a fresh representation on every call, so what it
/// returns is described by a relation and not by a function. Applying it may
/// change the projection itself, but never the relation.
pub trait Projection<T, U> {
    /// The projection can be applied to every value.
    spec fn total(&self) -> bool;

    /// Holds of `(t, u)` when `u` is a representation that the projection may
    /// produce for `t`.
    spec fn relation(&self) -> spec_fn(T, U) -> bool;

    /// Produces a representation of `t`.
    fn apply(&mut self, t: &T) -> (u: U)
        requires
            old(self).total(),
        ensures
            (old(self).relation())(*t, u),
            final(self).total(),
            final(self).relation() == old(self).relation(),
    ;
}

/// The function `f` can be called on every value.
pub open spec fn function_total<T, U, F: FnMut(&T) -> U>(f: F) -> bool {
    forall|t: &T| call_requires(f, (t,))
}

/// The relation of the function `f`: a value and whatever a call of `f` on
/// that value can return.
pub open spec fn function_relation<T, U, F: FnMut(&T) -> U>(f: F) -> spec_fn(T, U) -> bool {
    |t: T, u: U| call_ensures(f, (&t,), u)
}

/// The relation of [`CloneInto`]: a value and whatever `Into` can make of a
/// clone of it.
pub open spec fn clone_into_relation<T: Clone + Into<U>, U>() -> spec_fn(T, U) -> bool {
    |t: T, u: U| exists|c: T| cloned(t, c) && call_ensures(<T as Into<U>>::into, (c,), u)
}

/// Every function from `&T` to `U` is a projection.
impl<T, U, F: FnMut(&T) -> U> Projection<T, U> for F {
    open spec fn total(&self) -> bool {
        function_total(*self)
    }

    open spec fn relation(&self) -> spec_fn(T, U) -> bool {
        function_relation(*self)
    }

    fn apply(&mut self, t: &T) -> (u: U) {
        self(t)
    }
}

/// The projection of a value that can be duplicated and converted: a clone
/// of the value, turned into the representation by `Into`.
pub struct CloneInto;

impl<T: Clone + Into<U>, U> Projection<T, U> for CloneInto {
    open spec fn total(&self) -> bool {
        true
    }

    open spec fn relation(&self) -> spec_fn(T, U) -> bool {
        clone_into_relation::<T, U>()
    }

    fn apply(&mut self, t: &T) -> (u: U) {
        let c = t.clone();
        assert(cloned(*t, c));
        let u = c.into();
        assert(call_ensures(<T as Into<U>>::into, (c,), u));
        u
    }
}

} // verus!
