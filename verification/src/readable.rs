//! The observable cell.

use crate::model::{activated, mutated, Snapshot};
use crate::projection::{
    clone_into_relation, function_relation, function_total, CloneInto, Projection,
};
use vstd::prelude::*;

verus! {

/// A value of type `T` with one owner, published to observers as a `U`.
///
/// `P` is the publish function that the host's store hands over when its
/// first observer arrives, and `H` the handle of that store. The cell cannot
/// be duplicated: a second instance would be a second way to change what
/// observers take for one value.
#[verifier::reject_recursive_types(T)]
#[verifier::reject_recursive_types(U)]
pub struct Readable<T, U, P, H> {
    value: T,
    projection: Box<dyn Projection<T, U>>,
    channel: Option<P>,
    store: Option<H>,
    published: Ghost<Seq<U>>,
}

impl<T, U, P, H> View for Readable<T, U, P, H> {
    type V = Snapshot<T, U>;

    closed spec fn view(&self) -> Snapshot<T, U> {
        Snapshot { value: self.value, live: self.channel is Some, published: self.published@ }
    }
}

impl<T, U, P: FnMut(U), H> Readable<T, U, P, H> {
    /// Which representations the cell's projection may produce for a value.
    pub closed spec fn relation(&self) -> spec_fn(T, U) -> bool {
        self.projection.relation()
    }

    /// The projection can be applied to every value.
    pub closed spec fn projection_total(&self) -> bool {
        self.projection.total()
    }

    /// The publish function, once the host's store has handed it over.
    pub closed spec fn channel(&self) -> Option<P> {
        self.channel
    }

    /// The handle of the host's store, once one has been attached.
    pub closed spec fn store(&self) -> Option<H> {
        self.store
    }

    /// The cell is usable: its projection and its publish function accept
    /// every argument, it is live exactly when it holds a publish function,
    /// and a dormant cell has published nothing.
    pub open spec fn wf(&self) -> bool {
        &&& self.projection_total()
        &&& self@.live == (self.channel() is Some)
        &&& match self.channel() {
            Some(p) => forall|u: U| call_requires(p, (u,)),
            None => self@.published.len() == 0,
        }
    }

    /// The cell is as construction leaves it: it holds `value`, is dormant
    /// and detached, and has published nothing.
    pub open spec fn fresh(&self, value: T) -> bool {
        &&& self.wf()
        &&& self@ == Snapshot { value, live: false, published: Seq::<U>::empty() }
        &&& self.channel() is None
        &&& self.store() is None
    }

    /// `post` is `pre` after one mutation that left `installed` as the value:
    /// a live cell has projected `installed` once and handed the result to
    /// its publish function, a dormant one has told nobody, and nothing else
    /// has changed.
    pub open spec fn mutation(pre: Self, post: Self, installed: T) -> bool {
        &&& post.wf()
        &&& post.relation() == pre.relation()
        &&& post.channel() == pre.channel()
        &&& post.store() == pre.store()
        &&& mutated(pre.relation(), pre@, post@, installed)
        &&& pre.channel() matches Some(p) ==> call_ensures(p, (post@.published.last(),), ())
    }

    /// `post` is `pre` after the store's start hook ran with `publish`: the
    /// cell has projected its current value once, handed the result to
    /// `publish`, and kept `publish` for the mutations to come.
    pub open spec fn activation(pre: Self, post: Self, publish: P) -> bool {
        &&& post.wf()
        &&& post.relation() == pre.relation()
        &&& post.channel() == Some(publish)
        &&& post.store() == pre.store()
        &&& activated(pre.relation(), pre@, post@)
        &&& call_ensures(publish, (post@.published.last(),), ())
    }

    /// Wires a cell: the value and its projection, with no publish function
    /// and no store yet.
    fn init_store<F: Projection<T, U> + 'static>(initial_value: T, projection: F) -> (cell: Self)
        requires
            projection.total(),
        ensures
            cell.fresh(initial_value),
            cell.relation() == projection.relation(),
    {
        Readable {
            value: initial_value,
            projection: Box::new(projection),
            channel: None,
            store: None,
            published: Ghost(Seq::empty()),
        }
    }

    /// Creates a cell that publishes a converted clone of its value.
    pub fn new(initial_value: T) -> (cell: Self) where T: Clone + Into<U>
        ensures
            cell.fresh(initial_value),
            cell.relation() == clone_into_relation::<T, U>(),
    {
        Self::init_store(initial_value, CloneInto)
    }

    /// Creates a cell that publishes what `mapping_fn` makes of its value.
    pub fn new_mapped<F: FnMut(&T) -> U + 'static>(initial_value: T, mapping_fn: F) -> (cell: Self)
        requires
            function_total(mapping_fn),
        ensures
            cell.fresh(initial_value),
            cell.relation() == function_relation(mapping_fn),
    {
        Self::init_store(initial_value, mapping_fn)
    }

    /// Projects the current value and forwards the result, if anyone can be
    /// listening.
    fn publish(&mut self)
        requires
            old(self).wf(),
        ensures
            Self::mutation(*old(self), *final(self), old(self)@.value),
    {
        match &mut self.channel {
            Some(publish) => {
                let representation = self.projection.apply(&self.value);
                let ghost sent = representation;
                publish(representation);
                self.published = Ghost(self.published@.push(sent));
            },
            None => {},
        }
    }

    /// Replaces the value, then publishes its projection if the cell is live.
    pub fn set(&mut self, new_value: T)
        requires
            old(self).wf(),
        ensures
            Self::mutation(*old(self), *final(self), new_value),
    {
        self.value = new_value;
        self.publish();
    }

    /// Lets `f` change the value in place and returns what `f` returns. The
    /// projection of the value that `f` left is then published if the cell
    /// is live, whether or not `f` changed anything.
    pub fn set_with<G: FnOnce(&mut T) -> O, O>(&mut self, f: G) -> (out: O)
        requires
            old(self).wf(),
            forall|slot: &mut T| *slot == old(self)@.value ==> call_requires(f, (slot,)),
        ensures
            exists|slot: &mut T|
                *slot == old(self)@.value && *final(slot) == final(self)@.value && call_ensures(
                    f,
                    (slot,),
                    out,
                ),
            Self::mutation(*old(self), *final(self), final(self)@.value),
    {
        let out = f(&mut self.value);
        self.publish();
        out
    }

    /// The start hook of the host's store, which runs when the first
    /// observer arrives. A dormant cell publishes the projection of its
    /// current value through `publish` and keeps `publish`; a live cell keeps
    /// the function it has and drops the new one.
    pub fn start(&mut self, publish: P) -> (captured: bool)
        requires
            old(self).wf(),
            forall|u: U| call_requires(publish, (u,)),
        ensures
            captured == !old(self)@.live,
            captured ==> Self::activation(*old(self), *final(self), publish),
            !captured ==> *final(self) == *old(self),
    {
        if self.channel.is_some() {
            return false;
        }
        let mut publish = publish;
        let representation = self.projection.apply(&self.value);
        let ghost sent = representation;
        publish(representation);
        self.channel = Some(publish);
        self.published = Ghost(self.published@.push(sent));
        true
    }

    /// Gives the cell the handle of the store that the host made for it. The
    /// first handle stays: a cell that has one drops the new one.
    pub fn attach(&mut self, store: H) -> (attached: bool)
        requires
            old(self).wf(),
        ensures
            final(self).wf(),
            final(self)@ == old(self)@,
            final(self).relation() == old(self).relation(),
            final(self).channel() == old(self).channel(),
            attached == (old(self).store() is None),
            final(self).store() == if attached {
                Some(store)
            } else {
                old(self).store()
            },
    {
        if self.store.is_some() {
            return false;
        }
        self.store = Some(store);
        true
    }

    /// The handle of the host's store, to be passed to observers. It lets
    /// them subscribe and unsubscribe, and nothing else.
    pub fn get_store(&self) -> (handle: &H)
        requires
            self.store() is Some,
        ensures
            self.store() == Some(*handle),
    {
        self.store.as_ref().unwrap()
    }

    /// Whether a store handle has been attached.
    pub fn has_store(&self) -> (attached: bool)
        ensures
            attached == (self.store() is Some),
    {
        self.store.is_some()
    }

    /// Whether the publish function has been captured.
    pub fn is_live(&self) -> (live: bool)
        ensures
            live == self@.live,
    {
        self.channel.is_some()
    }
}

impl<T: Default + Clone + Into<U>, U, P: FnMut(U), H> Default for Readable<T, U, P, H> {
    /// A cell made by `new` from the default value of `T`.
    fn default() -> (cell: Self)
        ensures
            call_ensures(T::default, (), cell@.value),
            cell.fresh(cell@.value),
            cell.relation() == clone_into_relation::<T, U>(),
    {
        Self::new(T::default())
    }
}

impl<T, U, P, H> std::ops::Deref for Readable<T, U, P, H> {
    type Target = T;

    /// Reads the current value.
    fn deref(&self) -> (value: &T)
        ensures
            *value == self@.value,
    {
        &self.value
    }
}

} // verus!
