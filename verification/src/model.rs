//! The cell as contracts see it, and what one step does to it.

use vstd::prelude::*;

verus! {

/// What can be observed of a cell at one moment.
pub struct Snapshot<T, U> {
    /// The current value.
    pub value: T,
    /// Whether the publish function has been captured.
    pub live: bool,
    /// Every representation handed to the publish function so far, oldest
    /// first.
    pub published: Seq<U>,
}

/// `after` is `before` followed by exactly one representation of `value`.
pub open spec fn publishes_once<T, U>(
    relation: spec_fn(T, U) -> bool,
    before: Seq<U>,
    after: Seq<U>,
    value: T,
) -> bool {
    &&& after.len() == before.len() + 1
    &&& after.drop_last() =~= before
    &&& relation(value, after.last())
}

/// One mutation: `installed` becomes the value, and a live cell publishes one
/// representation of it while a dormant one publishes nothing.
pub open spec fn mutated<T, U>(
    relation: spec_fn(T, U) -> bool,
    pre: Snapshot<T, U>,
    post: Snapshot<T, U>,
    installed: T,
) -> bool {
    &&& post.value == installed
    &&& post.live == pre.live
    &&& if pre.live {
        publishes_once(relation, pre.published, post.published, installed)
    } else {
        post.published == pre.published
    }
}

/// The first observer arrives: a dormant cell becomes live and publishes one
/// representation of the value it holds at that moment.
pub open spec fn activated<T, U>(
    relation: spec_fn(T, U) -> bool,
    pre: Snapshot<T, U>,
    post: Snapshot<T, U>,
) -> bool {
    &&& !pre.live
    &&& post.live
    &&& post.value == pre.value
    &&& publishes_once(relation, pre.published, post.published, pre.value)
}

} // verus!
