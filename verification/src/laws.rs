//! What holds of every cell, whatever is done to it.
//!
//! The laws speak of a history: the states that one cell goes through while
//! it is mutated, with the value that each mutation installed.

use crate::projection::clone_into_relation;
use crate::readable::Readable;
use vstd::prelude::*;

verus! {

/// `cells` are the states of one cell under a run of mutations, by `set` or
/// by `set_with`: `cells[i + 1]` is `cells[i]` after the mutation that
/// installed `installed[i]`.
pub open spec fn history<T, U, P: FnMut(U), H>(
    cells: Seq<Readable<T, U, P, H>>,
    installed: Seq<T>,
) -> bool {
    &&& cells.len() == installed.len() + 1
    &&& cells[0].wf()
    &&& forall|i: int|
        #![trigger cells[i]]
        #![trigger installed[i]]
        0 <= i < installed.len() ==> Readable::mutation(cells[i], cells[i + 1], installed[i])
}

/// The value that a history ends with: the last one installed, or the
/// initial one where nothing was installed.
pub open spec fn current<T, U, P: FnMut(U), H>(
    cells: Seq<Readable<T, U, P, H>>,
    installed: Seq<T>,
) -> T {
    if installed.len() == 0 {
        cells[0]@.value
    } else {
        installed.last()
    }
}

/// Mutations change the value and the log of publications, and nothing else:
/// throughout a history the cell stays usable, keeps its projection, the
/// publish function it captured and its store handle, and stays live or
/// dormant as it began.
pub proof fn law_mutations_keep_the_wiring<T, U, P: FnMut(U), H>(
    cells: Seq<Readable<T, U, P, H>>,
    installed: Seq<T>,
    i: int,
)
    requires
        history(cells, installed),
        0 <= i <= installed.len(),
    ensures
        cells[i].wf(),
        cells[i].relation() == cells[0].relation(),
        cells[i].channel() == cells[0].channel(),
        cells[i].store() == cells[0].store(),
        cells[i]@.live == cells[0]@.live,
    decreases i,
{
    if i > 0 {
        law_mutations_keep_the_wiring(cells, installed, i - 1);
        assert(Readable::mutation(cells[i - 1], cells[i], installed[i - 1]));
    }
}

/// Read consistency: between one mutation and the next, the cell holds
/// exactly the value that the earlier one installed.
pub proof fn law_read_consistency<T, U, P: FnMut(U), H>(
    cells: Seq<Readable<T, U, P, H>>,
    installed: Seq<T>,
    i: int,
)
    requires
        history(cells, installed),
        0 <= i < installed.len(),
    ensures
        cells[i + 1]@.value == installed[i],
        cells.last()@.value == current(cells, installed),
{
    assert(Readable::mutation(cells[i], cells[i + 1], installed[i]));
    let n = installed.len() as int;
    assert(Readable::mutation(cells[n - 1], cells[n], installed[n - 1]));
}

/// Publish once: every mutation of a live cell appends exactly one
/// representation to what the cell has published, a projection of the value
/// that this mutation installed, and hands it to the captured publish
/// function.
pub proof fn law_publish_once<T, U, P: FnMut(U), H>(
    cells: Seq<Readable<T, U, P, H>>,
    installed: Seq<T>,
    i: int,
)
    requires
        history(cells, installed),
        cells[0]@.live,
        0 <= i < installed.len(),
    ensures
        cells[i + 1]@.published.len() == cells[i]@.published.len() + 1,
        cells[i + 1]@.published.drop_last() == cells[i]@.published,
        (cells[0].relation())(installed[i], cells[i + 1]@.published.last()),
        cells[0].channel() matches Some(publish) && call_ensures(
            publish,
            (cells[i + 1]@.published.last(),),
            (),
        ),
{
    law_mutations_keep_the_wiring(cells, installed, i);
    assert(Readable::mutation(cells[i], cells[i + 1], installed[i]));
}

/// The log of a live cell: after `n` mutations it is what it was, followed
/// by `n` representations, the `k`-th a projection of the `k`-th value
/// installed.
pub proof fn law_one_publication_per_mutation<T, U, P: FnMut(U), H>(
    cells: Seq<Readable<T, U, P, H>>,
    installed: Seq<T>,
    i: int,
)
    requires
        history(cells, installed),
        cells[0]@.live,
        0 <= i <= installed.len(),
    ensures
        cells[i]@.published.len() == cells[0]@.published.len() + i,
        cells[i]@.published.take(cells[0]@.published.len() as int) == cells[0]@.published,
        forall|k: int|
            0 <= k < i ==> (cells[0].relation())(
                #[trigger] installed[k],
                cells[i]@.published[cells[0]@.published.len() + k],
            ),
    decreases i,
{
    let before = cells[0]@.published;
    if i == 0 {
        assert(before.take(before.len() as int) =~= before);
    } else {
        law_one_publication_per_mutation(cells, installed, i - 1);
        law_publish_once(cells, installed, i - 1);
        let earlier = cells[i - 1]@.published;
        let later = cells[i]@.published;
        assert(later.drop_last() == earlier);
        assert(later.take(before.len() as int) =~= earlier.take(before.len() as int));
        assert forall|k: int| 0 <= k < i implies (cells[0].relation())(
            #[trigger] installed[k],
            later[before.len() + k],
        ) by {
            if k < i - 1 {
                assert(later[before.len() + k] == earlier[before.len() + k]);
            }
        }
    }
}

/// No publication before subscription: while no observer has arrived,
/// mutations publish nothing, and the value still follows them.
pub proof fn law_dormant_cell_is_silent<T, U, P: FnMut(U), H>(
    cells: Seq<Readable<T, U, P, H>>,
    installed: Seq<T>,
    i: int,
)
    requires
        history(cells, installed),
        !cells[0]@.live,
        0 <= i <= installed.len(),
    ensures
        !cells[i]@.live,
        cells[i]@.published.len() == 0,
        i > 0 ==> cells[i]@.value == installed[i - 1],
{
    law_mutations_keep_the_wiring(cells, installed, i);
    if i > 0 {
        assert(Readable::mutation(cells[i - 1], cells[i], installed[i - 1]));
    }
}

/// Replay on subscription: when the first observer arrives after any number
/// of unobserved mutations, the cell publishes exactly one representation, a
/// projection of the value it holds at that moment.
pub proof fn law_replay_on_subscribe<T, U, P: FnMut(U), H>(
    cells: Seq<Readable<T, U, P, H>>,
    installed: Seq<T>,
    publish: P,
    live: Readable<T, U, P, H>,
)
    requires
        history(cells, installed),
        !cells[0]@.live,
        Readable::activation(cells.last(), live, publish),
    ensures
        live@.value == current(cells, installed),
        live@.published.len() == 1,
        (cells[0].relation())(current(cells, installed), live@.published[0]),
        call_ensures(publish, (live@.published[0],), ()),
{
    let n = installed.len() as int;
    law_mutations_keep_the_wiring(cells, installed, n);
    law_dormant_cell_is_silent(cells, installed, n);
}

/// Default construction: the default cell and a new cell made from the same
/// default value cannot be told apart. They hold the same value, are dormant
/// and detached, and publish by the same relation, so the first
/// representation that either publishes is one that the other may publish.
pub proof fn law_default_is_new<T: Default + Clone + Into<U>, U, P: FnMut(U), H>(
    by_default: Readable<T, U, P, H>,
    by_new: Readable<T, U, P, H>,
    value: T,
    publish: P,
    live: Readable<T, U, P, H>,
)
    requires
        by_default.fresh(value),
        by_default.relation() == clone_into_relation::<T, U>(),
        by_new.fresh(value),
        by_new.relation() == clone_into_relation::<T, U>(),
        Readable::activation(by_default, live, publish),
    ensures
        by_default@ == by_new@,
        by_default.relation() == by_new.relation(),
        by_default.channel() == by_new.channel(),
        by_default.store() == by_new.store(),
        live@.published.len() == 1,
        (by_new.relation())(by_new@.value, live@.published[0]),
{
}

} // verus!
