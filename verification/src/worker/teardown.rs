//! The teardown of a batch: every handle that the batch owns is freed, each
//! exactly once.
//!
//! A batch owns one reference to the handle of every payload in it: the
//! payloads of add component, component update, command request and command
//! response ops, and the component data of the entities in an entity query
//! response. What the caller acquired is a reference of the caller's own and
//! is not touched.

use crate::worker::handles::{alive, copied, freed, SharedHandles};
use crate::worker::op::{OpList, WorkerOp};
use crate::worker::{ComponentData, DecodeError, Entity, Handle};
use vstd::prelude::*;

verus! {

/// The handle of a payload, as a sequence of one or none.
pub open spec fn handle_seq(user_handle: Option<Handle>) -> Seq<Handle> {
    match user_handle {
        Some(handle) => seq![handle],
        None => Seq::empty(),
    }
}

/// The handles of a list of component data, in order.
pub open spec fn component_handles(components: Seq<ComponentData>) -> Seq<Handle>
    decreases components.len(),
{
    if components.len() == 0 {
        Seq::empty()
    } else {
        component_handles(components.drop_last()) + handle_seq(components.last().user_handle)
    }
}

/// The handles of the components of a list of entities, in order.
pub open spec fn entity_handles(entities: Seq<Entity>) -> Seq<Handle>
    decreases entities.len(),
{
    if entities.len() == 0 {
        Seq::empty()
    } else {
        entity_handles(entities.drop_last()) + component_handles(entities.last().components@)
    }
}

/// The handles that an op owns.
pub open spec fn embedded_handles(op: WorkerOp) -> Seq<Handle> {
    match op {
        WorkerOp::AddComponent(op) => handle_seq(op.data.user_handle),
        WorkerOp::ComponentUpdate(op) => handle_seq(op.update.user_handle),
        WorkerOp::CommandRequest(op) => handle_seq(op.request.user_handle),
        WorkerOp::CommandResponse(op) => handle_seq(op.response.user_handle),
        WorkerOp::EntityQueryResponse(op) => entity_handles(op.results@),
        _ => Seq::empty(),
    }
}

/// The handles that a decoded batch owns, in the order of the batch.
pub open spec fn batch_handles(ops: Seq<Result<WorkerOp, DecodeError>>) -> Seq<Handle>
    decreases ops.len(),
{
    if ops.len() == 0 {
        Seq::empty()
    } else {
        batch_handles(ops.drop_last()) + match ops.last() {
            Ok(op) => embedded_handles(op),
            Err(_) => Seq::empty(),
        }
    }
}

/// The counts after each of `list` is freed once, in order. A handle that
/// names no live value when its turn comes is passed over.
pub open spec fn freed_all(counts: Seq<nat>, list: Seq<Handle>) -> Seq<nat>
    decreases list.len(),
{
    if list.len() == 0 {
        counts
    } else {
        let before = freed_all(counts, list.drop_last());
        if alive(before, list.last().id as int) {
            freed(before, list.last().id as int)
        } else {
            before
        }
    }
}

/// How many of `list` name no live value when their turn to be freed comes.
pub open spec fn failed_frees(counts: Seq<nat>, list: Seq<Handle>) -> nat
    decreases list.len(),
{
    if list.len() == 0 {
        0
    } else {
        let before = freed_all(counts, list.drop_last());
        failed_frees(counts, list.drop_last()) + if alive(before, list.last().id as int) {
            0nat
        } else {
            1nat
        }
    }
}

fn push_handle(out: &mut Vec<Handle>, user_handle: Option<Handle>)
    ensures
        final(out)@ == old(out)@ + handle_seq(user_handle),
{
    match user_handle {
        Some(handle) => {
            out.push(handle);
            assert(out@ =~= old(out)@ + handle_seq(user_handle));
        },
        None => {
            assert(out@ =~= old(out)@ + handle_seq(user_handle));
        },
    }
}

fn push_component_handles(out: &mut Vec<Handle>, components: &Vec<ComponentData>)
    ensures
        final(out)@ == old(out)@ + component_handles(components@),
{
    let mut i: usize = 0;
    assert(out@ =~= old(out)@ + component_handles(components@.take(0)));
    while i < components.len()
        invariant
            i <= components@.len(),
            out@ == old(out)@ + component_handles(components@.take(i as int)),
        decreases components@.len() - i,
    {
        proof {
            assert(components@.take(i + 1).drop_last() =~= components@.take(i as int));
        }
        push_handle(out, components[i].user_handle);
        assert(out@ =~= old(out)@ + component_handles(components@.take(i + 1)));
        i = i + 1;
    }
    assert(components@.take(i as int) =~= components@);
}

fn push_entity_handles(out: &mut Vec<Handle>, entities: &Vec<Entity>)
    ensures
        final(out)@ == old(out)@ + entity_handles(entities@),
{
    let mut i: usize = 0;
    assert(out@ =~= old(out)@ + entity_handles(entities@.take(0)));
    while i < entities.len()
        invariant
            i <= entities@.len(),
            out@ == old(out)@ + entity_handles(entities@.take(i as int)),
        decreases entities@.len() - i,
    {
        proof {
            assert(entities@.take(i + 1).drop_last() =~= entities@.take(i as int));
        }
        push_component_handles(out, &entities[i].components);
        assert(out@ =~= old(out)@ + entity_handles(entities@.take(i + 1)));
        i = i + 1;
    }
    assert(entities@.take(i as int) =~= entities@);
}

impl WorkerOp {
    /// Appends the handles that the op owns to `out`.
    pub fn push_handles(&self, out: &mut Vec<Handle>)
        ensures
            final(out)@ == old(out)@ + embedded_handles(*self),
    {
        match self {
            WorkerOp::AddComponent(op) => push_handle(out, op.data.user_handle),
            WorkerOp::ComponentUpdate(op) => push_handle(out, op.update.user_handle),
            WorkerOp::CommandRequest(op) => push_handle(out, op.request.user_handle),
            WorkerOp::CommandResponse(op) => push_handle(out, op.response.user_handle),
            WorkerOp::EntityQueryResponse(op) => push_entity_handles(out, &op.results),
            _ => {
                assert(out@ =~= old(out)@ + embedded_handles(*self));
            },
        }
    }
}

impl OpList {
    /// The handles that the batch owns, in the order of the batch.
    pub fn handles(&self) -> (list: Vec<Handle>)
        ensures
            list@ == batch_handles(self.ops@),
    {
        let mut list: Vec<Handle> = Vec::new();
        let mut i: usize = 0;
        assert(list@ =~= batch_handles(self.ops@.take(0)));
        while i < self.ops.len()
            invariant
                i <= self.ops@.len(),
                list@ == batch_handles(self.ops@.take(i as int)),
            decreases self.ops@.len() - i,
        {
            proof {
                assert(self.ops@.take(i + 1).drop_last() =~= self.ops@.take(i as int));
            }
            match &self.ops[i] {
                Ok(op) => op.push_handles(&mut list),
                Err(_) => {
                    assert(list@ =~= batch_handles(self.ops@.take(i + 1)));
                },
            }
            i = i + 1;
        }
        assert(self.ops@.take(i as int) =~= self.ops@);
        list
    }

    /// Destroys the batch: frees every handle that the batch owns, each
    /// once, in the order of the batch, and drops the ops with their schema
    /// data. Says how many frees failed because the handle named no live
    /// value; such a failure is a lifetime bug of the caller, and the
    /// teardown goes on past it.
    pub fn destroy<T>(self, store: &mut SharedHandles<T>) -> (failed: usize)
        ensures
            final(store).counts() == freed_all(old(store).counts(), batch_handles(self.ops@)),
            failed == failed_frees(old(store).counts(), batch_handles(self.ops@)),
    {
        let list = self.handles();
        let mut failed: usize = 0;
        let mut i: usize = 0;
        while i < list.len()
            invariant
                i <= list@.len(),
                failed <= i,
                store.counts() == freed_all(old(store).counts(), list@.take(i as int)),
                failed == failed_frees(old(store).counts(), list@.take(i as int)),
            decreases list@.len() - i,
        {
            proof {
                assert(list@.take(i + 1).drop_last() =~= list@.take(i as int));
            }
            match store.free(list[i]) {
                Ok(_) => {},
                Err(_) => {
                    failed = failed + 1;
                },
            }
            i = i + 1;
        }
        assert(list@.take(i as int) =~= list@);
        failed
    }
}

/// How many references of the value named `index` a list of handles holds.
pub open spec fn occurrences(list: Seq<Handle>, index: int) -> nat
    decreases list.len(),
{
    if list.len() == 0 {
        0
    } else {
        occurrences(list.drop_last(), index) + if list.last().id == index {
            1nat
        } else {
            0nat
        }
    }
}

/// Teardown of a whole batch frees every handle that the batch owns exactly
/// once. Where each reference that the batch holds is outstanding when the
/// teardown begins, no free fails, so nothing is freed twice; every value
/// loses exactly the references that the batch held, so nothing leaks; and
/// a value is alive after the teardown exactly when someone else still
/// holds a reference to it, as a caller does for every payload that it
/// acquired and has not released.
pub proof fn law_teardown_frees_each_once(counts: Seq<nat>, list: Seq<Handle>)
    requires
        forall|i: int| 0 <= i < list.len() ==> (#[trigger] list[i]).id < counts.len(),
        forall|index: int|
            0 <= index < counts.len() ==> #[trigger] occurrences(list, index) <= counts[index],
    ensures
        failed_frees(counts, list) == 0,
        freed_all(counts, list).len() == counts.len(),
        forall|index: int|
            0 <= index < counts.len() ==> #[trigger] freed_all(counts, list)[index]
                == counts[index] - occurrences(list, index),
        forall|index: int|
            0 <= index < counts.len() ==> (#[trigger] alive(freed_all(counts, list), index)
                <==> counts[index] > occurrences(list, index)),
    decreases list.len(),
{
    if list.len() > 0 {
        let front = list.drop_last();
        let last = list.last().id as int;
        assert forall|i: int| 0 <= i < front.len() implies (#[trigger] front[i]).id
            < counts.len() by {
            assert(front[i] == list[i]);
        }
        assert forall|index: int| 0 <= index < counts.len() implies #[trigger] occurrences(
            front,
            index,
        ) <= counts[index] by {
            assert(occurrences(list, index) <= counts[index]);
        }
        law_teardown_frees_each_once(counts, front);
        let before = freed_all(counts, front);
        assert(occurrences(list, last) <= counts[last]);
        assert(before[last] == counts[last] - occurrences(front, last));
        assert(alive(before, last));
        assert forall|index: int| 0 <= index < counts.len() implies #[trigger] freed_all(
            counts,
            list,
        )[index] == counts[index] - occurrences(list, index) by {
            assert(before[index] == counts[index] - occurrences(front, index));
        }
    }
}

/// A payload that the caller acquired outlives the batch: one more reference
/// to its handle, taken before the teardown, is still there after it.
pub proof fn law_acquired_handle_survives_teardown(
    counts: Seq<nat>,
    list: Seq<Handle>,
    acquired: Handle,
)
    requires
        forall|i: int| 0 <= i < list.len() ==> (#[trigger] list[i]).id < counts.len(),
        forall|index: int|
            0 <= index < counts.len() ==> #[trigger] occurrences(list, index) <= counts[index],
        alive(counts, acquired.id as int),
    ensures
        alive(freed_all(copied(counts, acquired.id as int), list), acquired.id as int),
        failed_frees(copied(counts, acquired.id as int), list) == 0,
        freed_all(copied(counts, acquired.id as int), list)[acquired.id as int]
            == counts[acquired.id as int] + 1 - occurrences(list, acquired.id as int),
{
    let held = copied(counts, acquired.id as int);
    assert forall|index: int| 0 <= index < held.len() implies #[trigger] occurrences(
        list,
        index,
    ) <= held[index] by {
        assert(occurrences(list, index) <= counts[index]);
    }
    law_teardown_frees_each_once(held, list);
}

/// Teardown frees exactly once: a handle that the batch owns once, and that
/// is alive, has one reference less after the teardown of a batch that owns
/// nothing else.
pub proof fn law_teardown_frees_once(counts: Seq<nat>, handle: Handle)
    requires
        alive(counts, handle.id as int),
    ensures
        freed_all(counts, seq![handle]) == freed(counts, handle.id as int),
        failed_frees(counts, seq![handle]) == 0,
        freed_all(counts, Seq::<Handle>::empty()) == counts,
{
    reveal_with_fuel(freed_all, 2);
    reveal_with_fuel(failed_frees, 2);
    assert(seq![handle].drop_last() =~= Seq::<Handle>::empty());
}

/// A batch that holds the last reference to a handle twice frees it once
/// and reports the second free as failed: a double free is seen, never
/// silently done.
pub proof fn law_double_free_is_reported(counts: Seq<nat>, handle: Handle)
    requires
        alive(counts, handle.id as int),
        counts[handle.id as int] == 1,
    ensures
        failed_frees(counts, seq![handle, handle]) == 1,
        freed_all(counts, seq![handle, handle]) == freed(counts, handle.id as int),
{
    let twice = seq![handle, handle];
    assert(twice.drop_last() =~= seq![handle]);
    law_teardown_frees_once(counts, handle);
}

} // verus!
