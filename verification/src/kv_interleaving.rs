//! Operations that run at the same time reach the backend as one sequence of
//! commands, in whatever order their requests arrive. The adapter keeps no
//! lock of its own: that identifiers never collide rests on the backend's
//! atomic counter alone.

use vstd::prelude::*;
use crate::key::{item_index_key, item_key_of, lemma_item_key_not_reserved,
    lemma_reserved_keys_differ, next_id_key};
use crate::kv::{create_item_step, delete_item_step, get_item_step, get_items_step,
    update_item_step, CreateItemView, DeleteItemView, GetItemView, GetItems, KvCommandView,
    KvEventView, KvRequestView, KvStepView, UpdateItemView};
use crate::kv_laws::{allocated, counter_sound, lemma_numeral_value};
use crate::kv_model::{counter_limit, execute, Store};

verus! {

/// The command that draws an identifier.
pub open spec fn is_allocation(command: KvCommandView) -> bool {
    command == (KvCommandView::Increment { key: next_id_key() })
}

/// The command never writes or deletes the counter, unless by counting on
/// it.
pub open spec fn spares_counter(command: KvCommandView) -> bool {
    match command {
        KvCommandView::Write { key, value } => key != next_id_key(),
        KvCommandView::IndexAdd { index, member } => index != next_id_key(),
        KvCommandView::RemoveIndexed { key, index } => key != next_id_key() && index
            != next_id_key(),
        _ => true,
    }
}

/// The backend's state after it has carried out `commands` in their order.
pub open spec fn store_after(store: Store, commands: Seq<KvCommandView>) -> Store
    decreases commands.len(),
{
    if commands.len() == 0 {
        store
    } else {
        execute(store_after(store, commands.drop_last()), commands.last()).0
    }
}

/// The backend's answer to the command at position `i` of `commands`.
pub open spec fn reply_at(store: Store, commands: Seq<KvCommandView>, i: int) -> KvEventView {
    execute(store_after(store, commands.take(i)), commands[i]).1
}

/// How many identifiers `commands` draw.
pub open spec fn allocations(commands: Seq<KvCommandView>) -> nat
    decreases commands.len(),
{
    if commands.len() == 0 {
        0
    } else if is_allocation(commands.last()) {
        allocations(commands.drop_last()) + 1
    } else {
        allocations(commands.drop_last())
    }
}

/// Commands that spare the counter leave it sound and advanced by exactly
/// the number of identifiers that they drew.
pub proof fn lemma_counter_after(store: Store, commands: Seq<KvCommandView>)
    requires
        counter_sound(store),
        forall|j: int| 0 <= j < commands.len() ==> spares_counter(#[trigger] commands[j]),
        allocated(store) + allocations(commands) <= counter_limit(),
    ensures
        counter_sound(store_after(store, commands)),
        allocated(store_after(store, commands)) == allocated(store) + allocations(commands),
    decreases commands.len(),
{
    if commands.len() > 0 {
        let earlier = commands.drop_last();
        assert forall|j: int| 0 <= j < earlier.len() implies spares_counter(
            #[trigger] earlier[j],
        ) by {
            assert(earlier[j] == commands[j]);
        }
        lemma_counter_after(store, earlier);
        let before = store_after(store, earlier);
        let last = commands.last();
        assert(spares_counter(last));
        lemma_numeral_value(allocated(before) + 1);
        lemma_numeral_value(1);
        let after = execute(before, last).0;
        if !is_allocation(last) {
            assert(after.contains_key(next_id_key()) == before.contains_key(next_id_key()));
            assert(after.contains_key(next_id_key()) ==> after[next_id_key()]
                == before[next_id_key()]);
        }
    }
}

/// A longer run of commands draws at least as many identifiers.
pub proof fn lemma_allocations_grow(commands: Seq<KvCommandView>, i: int, j: int)
    requires
        0 <= i <= j <= commands.len(),
    ensures
        allocations(commands.take(i)) <= allocations(commands.take(j)),
    decreases j - i,
{
    if i < j {
        assert(commands.take(j).drop_last() =~= commands.take(j - 1));
        lemma_allocations_grow(commands, i, j - 1);
    }
}

/// However operations interleave, each draw on the counter is answered with
/// the counter's first value plus the number of draws so far: no identifier
/// is handed out twice and none is skipped.
pub proof fn law_identifiers_in_turn(store: Store, commands: Seq<KvCommandView>, i: int)
    requires
        counter_sound(store),
        forall|j: int| 0 <= j < commands.len() ==> spares_counter(#[trigger] commands[j]),
        0 <= i < commands.len(),
        is_allocation(commands[i]),
        allocated(store) + allocations(commands.take(i)) < counter_limit(),
    ensures
        reply_at(store, commands, i) == KvEventView::Counter(
            allocated(store) + allocations(commands.take(i)) + 1,
        ),
{
    let earlier = commands.take(i);
    assert forall|j: int| 0 <= j < earlier.len() implies spares_counter(#[trigger] earlier[j]) by {
        assert(earlier[j] == commands[j]);
    }
    lemma_counter_after(store, earlier);
    lemma_numeral_value(1);
}

/// However operations interleave, two draws on the counter are answered
/// with different identifiers, the later draw with the larger one.
pub proof fn law_concurrent_identifiers_differ(
    store: Store,
    commands: Seq<KvCommandView>,
    i: int,
    j: int,
)
    requires
        counter_sound(store),
        forall|k: int| 0 <= k < commands.len() ==> spares_counter(#[trigger] commands[k]),
        0 <= i < j < commands.len(),
        is_allocation(commands[i]),
        is_allocation(commands[j]),
        allocated(store) + allocations(commands.take(j)) < counter_limit(),
    ensures
        reply_at(store, commands, i) is Counter,
        reply_at(store, commands, j) is Counter,
        reply_at(store, commands, i)->Counter_0 < reply_at(store, commands, j)->Counter_0,
{
    lemma_allocations_grow(commands, i, j);
    lemma_allocations_grow(commands, i + 1, j);
    assert(commands.take(i + 1).drop_last() =~= commands.take(i));
    assert(commands.take(i + 1).last() == commands[i]);
    law_identifiers_in_turn(store, commands, i);
    law_identifiers_in_turn(store, commands, j);
}

/// No command that the adapter sends writes or deletes the counter: the
/// counter changes only when a creation draws an identifier.
pub proof fn law_requests_spare_counter(
    creating: CreateItemView,
    listing: GetItems,
    fetching: GetItemView,
    updating: UpdateItemView,
    deleting: DeleteItemView,
    event: KvEventView,
)
    ensures
        create_item_step(creating, event) matches KvStepView::Continue(
            _,
            KvRequestView::Backend(command),
        ) ==> spares_counter(command),
        get_items_step(listing, event) matches KvStepView::Continue(
            _,
            KvRequestView::Backend(command),
        ) ==> spares_counter(command) && !is_allocation(command),
        get_item_step(fetching, event) matches KvStepView::Continue(
            _,
            KvRequestView::Backend(command),
        ) ==> spares_counter(command) && !is_allocation(command),
        update_item_step(updating, event) matches KvStepView::Continue(
            _,
            KvRequestView::Backend(command),
        ) ==> spares_counter(command) && !is_allocation(command),
        delete_item_step(deleting, event) matches KvStepView::Continue(
            _,
            KvRequestView::Backend(command),
        ) ==> spares_counter(command) && !is_allocation(command),
{
    lemma_reserved_keys_differ();
    assert forall|id: nat|
        item_key_of(id) != next_id_key() && #[trigger] item_key_of(id) != item_index_key() by {
        lemma_item_key_not_reserved(id);
    }
}

} // verus!
