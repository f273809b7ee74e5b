//! What holds of the registry and the entry points over any number of calls.
//!
//! A history is a sequence of operations. Lookups do not change the registry, so they do not
//! occur in one. The two tables of the registry do not touch each other, so what is proved of
//! one table and its part in a history holds of both kinds of object.

use crate::capi_executor::CapiExecutor;
use crate::capi_instance::CapiInstance;
use crate::capi_instance_cache::{FromCacheRequest, MAX_CACHE_BYTES_LEN};
use crate::handle_registry::{RegistryView, TableView};
use std::sync::Arc;
use vstd::prelude::*;

verus! {

/// An operation that changes the registry.
pub enum Operation<I, E> {
    RegisterInstance(CapiInstance<I>),
    DestroyInstance(u64),
    RegisterExecutor(CapiExecutor<E>),
    DestroyExecutor(u64),
}

/// The registry after one operation.
pub open spec fn step<I, E>(
    registry: RegistryView<I, E>,
    operation: Operation<I, E>,
) -> RegistryView<I, E> {
    match operation {
        Operation::RegisterInstance(instance) => registry.register_instance(instance),
        Operation::DestroyInstance(id) => registry.destroy_instance(id),
        Operation::RegisterExecutor(executor) => registry.register_executor(executor),
        Operation::DestroyExecutor(id) => registry.destroy_executor(id),
    }
}

/// The registry after a history.
pub open spec fn replay<I, E>(
    registry: RegistryView<I, E>,
    history: Seq<Operation<I, E>>,
) -> RegistryView<I, E>
    decreases history.len(),
{
    if history.len() == 0 {
        registry
    } else {
        step(replay(registry, history.drop_last()), history.last())
    }
}

/// Whether the IDs of neither kind ran out.
pub open spec fn within_limits<I, E>(registry: RegistryView<I, E>) -> bool {
    &&& registry.instances.issued <= u64::MAX
    &&& registry.executors.issued <= u64::MAX
}

/// The instance ID that is next in turn when operation `i` of a history comes: the one it
/// issues, if it registers an instance.
pub open spec fn instance_id_at<I, E>(
    registry: RegistryView<I, E>,
    history: Seq<Operation<I, E>>,
    i: int,
) -> u64 {
    replay(registry, history.take(i)).instances.next_id()
}

/// The executor ID that is next in turn when operation `i` of a history comes.
pub open spec fn executor_id_at<I, E>(
    registry: RegistryView<I, E>,
    history: Seq<Operation<I, E>>,
    i: int,
) -> u64 {
    replay(registry, history.take(i)).executors.next_id()
}

/// Whether operation `i` of a history registers `instance` under `id` and no later one
/// destroys that ID.
pub open spec fn instance_survives<I, E>(
    registry: RegistryView<I, E>,
    history: Seq<Operation<I, E>>,
    i: int,
    id: u64,
    instance: CapiInstance<I>,
) -> bool {
    &&& 0 <= i < history.len()
    &&& history[i] == Operation::<I, E>::RegisterInstance(instance)
    &&& instance_id_at(registry, history, i) == id
    &&& forall|j: int|
        i < j < history.len() ==> #[trigger] history[j] != Operation::<I, E>::DestroyInstance(id)
}

/// Whether operation `i` of a history registers `executor` under `id` and no later one
/// destroys that ID.
pub open spec fn executor_survives<I, E>(
    registry: RegistryView<I, E>,
    history: Seq<Operation<I, E>>,
    i: int,
    id: u64,
    executor: CapiExecutor<E>,
) -> bool {
    &&& 0 <= i < history.len()
    &&& history[i] == Operation::<I, E>::RegisterExecutor(executor)
    &&& executor_id_at(registry, history, i) == id
    &&& forall|j: int|
        i < j < history.len() ==> #[trigger] history[j] != Operation::<I, E>::DestroyExecutor(id)
}

/// What an operation on the registry does to one of its tables.
enum TableOperation<T> {
    Register(T),
    Destroy(u64),
    /// The operation is about the other table.
    Nothing,
}

spec fn table_step<T>(table: TableView<T>, operation: TableOperation<T>) -> TableView<T> {
    match operation {
        TableOperation::Register(object) => table.register(object),
        TableOperation::Destroy(id) => table.destroy(id),
        TableOperation::Nothing => table,
    }
}

spec fn table_replay<T>(table: TableView<T>, history: Seq<TableOperation<T>>) -> TableView<T>
    decreases history.len(),
{
    if history.len() == 0 {
        table
    } else {
        table_step(table_replay(table, history.drop_last()), history.last())
    }
}

spec fn table_survives<T>(
    table: TableView<T>,
    history: Seq<TableOperation<T>>,
    i: int,
    id: u64,
    object: T,
) -> bool {
    &&& 0 <= i < history.len()
    &&& history[i] == TableOperation::Register(object)
    &&& table_replay(table, history.take(i)).next_id() == id
    &&& forall|j: int|
        i < j < history.len() ==> #[trigger] history[j] != TableOperation::<T>::Destroy(id)
}

/// What a history does to the instances, operation by operation.
spec fn on_instances<I, E>(history: Seq<Operation<I, E>>) -> Seq<TableOperation<CapiInstance<I>>> {
    Seq::new(
        history.len(),
        |i: int|
            match history[i] {
                Operation::RegisterInstance(instance) => TableOperation::Register(instance),
                Operation::DestroyInstance(id) => TableOperation::Destroy(id),
                _ => TableOperation::Nothing,
            },
    )
}

/// What a history does to the executors, operation by operation.
spec fn on_executors<I, E>(history: Seq<Operation<I, E>>) -> Seq<TableOperation<CapiExecutor<E>>> {
    Seq::new(
        history.len(),
        |i: int|
            match history[i] {
                Operation::RegisterExecutor(executor) => TableOperation::Register(executor),
                Operation::DestroyExecutor(id) => TableOperation::Destroy(id),
                _ => TableOperation::Nothing,
            },
    )
}

/// Each table of the registry goes its own way through a history.
proof fn lemma_replay_by_table<I, E>(
    registry: RegistryView<I, E>,
    history: Seq<Operation<I, E>>,
)
    ensures
        replay(registry, history).instances == table_replay(
            registry.instances,
            on_instances(history),
        ),
        replay(registry, history).executors == table_replay(
            registry.executors,
            on_executors(history),
        ),
    decreases history.len(),
{
    if history.len() > 0 {
        lemma_replay_by_table(registry, history.drop_last());
        assert(on_instances(history).drop_last() =~= on_instances(history.drop_last()));
        assert(on_executors(history).drop_last() =~= on_executors(history.drop_last()));
    }
}

/// The IDs that are next in turn in the course of a history are those of the tables.
proof fn lemma_ids_by_table<I, E>(
    registry: RegistryView<I, E>,
    history: Seq<Operation<I, E>>,
    i: int,
)
    requires
        0 <= i <= history.len(),
    ensures
        instance_id_at(registry, history, i) == table_replay(
            registry.instances,
            on_instances(history).take(i),
        ).next_id(),
        executor_id_at(registry, history, i) == table_replay(
            registry.executors,
            on_executors(history).take(i),
        ).next_id(),
{
    lemma_replay_by_table(registry, history.take(i));
    assert(on_instances(history.take(i)) =~= on_instances(history).take(i));
    assert(on_executors(history.take(i)) =~= on_executors(history).take(i));
}

/// The counter of a table never moves back.
proof fn lemma_issued_grows<T>(
    table: TableView<T>,
    history: Seq<TableOperation<T>>,
    i: int,
    j: int,
)
    requires
        0 <= i <= j <= history.len(),
    ensures
        table_replay(table, history.take(i)).issued <= table_replay(table, history.take(j)).issued,
    decreases j,
{
    if i < j {
        lemma_issued_grows(table, history, i, j - 1);
        assert(history.take(j).drop_last() =~= history.take(j - 1));
    }
}

proof fn lemma_table_stays_well_formed<T>(table: TableView<T>, history: Seq<TableOperation<T>>)
    requires
        table.wf(),
        table_replay(table, history).issued <= u64::MAX,
    ensures
        table_replay(table, history).wf(),
    decreases history.len(),
{
    if history.len() > 0 {
        lemma_table_stays_well_formed(table, history.drop_last());
    }
}

proof fn lemma_ids_increase<T>(
    table: TableView<T>,
    history: Seq<TableOperation<T>>,
    i: int,
    j: int,
)
    requires
        table_replay(table, history).issued <= u64::MAX,
        0 <= i < j < history.len(),
        history[i] is Register,
        history[j] is Register,
    ensures
        0 < table_replay(table, history.take(i)).next_id() < table_replay(
            table,
            history.take(j),
        ).next_id(),
{
    assert(history.take(i + 1).drop_last() =~= history.take(i));
    assert(history.take(j + 1).drop_last() =~= history.take(j));
    assert(history.take(history.len() as int) =~= history);
    lemma_issued_grows(table, history, i + 1, j);
    lemma_issued_grows(table, history, j + 1, history.len() as int);
}

/// An ID that was issued and is not in use does not come back.
proof fn lemma_dead_id_stays_dead<T>(
    table: TableView<T>,
    history: Seq<TableOperation<T>>,
    id: u64,
)
    requires
        table_replay(table, history).issued <= u64::MAX,
        id <= table.issued,
        table.lookup(id) is None,
    ensures
        id <= table_replay(table, history).issued,
        table_replay(table, history).lookup(id) is None,
    decreases history.len(),
{
    if history.len() > 0 {
        lemma_dead_id_stays_dead(table, history.drop_last(), id);
    }
}

/// An ID in use keeps its object until it is destroyed.
proof fn lemma_live_id_keeps_its_object<T>(
    table: TableView<T>,
    history: Seq<TableOperation<T>>,
    id: u64,
)
    requires
        table.wf(),
        table_replay(table, history).issued <= u64::MAX,
        table.lookup(id) is Some,
        forall|i: int|
            0 <= i < history.len() ==> #[trigger] history[i] != TableOperation::<T>::Destroy(id),
    ensures
        table_replay(table, history).lookup(id) == table.lookup(id),
    decreases history.len(),
{
    if history.len() > 0 {
        let before = history.drop_last();
        assert(forall|i: int| 0 <= i < before.len() ==> #[trigger] before[i] == history[i]);
        lemma_live_id_keeps_its_object(table, before, id);
        lemma_table_stays_well_formed(table, before);
        assert(history.last() == history[history.len() - 1]);
    }
}

/// An ID resolves to exactly the object that was registered under it and not destroyed since.
proof fn lemma_lookup_gives_what_was_registered<T>(
    history: Seq<TableOperation<T>>,
    id: u64,
    object: T,
)
    requires
        table_replay(TableView::<T>::empty(), history).issued <= u64::MAX,
    ensures
        table_replay(TableView::<T>::empty(), history).lookup(id) == Some(object) <==> exists|
            i: int,
        |
            table_survives(TableView::<T>::empty(), history, i, id, object),
    decreases history.len(),
{
    let empty = TableView::<T>::empty();
    if history.len() > 0 {
        let before = history.drop_last();
        let n = history.len() - 1;
        lemma_lookup_gives_what_was_registered(before, id, object);
        lemma_table_stays_well_formed(empty, before);
        assert(history.take(n) =~= before);
        assert forall|i: int| 0 <= i < n implies #[trigger] history.take(i) == before.take(i) by {
            assert(history.take(i) =~= before.take(i));
        }
        assert(forall|i: int| 0 <= i < n ==> #[trigger] before[i] == history[i]);
        if table_replay(empty, history).lookup(id) == Some(object) {
            if history.last() is Register && table_replay(empty, before).next_id() == id {
                assert(table_survives(empty, history, n, id, object));
            } else {
                let i = choose|i: int| table_survives(empty, before, i, id, object);
                assert(history[i] == before[i]);
                assert forall|j: int| i < j < history.len() implies #[trigger] history[j]
                    != TableOperation::<T>::Destroy(id) by {
                    if j < n {
                        assert(before[j] == history[j]);
                    }
                }
                assert(table_survives(empty, history, i, id, object));
            }
        }
        if exists|i: int| table_survives(empty, history, i, id, object) {
            let i = choose|i: int| table_survives(empty, history, i, id, object);
            if i < n {
                assert(before[i] == history[i]);
                assert(table_survives(empty, before, i, id, object));
                assert(history[n] != TableOperation::<T>::Destroy(id));
                if history.last() is Register {
                    lemma_ids_increase(empty, history, i, n);
                }
            }
        }
    }
}

/// Destroying an ID any number of times leaves the table as destroying it once does.
proof fn lemma_repeated_destroy<T>(
    table: TableView<T>,
    history: Seq<TableOperation<T>>,
    id: u64,
)
    requires
        history.len() > 0,
        forall|i: int|
            0 <= i < history.len() ==> #[trigger] history[i] == TableOperation::<T>::Destroy(id),
    ensures
        table_replay(table, history) == table.destroy(id),
    decreases history.len(),
{
    let before = history.drop_last();
    assert(history.last() == history[history.len() - 1]);
    if before.len() > 0 {
        assert(forall|i: int| 0 <= i < before.len() ==> #[trigger] before[i] == history[i]);
        lemma_repeated_destroy(table, before, id);
        assert(table.destroy(id).destroy(id) =~= table.destroy(id));
    } else {
        assert(table_replay(table, before) == table);
    }
}

/// Every operation keeps the registry well-formed, as long as the IDs do not run out: every
/// ID in use is one that was issued, and 0 never is.
pub proof fn law_history_keeps_registry_well_formed<I, E>(
    registry: RegistryView<I, E>,
    history: Seq<Operation<I, E>>,
)
    requires
        registry.wf(),
        within_limits(replay(registry, history)),
    ensures
        replay(registry, history).wf(),
        replay(registry, history).instances.lookup(0) is None,
        replay(registry, history).executors.lookup(0) is None,
{
    lemma_replay_by_table(registry, history);
    lemma_table_stays_well_formed(registry.instances, on_instances(history));
    lemma_table_stays_well_formed(registry.executors, on_executors(history));
}

/// Of two registrations of one kind, the later one issues the greater ID, whatever happened
/// in between. So no ID is ever issued twice, not even after the object under it was
/// destroyed, and none of them is 0.
pub proof fn law_ids_are_never_reused<I, E>(
    registry: RegistryView<I, E>,
    history: Seq<Operation<I, E>>,
    i: int,
    j: int,
)
    requires
        registry.wf(),
        within_limits(replay(registry, history)),
        0 <= i < j < history.len(),
    ensures
        history[i] is RegisterInstance && history[j] is RegisterInstance ==> 0 < instance_id_at(
            registry,
            history,
            i,
        ) < instance_id_at(registry, history, j),
        history[i] is RegisterExecutor && history[j] is RegisterExecutor ==> 0 < executor_id_at(
            registry,
            history,
            i,
        ) < executor_id_at(registry, history, j),
{
    lemma_replay_by_table(registry, history);
    lemma_ids_by_table(registry, history, i);
    lemma_ids_by_table(registry, history, j);
    if history[i] is RegisterInstance && history[j] is RegisterInstance {
        lemma_ids_increase(registry.instances, on_instances(history), i, j);
    }
    if history[i] is RegisterExecutor && history[j] is RegisterExecutor {
        lemma_ids_increase(registry.executors, on_executors(history), i, j);
    }
}

/// Once an instance handle is destroyed it never resolves to anything again, whatever is
/// registered and destroyed afterwards, and every entry point that is given it refuses it as
/// stale.
pub proof fn law_destroyed_instance_handle_stays_dead<I, E>(
    registry: RegistryView<I, E>,
    id: u64,
    history: Seq<Operation<I, E>>,
)
    requires
        registry.wf(),
        registry.instances.lookup(id) is Some,
        within_limits(replay(registry.destroy_instance(id), history)),
    ensures
        replay(registry.destroy_instance(id), history).instances.lookup(id) is None,
        crate::pointers::instance_refusal(replay(registry.destroy_instance(id), history), id)
            == Some("instance handle not found in registry (stale or never registered)"@),
{
    lemma_replay_by_table(registry.destroy_instance(id), history);
    lemma_dead_id_stays_dead(registry.instances.destroy(id), on_instances(history), id);
}

/// Once an executor handle is destroyed it never resolves to anything again, whatever is
/// registered and destroyed afterwards, and every entry point that is given it refuses it as
/// stale.
pub proof fn law_destroyed_executor_handle_stays_dead<I, E>(
    registry: RegistryView<I, E>,
    id: u64,
    history: Seq<Operation<I, E>>,
)
    requires
        registry.wf(),
        registry.executors.lookup(id) is Some,
        within_limits(replay(registry.destroy_executor(id), history)),
    ensures
        replay(registry.destroy_executor(id), history).executors.lookup(id) is None,
        crate::pointers::executor_refusal(replay(registry.destroy_executor(id), history), id)
            == Some("executor handle not found in registry (stale or never registered)"@),
{
    lemma_replay_by_table(registry.destroy_executor(id), history);
    lemma_dead_id_stays_dead(registry.executors.destroy(id), on_executors(history), id);
}

/// After any history of a new registry, an instance ID resolves to exactly the object that
/// was registered under it and not destroyed since; if there is none, it resolves to
/// nothing.
pub proof fn law_instance_lookup_gives_what_was_registered<I, E>(
    history: Seq<Operation<I, E>>,
    id: u64,
    instance: CapiInstance<I>,
)
    requires
        within_limits(replay(RegistryView::<I, E>::empty(), history)),
    ensures
        replay(RegistryView::<I, E>::empty(), history).instances.lookup(id) == Some(instance)
            <==> exists|i: int|
            instance_survives(RegistryView::<I, E>::empty(), history, i, id, instance),
{
    let empty = RegistryView::<I, E>::empty();
    let effects = on_instances(history);
    lemma_replay_by_table(empty, history);
    lemma_lookup_gives_what_was_registered(effects, id, instance);
    assert forall|i: int| #[trigger]
        instance_survives(empty, history, i, id, instance) implies table_survives(
        empty.instances,
        effects,
        i,
        id,
        instance,
    ) by {
        lemma_ids_by_table(empty, history, i);
        assert forall|j: int| i < j < effects.len() implies #[trigger] effects[j]
            != TableOperation::<CapiInstance<I>>::Destroy(id) by {
            assert(history[j] != Operation::<I, E>::DestroyInstance(id));
        }
    }
    assert forall|i: int| #[trigger]
        table_survives(empty.instances, effects, i, id, instance) implies instance_survives(
        empty,
        history,
        i,
        id,
        instance,
    ) by {
        lemma_ids_by_table(empty, history, i);
        assert forall|j: int| i < j < history.len() implies #[trigger] history[j]
            != Operation::<I, E>::DestroyInstance(id) by {
            assert(effects[j] != TableOperation::<CapiInstance<I>>::Destroy(id));
        }
    }
}

/// After any history of a new registry, an executor ID resolves to exactly the object that
/// was registered under it and not destroyed since; if there is none, it resolves to
/// nothing.
pub proof fn law_executor_lookup_gives_what_was_registered<I, E>(
    history: Seq<Operation<I, E>>,
    id: u64,
    executor: CapiExecutor<E>,
)
    requires
        within_limits(replay(RegistryView::<I, E>::empty(), history)),
    ensures
        replay(RegistryView::<I, E>::empty(), history).executors.lookup(id) == Some(executor)
            <==> exists|i: int|
            executor_survives(RegistryView::<I, E>::empty(), history, i, id, executor),
{
    let empty = RegistryView::<I, E>::empty();
    let effects = on_executors(history);
    lemma_replay_by_table(empty, history);
    lemma_lookup_gives_what_was_registered(effects, id, executor);
    assert forall|i: int| #[trigger]
        executor_survives(empty, history, i, id, executor) implies table_survives(
        empty.executors,
        effects,
        i,
        id,
        executor,
    ) by {
        lemma_ids_by_table(empty, history, i);
        assert forall|j: int| i < j < effects.len() implies #[trigger] effects[j]
            != TableOperation::<CapiExecutor<E>>::Destroy(id) by {
            assert(history[j] != Operation::<I, E>::DestroyExecutor(id));
        }
    }
    assert forall|i: int| #[trigger]
        table_survives(empty.executors, effects, i, id, executor) implies executor_survives(
        empty,
        history,
        i,
        id,
        executor,
    ) by {
        lemma_ids_by_table(empty, history, i);
        assert forall|j: int| i < j < history.len() implies #[trigger] history[j]
            != Operation::<I, E>::DestroyExecutor(id) by {
            assert(effects[j] != TableOperation::<CapiExecutor<E>>::Destroy(id));
        }
    }
}

/// The handle of a new instance resolves to that instance, and is accepted by every entry point,
/// through any history that does not destroy it.
pub proof fn law_instance_handle_resolves_until_destroyed<I, E>(
    registry: RegistryView<I, E>,
    instance: CapiInstance<I>,
    history: Seq<Operation<I, E>>,
)
    requires
        registry.wf(),
        registry.instances.has_room(),
        within_limits(replay(registry.register_instance(instance), history)),
        !history.contains(Operation::DestroyInstance(registry.instances.next_id())),
    ensures
        replay(registry.register_instance(instance), history).instances.lookup(
            registry.instances.next_id(),
        ) == Some(instance),
        crate::pointers::instance_refusal(
            replay(registry.register_instance(instance), history),
            registry.instances.next_id(),
        ) is None,
{
    let id = registry.instances.next_id();
    let effects = on_instances(history);
    assert forall|i: int| 0 <= i < effects.len() implies #[trigger] effects[i]
        != TableOperation::<CapiInstance<I>>::Destroy(id) by {
        assert(history.contains(history[i]));
    }
    lemma_replay_by_table(registry.register_instance(instance), history);
    lemma_live_id_keeps_its_object(registry.instances.register(instance), effects, id);
}

/// The handle of a new executor resolves to that executor, and is accepted by every entry point,
/// through any history that does not destroy it.
pub proof fn law_executor_handle_resolves_until_destroyed<I, E>(
    registry: RegistryView<I, E>,
    executor: CapiExecutor<E>,
    history: Seq<Operation<I, E>>,
)
    requires
        registry.wf(),
        registry.executors.has_room(),
        within_limits(replay(registry.register_executor(executor), history)),
        !history.contains(Operation::DestroyExecutor(registry.executors.next_id())),
    ensures
        replay(registry.register_executor(executor), history).executors.lookup(
            registry.executors.next_id(),
        ) == Some(executor),
        crate::pointers::executor_refusal(
            replay(registry.register_executor(executor), history),
            registry.executors.next_id(),
        ) is None,
{
    let id = registry.executors.next_id();
    let effects = on_executors(history);
    assert forall|i: int| 0 <= i < effects.len() implies #[trigger] effects[i]
        != TableOperation::<CapiExecutor<E>>::Destroy(id) by {
        assert(history.contains(history[i]));
    }
    lemma_replay_by_table(registry.register_executor(executor), history);
    lemma_live_id_keeps_its_object(registry.executors.register(executor), effects, id);
}

/// Two lookups of one ID, with no change in between, find equal objects or both nothing. The
/// equality is one of values; that the two share one allocation is not part of it, and is shown
/// by the test `lookups_share_one_object`.
pub proof fn law_lookups_agree<T>(
    table: TableView<T>,
    id: u64,
    first: Option<Arc<T>>,
    second: Option<Arc<T>>,
)
    requires
        crate::handle_registry::is_found(first, table.lookup(id)),
        crate::handle_registry::is_found(second, table.lookup(id)),
    ensures
        first == second,
{
}

/// Whether an operation is about instances.
pub open spec fn is_about_instances<I, E>(operation: Operation<I, E>) -> bool {
    operation is RegisterInstance || operation is DestroyInstance
}

/// The two kinds have ID spaces of their own: whatever is done to instances leaves the
/// executors and their counter as they are, and the other way round.
pub proof fn law_kinds_are_independent<I, E>(
    registry: RegistryView<I, E>,
    history: Seq<Operation<I, E>>,
)
    ensures
        (forall|i: int| 0 <= i < history.len() ==> is_about_instances(#[trigger] history[i]))
            ==> replay(registry, history).executors == registry.executors,
        (forall|i: int| 0 <= i < history.len() ==> !is_about_instances(#[trigger] history[i]))
            ==> replay(registry, history).instances == registry.instances,
    decreases history.len(),
{
    if history.len() > 0 {
        let before = history.drop_last();
        law_kinds_are_independent(registry, before);
        assert(forall|i: int| 0 <= i < before.len() ==> #[trigger] before[i] == history[i]);
        assert(history.last() == history[history.len() - 1]);
    }
}

/// How many instances a history registers.
pub open spec fn instance_registrations<I, E>(history: Seq<Operation<I, E>>) -> nat
    decreases history.len(),
{
    if history.len() == 0 {
        0
    } else {
        instance_registrations(history.drop_last()) + if history.last() is RegisterInstance {
            1nat
        } else {
            0nat
        }
    }
}

/// How many executors a history registers.
pub open spec fn executor_registrations<I, E>(history: Seq<Operation<I, E>>) -> nat
    decreases history.len(),
{
    if history.len() == 0 {
        0
    } else {
        executor_registrations(history.drop_last()) + if history.last() is RegisterExecutor {
            1nat
        } else {
            0nat
        }
    }
}

/// Each counter moves by exactly one number for each registration of its kind, and for nothing
/// else, whatever else happens in between. A history that registers nothing of a kind leaves
/// the counter of that kind where it was.
pub proof fn law_counters_count_registrations<I, E>(
    registry: RegistryView<I, E>,
    history: Seq<Operation<I, E>>,
)
    ensures
        replay(registry, history).instances.issued == registry.instances.issued
            + instance_registrations(history),
        replay(registry, history).executors.issued == registry.executors.issued
            + executor_registrations(history),
        (forall|i: int| 0 <= i < history.len() ==> !(#[trigger] history[i] is RegisterInstance))
            ==> replay(registry, history).instances.issued == registry.instances.issued,
        (forall|i: int| 0 <= i < history.len() ==> !(#[trigger] history[i] is RegisterExecutor))
            ==> replay(registry, history).executors.issued == registry.executors.issued,
    decreases history.len(),
{
    if history.len() > 0 {
        let before = history.drop_last();
        law_counters_count_registrations(registry, before);
        assert(forall|i: int| 0 <= i < before.len() ==> #[trigger] before[i] == history[i]);
        assert(history.last() == history[history.len() - 1]);
    }
}

/// Destroying an instance handle any number of times in a row leaves the registry as destroying
/// it once does: the handle is gone and nothing else has changed.
pub proof fn law_repeated_instance_destroy_is_one_destroy<I, E>(
    registry: RegistryView<I, E>,
    id: u64,
    history: Seq<Operation<I, E>>,
)
    requires
        history.len() > 0,
        forall|i: int|
            0 <= i < history.len() ==> #[trigger] history[i] == Operation::<I, E>::DestroyInstance(id),
    ensures
        replay(registry, history) == registry.destroy_instance(id),
        replay(registry, history).instances.lookup(id) is None,
        forall|other: u64|
            other != id ==> #[trigger] replay(registry, history).instances.lookup(other)
                == registry.instances.lookup(other),
{
    law_kinds_are_independent(registry, history);
    lemma_replay_by_table(registry, history);
    lemma_repeated_destroy(registry.instances, on_instances(history), id);
}

/// Destroying an executor handle any number of times in a row leaves the registry as destroying
/// it once does: the handle is gone and nothing else has changed.
pub proof fn law_repeated_executor_destroy_is_one_destroy<I, E>(
    registry: RegistryView<I, E>,
    id: u64,
    history: Seq<Operation<I, E>>,
)
    requires
        history.len() > 0,
        forall|i: int|
            0 <= i < history.len() ==> #[trigger] history[i] == Operation::<I, E>::DestroyExecutor(id),
    ensures
        replay(registry, history) == registry.destroy_executor(id),
        replay(registry, history).executors.lookup(id) is None,
        forall|other: u64|
            other != id ==> #[trigger] replay(registry, history).executors.lookup(other)
                == registry.executors.lookup(other),
{
    law_kinds_are_independent(registry, history);
    lemma_replay_by_table(registry, history);
    lemma_repeated_destroy(registry.executors, on_executors(history), id);
}

/// Whatever happens after an instance handle was destroyed, destroying it once more finds nothing
/// and changes nothing. So of all the destroys of a handle, in whatever order they and other
/// operations come, only the first one has an effect.
pub proof fn law_late_instance_destroy_changes_nothing<I, E>(
    registry: RegistryView<I, E>,
    id: u64,
    history: Seq<Operation<I, E>>,
)
    requires
        registry.wf(),
        registry.instances.lookup(id) is Some,
        within_limits(replay(registry.destroy_instance(id), history)),
    ensures
        ({
            let later = replay(registry.destroy_instance(id), history);
            &&& later.instances.lookup(id) is None
            &&& later.destroy_instance(id) == later
        }),
{
    law_destroyed_instance_handle_stays_dead(registry, id, history);
    let later = replay(registry.destroy_instance(id), history);
    assert(later.destroy_instance(id) =~~= later);
}

/// Whatever happens after an executor handle was destroyed, destroying it once more finds nothing
/// and changes nothing. So of all the destroys of a handle, in whatever order they and other
/// operations come, only the first one has an effect.
pub proof fn law_late_executor_destroy_changes_nothing<I, E>(
    registry: RegistryView<I, E>,
    id: u64,
    history: Seq<Operation<I, E>>,
)
    requires
        registry.wf(),
        registry.executors.lookup(id) is Some,
        within_limits(replay(registry.destroy_executor(id), history)),
    ensures
        ({
            let later = replay(registry.destroy_executor(id), history);
            &&& later.executors.lookup(id) is None
            &&& later.destroy_executor(id) == later
        }),
{
    law_destroyed_executor_handle_stays_dead(registry, id, history);
    let later = replay(registry.destroy_executor(id), history);
    assert(later.destroy_executor(id) =~~= later);
}

/// Where an executor is expected, the handle of an instance is refused unless an executor is
/// registered under the same number, and the other way round.
pub proof fn law_handle_is_refused_where_no_object_of_the_kind_has_its_number<I, E>(
    registry: RegistryView<I, E>,
    id: u64,
)
    requires
        registry.wf(),
    ensures
        registry.instances.lookup(id) is Some && registry.executors.lookup(id) is None
            ==> crate::pointers::executor_refusal(registry, id) == Some(
            "executor handle not found in registry (stale or never registered)"@,
        ),
        registry.executors.lookup(id) is Some && registry.instances.lookup(id) is None
            ==> crate::pointers::instance_refusal(registry, id) == Some(
            "instance handle not found in registry (stale or never registered)"@,
        ),
{
}

/// The null pointer is refused as such in every state of the registry.
pub proof fn law_null_handle_is_refused<I, E>(registry: RegistryView<I, E>)
    ensures
        crate::pointers::instance_refusal(registry, 0) == Some("instance ptr is null"@),
        crate::pointers::executor_refusal(registry, 0) == Some("executor ptr is null"@),
{
}

/// A request to make an instance from a cache goes ahead exactly if its executor is
/// registered, there is a place for the new handle, the cache is there and not too long, and
/// the options are there and aligned.
pub proof fn law_instance_from_cache_accepts_exactly_valid_requests<I, E>(
    registry: RegistryView<I, E>,
    request: FromCacheRequest,
    align: nat,
)
    requires
        registry.wf(),
    ensures
        crate::capi_instance_cache::instance_from_cache_refusal(registry, request, align) is None
            <==> {
            &&& registry.executors.lookup(request.executor_ptr) is Some
            &&& request.instance_ptr_ptr != 0
            &&& request.cache_bytes_ptr != 0
            &&& request.cache_bytes_len <= MAX_CACHE_BYTES_LEN
            &&& request.options_ptr != 0
            &&& request.options_ptr as nat % align == 0
        },
{
}

/// A request to cache an instance goes ahead exactly if the instance is registered and both
/// out-parameters are there.
pub proof fn law_instance_cache_accepts_exactly_valid_requests<I, E>(
    registry: RegistryView<I, E>,
    instance_ptr: u64,
    cache_bytes_ptr: usize,
    cache_bytes_len: usize,
)
    requires
        registry.wf(),
    ensures
        crate::capi_instance_cache::instance_cache_refusal(
            registry,
            instance_ptr,
            cache_bytes_ptr,
            cache_bytes_len,
        ) is None <==> {
            &&& registry.instances.lookup(instance_ptr) is Some
            &&& cache_bytes_ptr != 0
            &&& cache_bytes_len != 0
        },
{
}

/// Releasing a cache with the address and the length that were handed out for it releases the
/// whole buffer, provided that its length fits the 32 bits of the out-parameter. An empty
/// cache owns no buffer.
pub proof fn law_cache_free_releases_what_was_handed_out(ptr: usize, len: nat)
    requires
        ptr != 0,
        len <= u32::MAX,
    ensures
        crate::capi_instance_cache::freed_len(
            ptr,
            crate::capi_instance_cache::written_len(len) as u32,
        ) == (if len == 0 {
            None
        } else {
            Some(len)
        }),
{
}

/// The bytes that memory holds from address `ptr` on, `len` of them.
pub open spec fn bytes_at(memory: Map<int, u8>, ptr: usize, len: nat) -> Seq<u8> {
    Seq::new(len, |i: int| memory[ptr + i])
}

/// A cache that was handed out can be handed back. If it is not too long, the length that was
/// written for it is its true length; a request with that length and the address it was handed
/// out at, and otherwise valid, is not refused; and as long as the cache is still there in
/// memory, what the engine is called with is that cache, byte for byte.
pub proof fn law_cache_round_trip<I, E>(
    registry: RegistryView<I, E>,
    request: FromCacheRequest,
    align: nat,
    cache: Seq<u8>,
    memory: Map<int, u8>,
)
    requires
        registry.wf(),
        cache.len() <= MAX_CACHE_BYTES_LEN,
        request.cache_bytes_ptr != 0,
        request.cache_bytes_len == crate::capi_instance_cache::written_len(cache.len()),
        forall|i: int|
            0 <= i < cache.len() ==> memory[request.cache_bytes_ptr + i] == #[trigger] cache[i],
        registry.executors.lookup(request.executor_ptr) is Some,
        request.instance_ptr_ptr != 0,
        request.options_ptr != 0,
        request.options_ptr as nat % align == 0,
    ensures
        request.cache_bytes_len == cache.len(),
        crate::capi_instance_cache::instance_from_cache_refusal(registry, request, align) is None,
        bytes_at(memory, request.cache_bytes_ptr, request.cache_bytes_len as nat) == cache,
{
    assert(bytes_at(memory, request.cache_bytes_ptr, request.cache_bytes_len as nat) =~= cache);
}

/// A new registry has issued nothing and resolves nothing; the first ID of either kind is 1.
pub proof fn law_new_registry_is_empty<I, E>(id: u64)
    ensures
        RegistryView::<I, E>::empty().wf(),
        RegistryView::<I, E>::empty().instances.lookup(id) is None,
        RegistryView::<I, E>::empty().executors.lookup(id) is None,
        RegistryView::<I, E>::empty().instances.issued == 0,
        RegistryView::<I, E>::empty().executors.issued == 0,
        RegistryView::<I, E>::empty().instances.next_id() == 1,
        RegistryView::<I, E>::empty().executors.next_id() == 1,
{
}

/// There is room for another object until the last of the 64-bit numbers is issued, and then
/// never again; an ID that is about to be issued is one more than the number of those that were.
pub proof fn law_room_lasts_for_every_number<T>(table: TableView<T>)
    ensures
        table.has_room() <==> table.issued < u64::MAX,
        table.has_room() ==> table.next_id() == table.issued + 1,
        table.has_room() <==> table.next_id() != 0,
{
}

/// A table is well-formed if the IDs in use are among those issued, and there are no more of
/// these than 64-bit numbers.
pub proof fn law_well_formed_means_issued<T>(table: TableView<T>)
    ensures
        table.wf() <==> table.issued <= u64::MAX && forall|id: u64| #[trigger]
            table.live.contains_key(id) ==> 1 <= id <= table.issued,
{
}

/// A registry is well-formed if both of its tables are, and asks nothing else.
pub proof fn law_registry_is_well_formed_by_table<I, E>(registry: RegistryView<I, E>)
    ensures
        registry.wf() <==> registry.instances.wf() && registry.executors.wf(),
{
}

/// A lookup finds the object that is in use under the ID, and nothing where there is none.
pub proof fn law_lookup_finds_the_object_in_use<T>(
    table: TableView<T>,
    id: u64,
    found: Option<Arc<T>>,
)
    ensures
        crate::handle_registry::is_found(found, table.lookup(id)) <==> match found {
            Some(object) => table.live.contains_key(id) && table.live[id] == *object,
            None => !table.live.contains_key(id),
        },
{
}

/// Registering makes one ID resolve to the new object and leaves what every other ID resolves
/// to.
pub proof fn law_register_adds_one_object<T>(table: TableView<T>, object: T, id: u64)
    requires
        table.has_room(),
    ensures
        table.register(object).issued == table.issued + 1,
        id == table.issued + 1 ==> table.register(object).lookup(id) == Some(object),
        id != table.issued + 1 ==> table.register(object).lookup(id) == table.lookup(id),
{
}

/// Destroying takes one object out and nothing else: the one that is taken out, together with
/// those that stay, are the ones that were there before, and the table keeps no share of it.
pub proof fn law_destroy_gives_up_one_object<T>(table: TableView<T>, id: u64, other: u64)
    ensures
        !table.destroy(id).live.contains_key(id),
        table.lookup(id) matches Some(object) ==> table.destroy(id).live.insert(id, object)
            == table.live,
        table.lookup(id) is None ==> table.destroy(id) == table,
        other != id ==> table.destroy(id).lookup(other) == table.lookup(other),
        table.destroy(id).issued == table.issued,
{
    if table.lookup(id) is Some {
        assert(table.destroy(id).live.insert(id, table.live[id]) =~= table.live);
    } else {
        assert(table.destroy(id) =~= table);
    }
}

/// The IDs of a kind are consecutive: a registration issues the number after as many as were
/// issued at the start and registered since, however many objects were destroyed in between.
pub proof fn law_ids_are_consecutive<I, E>(
    registry: RegistryView<I, E>,
    history: Seq<Operation<I, E>>,
    i: int,
)
    requires
        within_limits(replay(registry, history)),
        0 <= i < history.len(),
    ensures
        history[i] is RegisterInstance ==> instance_id_at(registry, history, i)
            == registry.instances.issued + instance_registrations(history.take(i)) + 1,
        history[i] is RegisterExecutor ==> executor_id_at(registry, history, i)
            == registry.executors.issued + executor_registrations(history.take(i)) + 1,
{
    law_counters_count_registrations(registry, history.take(i));
    lemma_replay_by_table(registry, history);
    lemma_replay_by_table(registry, history.take(i));
    lemma_replay_by_table(registry, history.take(i + 1));
    assert(history.take(i + 1).drop_last() =~= history.take(i));
    assert(history.take(i + 1).last() == history[i]);
    assert(on_instances(history).take(i + 1) =~= on_instances(history.take(i + 1)));
    assert(on_executors(history).take(i + 1) =~= on_executors(history.take(i + 1)));
    assert(on_instances(history).take(history.len() as int) =~= on_instances(history));
    assert(on_executors(history).take(history.len() as int) =~= on_executors(history));
    lemma_issued_grows(registry.instances, on_instances(history), i + 1, history.len() as int);
    lemma_issued_grows(registry.executors, on_executors(history), i + 1, history.len() as int);
}

} // verus!
