//! The typed registry of executors and instances.
//!
//! Objects are known to the outside by IDs instead of addresses. The IDs of each kind come
//! from a counter that starts at 1 and only moves forward, so none is ever issued twice and
//! 0 is never issued: a destroyed handle stays dead, however memory is reused. Instances and
//! executors are kept in tables of their own, so a handle is only ever resolved to an object
//! of the kind that was asked for.
//!
//! The registry shares its objects. What a lookup returns keeps the object alive until the
//! caller lets go of it, even if the handle is destroyed in the meantime.

use crate::capi_executor::CapiExecutor;
use crate::capi_instance::CapiInstance;
use std::collections::HashMap;
use std::sync::Arc;
use vstd::prelude::*;

verus! {

broadcast use vstd::std_specs::hash::group_hash_axioms;

/// What a table of handles holds, as a mathematical value.
#[verifier::ext_equal]
#[verifier::reject_recursive_types(T)]
pub struct TableView<T> {
    /// How many IDs were ever issued. They are the numbers from 1 up to this one.
    pub issued: nat,
    /// The objects that were registered and not destroyed since, by ID.
    pub live: Map<u64, T>,
}

impl<T> TableView<T> {
    /// The table that nothing was ever registered in.
    pub open spec fn empty() -> Self {
        TableView { issued: 0, live: Map::empty() }
    }

    /// Every ID in use was issued: it is neither 0 nor beyond the last number handed out.
    pub open spec fn wf(self) -> bool {
        &&& self.issued <= u64::MAX
        &&& forall|id: u64| #[trigger] self.live.contains_key(id) ==> 1 <= id <= self.issued
    }

    /// Whether there is a number left for one more object.
    pub open spec fn has_room(self) -> bool {
        self.issued < u64::MAX
    }

    /// The ID that the next registration issues, or 0 if no number is left.
    pub open spec fn next_id(self) -> u64 {
        if self.has_room() {
            (self.issued + 1) as u64
        } else {
            0
        }
    }

    /// The table after `object` was registered.
    pub open spec fn register(self, object: T) -> Self {
        TableView { issued: self.issued + 1, live: self.live.insert(self.next_id(), object) }
    }

    /// What `id` resolves to.
    pub open spec fn lookup(self, id: u64) -> Option<T> {
        if self.live.contains_key(id) {
            Some(self.live[id])
        } else {
            None
        }
    }

    /// The table after `id` was destroyed. An ID that is not in use changes nothing.
    pub open spec fn destroy(self, id: u64) -> Self {
        TableView { issued: self.issued, live: self.live.remove(id) }
    }
}

/// What a registry holds, as a mathematical value.
#[verifier::ext_equal]
#[verifier::reject_recursive_types(I)]
#[verifier::reject_recursive_types(E)]
pub struct RegistryView<I, E> {
    pub instances: TableView<CapiInstance<I>>,
    pub executors: TableView<CapiExecutor<E>>,
}

impl<I, E> RegistryView<I, E> {
    /// The registry that nothing was ever registered in.
    pub open spec fn empty() -> Self {
        RegistryView { instances: TableView::empty(), executors: TableView::empty() }
    }

    /// Both tables are well-formed.
    pub open spec fn wf(self) -> bool {
        &&& self.instances.wf()
        &&& self.executors.wf()
    }

    /// The registry after `instance` was registered.
    pub open spec fn register_instance(self, instance: CapiInstance<I>) -> Self {
        RegistryView { instances: self.instances.register(instance), executors: self.executors }
    }

    /// The registry after instance `id` was destroyed.
    pub open spec fn destroy_instance(self, id: u64) -> Self {
        RegistryView { instances: self.instances.destroy(id), executors: self.executors }
    }

    /// The registry after `executor` was registered.
    pub open spec fn register_executor(self, executor: CapiExecutor<E>) -> Self {
        RegistryView { instances: self.instances, executors: self.executors.register(executor) }
    }

    /// The registry after executor `id` was destroyed.
    pub open spec fn destroy_executor(self, id: u64) -> Self {
        RegistryView { instances: self.instances, executors: self.executors.destroy(id) }
    }
}

/// Whether a lookup found `object`, or nothing where there is none.
pub open spec fn is_found<T>(found: Option<Arc<T>>, object: Option<T>) -> bool {
    match found {
        Some(shared) => object == Some(*shared),
        None => object is None,
    }
}

/// The handles of one kind of object: a counter that only moves forward, and the objects in
/// use under the numbers it gave out.
#[verifier::reject_recursive_types(T)]
struct HandleTable<T> {
    objects: HashMap<u64, Arc<T>>,
    /// The ID to issue next, or 0 once every number was issued.
    next_id: u64,
}

impl<T> HandleTable<T> {
    spec fn view(&self) -> TableView<T> {
        TableView {
            issued: if self.next_id == 0 {
                u64::MAX as nat
            } else {
                (self.next_id - 1) as nat
            },
            live: self.objects@.map_values(|object: Arc<T>| *object),
        }
    }

    fn new() -> (table: Self)
        ensures
            table@ == TableView::<T>::empty(),
    {
        // Starting at 1 leaves 0, the null pointer, to mean that there is no object.
        let table = HandleTable { objects: HashMap::new(), next_id: 1 };
        assert(table@ =~= TableView::<T>::empty());
        table
    }

    fn register(&mut self, object: T) -> (id: u64)
        requires
            old(self)@.wf(),
            old(self)@.has_room(),
        ensures
            id == old(self)@.next_id(),
            final(self)@ == old(self)@.register(object),
    {
        let id: u64 = self.next_id;
        self.next_id = id.wrapping_add(1);
        self.objects.insert(id, Arc::new(object));
        assert(self@ =~= old(self)@.register(object));
        id
    }

    fn lookup(&self, id: u64) -> (found: Option<Arc<T>>)
        requires
            self@.wf(),
        ensures
            is_found(found, self@.lookup(id)),
    {
        if id == 0 {
            return None;
        }
        match self.objects.get(&id) {
            Some(object) => Some(Arc::clone(object)),
            None => None,
        }
    }

    /// Takes `id` out of use and hands the table's share of the object to the caller. The
    /// shares that stay in the table and the one that is handed out are those that were in it
    /// before.
    fn destroy(&mut self, id: u64) -> (removed: Option<Arc<T>>)
        requires
            old(self)@.wf(),
        ensures
            is_found(removed, old(self)@.lookup(id)),
            removed is Some <==> old(self)@.live.contains_key(id),
            removed matches Some(object) ==> final(self)@.live.insert(id, *object) == old(
                self,
            )@.live,
            removed is None ==> final(self)@ == old(self)@,
            final(self)@ == old(self)@.destroy(id),
    {
        if id == 0 {
            assert(self@ =~= old(self)@.destroy(id));
            return None;
        }
        let removed = self.objects.remove(&id);
        assert(self@ =~= old(self)@.destroy(id));
        proof {
            if removed is Some {
                assert(self@.live.insert(id, *removed->0) =~= old(self)@.live);
            } else {
                assert(self@ =~= old(self)@);
            }
        }
        removed
    }
}

/// The executors and instances that are in use, by ID.
#[verifier::reject_recursive_types(I)]
#[verifier::reject_recursive_types(E)]
pub struct HandleRegistry<I, E> {
    instances: HandleTable<CapiInstance<I>>,
    executors: HandleTable<CapiExecutor<E>>,
}

impl<I, E> View for HandleRegistry<I, E> {
    type V = RegistryView<I, E>;

    closed spec fn view(&self) -> RegistryView<I, E> {
        RegistryView { instances: self.instances@, executors: self.executors@ }
    }
}

impl<I, E> HandleRegistry<I, E> {
    /// A registry that holds nothing and has issued nothing.
    pub fn new() -> (registry: Self)
        ensures
            registry@ == RegistryView::<I, E>::empty(),
            registry@.wf(),
    {
        HandleRegistry { instances: HandleTable::new(), executors: HandleTable::new() }
    }

    /// The ID that the next instance gets. It is 0 once every number was issued, and then no
    /// instance can be registered any more.
    pub fn next_instance_id(&self) -> (id: u64)
        ensures
            id == self@.instances.next_id(),
            id != 0 <==> self@.instances.has_room(),
    {
        self.instances.next_id
    }

    /// The ID that the next executor gets. It is 0 once every number was issued, and then no
    /// executor can be registered any more.
    pub fn next_executor_id(&self) -> (id: u64)
        ensures
            id == self@.executors.next_id(),
            id != 0 <==> self@.executors.has_room(),
    {
        self.executors.next_id
    }
}

/// Registers an instance and returns its ID, which no instance ever had before.
pub fn register_instance<I, E>(
    registry: &mut HandleRegistry<I, E>,
    instance: CapiInstance<I>,
) -> (id: u64)
    requires
        old(registry)@.wf(),
        old(registry)@.instances.has_room(),
    ensures
        id == old(registry)@.instances.next_id(),
        id != 0,
        final(registry)@ == old(registry)@.register_instance(instance),
        id == old(registry)@.instances.issued + 1,
        final(registry)@.instances.issued == id,
        final(registry)@.instances.live == old(registry)@.instances.live.insert(id, instance),
        final(registry)@.executors == old(registry)@.executors,
        final(registry)@.wf(),
{
    registry.instances.register(instance)
}

/// Looks an instance up. Returns `None` if the ID was never issued or is already destroyed.
pub fn lookup_instance<I, E>(registry: &HandleRegistry<I, E>, id: u64) -> (found: Option<
    Arc<CapiInstance<I>>,
>)
    requires
        registry@.wf(),
    ensures
        is_found(found, registry@.instances.lookup(id)),
        found is Some <==> registry@.instances.live.contains_key(id),
        found matches Some(instance) ==> *instance == registry@.instances.live[id],
        id == 0 ==> found is None,
{
    registry.instances.lookup(id)
}

/// Removes an instance from the registry. Returns whether the ID was in use: destroying an ID
/// that was never issued, or twice, is harmless.
///
/// The registry gives up its own share of the object. The object itself goes away with the
/// last share, so a caller that still holds one can finish its work.
pub fn destroy_instance<I, E>(registry: &mut HandleRegistry<I, E>, id: u64) -> (present: bool)
    requires
        old(registry)@.wf(),
    ensures
        present == (old(registry)@.instances.lookup(id) is Some),
        id == 0 ==> !present,
        !present ==> final(registry)@ == old(registry)@,
        final(registry)@ == old(registry)@.destroy_instance(id),
        present == old(registry)@.instances.live.contains_key(id),
        final(registry)@.instances.live == old(registry)@.instances.live.remove(id),
        final(registry)@.instances.issued == old(registry)@.instances.issued,
        final(registry)@.executors == old(registry)@.executors,
        final(registry)@.wf(),
{
    registry.instances.destroy(id).is_some()
}

/// Registers an executor and returns its ID, which no executor ever had before.
pub fn register_executor<I, E>(
    registry: &mut HandleRegistry<I, E>,
    executor: CapiExecutor<E>,
) -> (id: u64)
    requires
        old(registry)@.wf(),
        old(registry)@.executors.has_room(),
    ensures
        id == old(registry)@.executors.next_id(),
        id != 0,
        final(registry)@ == old(registry)@.register_executor(executor),
        id == old(registry)@.executors.issued + 1,
        final(registry)@.executors.issued == id,
        final(registry)@.executors.live == old(registry)@.executors.live.insert(id, executor),
        final(registry)@.instances == old(registry)@.instances,
        final(registry)@.wf(),
{
    registry.executors.register(executor)
}

/// Looks an executor up. Returns `None` if the ID was never issued or is already destroyed.
pub fn lookup_executor<I, E>(registry: &HandleRegistry<I, E>, id: u64) -> (found: Option<
    Arc<CapiExecutor<E>>,
>)
    requires
        registry@.wf(),
    ensures
        is_found(found, registry@.executors.lookup(id)),
        found is Some <==> registry@.executors.live.contains_key(id),
        found matches Some(executor) ==> *executor == registry@.executors.live[id],
        id == 0 ==> found is None,
{
    registry.executors.lookup(id)
}

/// Removes an executor from the registry, as [`destroy_instance`] does for instances.
pub fn destroy_executor<I, E>(registry: &mut HandleRegistry<I, E>, id: u64) -> (present: bool)
    requires
        old(registry)@.wf(),
    ensures
        present == (old(registry)@.executors.lookup(id) is Some),
        id == 0 ==> !present,
        !present ==> final(registry)@ == old(registry)@,
        final(registry)@ == old(registry)@.destroy_executor(id),
        present == old(registry)@.executors.live.contains_key(id),
        final(registry)@.executors.live == old(registry)@.executors.live.remove(id),
        final(registry)@.executors.issued == old(registry)@.executors.issued,
        final(registry)@.instances == old(registry)@.instances,
        final(registry)@.wf(),
{
    registry.executors.destroy(id).is_some()
}

} // verus!
