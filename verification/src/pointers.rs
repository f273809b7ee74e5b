//! The checks that entry points make on the pointers they are given.
//!
//! A pointer is a number here: its address. The pointer of an instance or an executor is not
//! an address at all but the ID of that object in the registry, so it is looked up and never
//! dereferenced. Address 0 is the null pointer.
//!
//! Each check has a spec function beside it that gives the message of the refusal, or `None`
//! where the check passes.

use crate::capi_executor::CapiExecutor;
use crate::capi_instance::CapiInstance;
use crate::handle_registry::{lookup_executor, lookup_instance, HandleRegistry, RegistryView};
use std::sync::Arc;
use vstd::prelude::*;

verus! {

/// Only the null pointer is refused.
pub open spec fn null_refusal(ptr: usize, err_msg: Seq<char>) -> Option<Seq<char>> {
    if ptr == 0 {
        Some(err_msg)
    } else {
        None
    }
}

/// The null pointer is refused, and so is every address that is no multiple of `align`.
pub open spec fn const_ptr_refusal(ptr: usize, align: nat, err_msg: Seq<char>) -> Option<
    Seq<char>,
> {
    if ptr == 0 {
        Some(err_msg)
    } else if ptr as nat % align != 0 {
        Some("input ptr is misaligned"@)
    } else {
        None
    }
}

/// Only a handle that an instance is registered under passes.
pub open spec fn instance_refusal<I, E>(
    registry: RegistryView<I, E>,
    instance_ptr: u64,
) -> Option<Seq<char>> {
    if instance_ptr == 0 {
        Some("instance ptr is null"@)
    } else if registry.instances.lookup(instance_ptr) is None {
        Some("instance handle not found in registry (stale or never registered)"@)
    } else {
        None
    }
}

/// Only a handle that an executor is registered under passes.
pub open spec fn executor_refusal<I, E>(
    registry: RegistryView<I, E>,
    executor_ptr: u64,
) -> Option<Seq<char>> {
    if executor_ptr == 0 {
        Some("executor ptr is null"@)
    } else if registry.executors.lookup(executor_ptr) is None {
        Some("executor handle not found in registry (stale or never registered)"@)
    } else {
        None
    }
}

/// Whether `checked` is `Ok` exactly where there is no refusal, and else the message of the
/// refusal.
pub open spec fn follows<R>(checked: Result<R, String>, refusal: Option<Seq<char>>) -> bool {
    match checked {
        Ok(_) => refusal is None,
        Err(message) => refusal == Some(message@),
    }
}

/// Refuses the null pointer with `err_msg`.
pub fn check_not_null(ptr: usize, err_msg: &str) -> (checked: Result<(), String>)
    ensures
        follows(checked, null_refusal(ptr, err_msg@)),
        checked is Ok <==> ptr != 0,
        checked matches Err(message) ==> message@ == err_msg@,
{
    if ptr == 0 {
        return Err(err_msg.to_string());
    }
    Ok(())
}

/// Refuses the null pointer with `err_msg`, and a pointer that is not aligned for a `P`.
pub fn check_input_const_ptr<P>(ptr: usize, err_msg: &str) -> (checked: Result<(), String>)
    ensures
        follows(checked, const_ptr_refusal(ptr, vstd::layout::align_of::<P>(), err_msg@)),
        checked is Ok <==> ptr != 0 && ptr as nat % vstd::layout::align_of::<P>() == 0,
        checked matches Err(message) ==> message@ == if ptr == 0 {
            err_msg@
        } else {
            "input ptr is misaligned"@
        },
{
    vstd::layout::layout_for_type_is_valid::<P>();
    if ptr == 0 {
        Err(err_msg.to_string())
    } else if ptr % std::mem::align_of::<P>() != 0 {
        Err("input ptr is misaligned".to_string())
    } else {
        Ok(())
    }
}

/// Resolves an instance handle. The object stays alive for as long as the caller keeps what
/// is returned, whatever happens to the handle meanwhile.
pub fn cast_capi_instance_ptr<I, E>(
    registry: &HandleRegistry<I, E>,
    instance_ptr: u64,
) -> (checked: Result<Arc<CapiInstance<I>>, String>)
    requires
        registry@.wf(),
    ensures
        follows(checked, instance_refusal(registry@, instance_ptr)),
        checked matches Ok(instance) ==> registry@.instances.lookup(instance_ptr) == Some(
            *instance,
        ),
        checked is Ok <==> registry@.instances.live.contains_key(instance_ptr),
        checked matches Ok(instance) ==> *instance == registry@.instances.live[instance_ptr],
        checked matches Err(message) ==> message@ == if instance_ptr == 0 {
            "instance ptr is null"@
        } else {
            "instance handle not found in registry (stale or never registered)"@
        },
{
    if instance_ptr == 0 {
        return Err("instance ptr is null".to_string());
    }
    match lookup_instance(registry, instance_ptr) {
        Some(instance) => Ok(instance),
        None => Err(
            "instance handle not found in registry (stale or never registered)".to_string(),
        ),
    }
}

/// Resolves an executor handle, as [`cast_capi_instance_ptr`] does for instances.
pub fn cast_capi_executor_ptr<I, E>(
    registry: &HandleRegistry<I, E>,
    executor_ptr: u64,
) -> (checked: Result<Arc<CapiExecutor<E>>, String>)
    requires
        registry@.wf(),
    ensures
        follows(checked, executor_refusal(registry@, executor_ptr)),
        checked matches Ok(executor) ==> registry@.executors.lookup(executor_ptr) == Some(
            *executor,
        ),
        checked is Ok <==> registry@.executors.live.contains_key(executor_ptr),
        checked matches Ok(executor) ==> *executor == registry@.executors.live[executor_ptr],
        checked matches Err(message) ==> message@ == if executor_ptr == 0 {
            "executor ptr is null"@
        } else {
            "executor handle not found in registry (stale or never registered)"@
        },
{
    if executor_ptr == 0 {
        return Err("executor ptr is null".to_string());
    }
    match lookup_executor(registry, executor_ptr) {
        Some(executor) => Ok(executor),
        None => Err(
            "executor handle not found in registry (stale or never registered)".to_string(),
        ),
    }
}

} // verus!
