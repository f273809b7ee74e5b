//! The entry points that create, configure and destroy executors.
//!
//! An entry point that needs the engine comes in parts. The first ones decide whether the
//! request is refused and which object it is about; the engine is called in between; the
//! last part turns what the engine answered into the reply. The registry is not held while
//! the engine works.

use crate::handle_registry::{destroy_executor, register_executor, HandleRegistry};
use crate::pointers::{cast_capi_executor_ptr, check_not_null};
use crate::reply::{vm_exec_result_t, Reply};
use std::sync::Arc;
use vstd::prelude::*;

verus! {

/// The opaque type that an executor handle claims to point to.
#[allow(non_camel_case_types)]
pub struct vm_exec_executor_t;

/// An executor as the registry keeps it. `content` is what the engine made; nothing here
/// looks inside.
pub struct CapiExecutor<E> {
    pub content: E,
}

/// First part of creating an executor: the pointer to the pointer to the VM hooks must not be
/// null. Only then can it be followed.
pub fn vm_exec_new_executor_hooks(vm_hook_pointers_ptr_ptr: usize) -> (checked: Result<(), Reply<u64>>)
    ensures
        match checked {
            Ok(()) => vm_hook_pointers_ptr_ptr != 0,
            Err(reply) => {
                &&& vm_hook_pointers_ptr_ptr == 0
                &&& reply.fails("VM hooks ptr is null"@)
                &&& reply.result == vm_exec_result_t::VM_EXEC_ERROR
                &&& reply.last_error is Some
                &&& reply.written is None
            },
        },
{
    match check_not_null(vm_hook_pointers_ptr_ptr, "VM hooks ptr is null") {
        Ok(()) => Ok(()),
        Err(message) => Err(Reply::error(message)),
    }
}

/// Second part of creating an executor: the pointer to the VM hooks must not be null either.
pub fn vm_exec_new_executor_inner_hooks(vm_hook_pointers_ptr: usize) -> (checked: Result<(), Reply<u64>>)
    ensures
        match checked {
            Ok(()) => vm_hook_pointers_ptr != 0,
            Err(reply) => {
                &&& vm_hook_pointers_ptr == 0
                &&& reply.fails("VM hooks inner ptr is null"@)
                &&& reply.result == vm_exec_result_t::VM_EXEC_ERROR
                &&& reply.last_error is Some
                &&& reply.written is None
            },
        },
{
    match check_not_null(vm_hook_pointers_ptr, "VM hooks inner ptr is null") {
        Ok(()) => Ok(()),
        Err(message) => Err(Reply::error(message)),
    }
}

/// Last part of creating an executor, on what the engine answered. A new executor is
/// registered and its handle is written; an error is passed on and nothing is registered.
pub fn vm_exec_new_executor_reply<I, E>(
    registry: &mut HandleRegistry<I, E>,
    created: Result<E, String>,
) -> (reply: Reply<u64>)
    requires
        old(registry)@.wf(),
        created is Ok ==> old(registry)@.executors.has_room(),
    ensures
        final(registry)@.wf(),
        match created {
            Ok(content) => {
                &&& reply.succeeds(old(registry)@.executors.next_id())
                &&& final(registry)@ == old(registry)@.register_executor(CapiExecutor { content })
                &&& reply.result == vm_exec_result_t::VM_EXEC_OK
                &&& reply.last_error is None
                &&& reply.written matches Some(id)
                &&& id == old(registry)@.executors.issued + 1
                &&& final(registry)@.executors.live == old(registry)@.executors.live.insert(
                    id,
                    CapiExecutor { content },
                )
            },
            Err(message) => {
                &&& reply.fails(message@)
                &&& final(registry)@ == old(registry)@
                &&& reply.result == vm_exec_result_t::VM_EXEC_ERROR
                &&& reply.last_error == Some(message)
                &&& reply.written is None
            },
        },
{
    match created {
        Ok(content) => {
            let id: u64 = register_executor(registry, CapiExecutor { content });
            Reply::ok(id)
        },
        Err(message) => Reply::error(message),
    }
}

/// What the engine is to be called with to set the VM hooks of an executor.
pub struct SetVmHooksCall<E> {
    /// The executor to call.
    pub executor: Arc<CapiExecutor<E>>,
    /// The address to hand to the executor.
    pub vm_hooks_ptr: usize,
}

/// First part of setting the VM hooks of an executor: finds the executor, and says what to
/// call it with. The hooks pointer is handed on as it is, null or not.
pub fn vm_exec_executor_set_vm_hooks_ptr_target<I, E>(
    registry: &HandleRegistry<I, E>,
    executor_ptr: u64,
    vm_hooks_ptr: usize,
) -> (target: Result<SetVmHooksCall<E>, Reply<()>>)
    requires
        registry@.wf(),
    ensures
        match target {
            Ok(call) => {
                &&& crate::pointers::executor_refusal(registry@, executor_ptr) is None
                &&& registry@.executors.lookup(executor_ptr) == Some(*call.executor)
                &&& call.vm_hooks_ptr == vm_hooks_ptr
            },
            Err(reply) => {
                &&& crate::pointers::executor_refusal(registry@, executor_ptr) matches Some(message)
                &&& reply.fails(message)
                &&& reply.result == vm_exec_result_t::VM_EXEC_ERROR
                &&& reply.last_error is Some
                &&& reply.written is None
            },
        },
        target is Ok <==> registry@.executors.live.contains_key(executor_ptr),
        target matches Ok(call) ==> *call.executor == registry@.executors.live[executor_ptr],
{
    match cast_capi_executor_ptr(registry, executor_ptr) {
        Ok(executor) => Ok(SetVmHooksCall { executor, vm_hooks_ptr }),
        Err(message) => Err(Reply::error(message)),
    }
}

/// Last part of setting the VM hooks, on what the executor answered.
pub fn vm_exec_executor_set_vm_hooks_ptr_reply(outcome: Result<(), String>) -> (reply: Reply<()>)
    ensures
        match outcome {
            Ok(()) => {
                &&& reply.succeeds(())
                &&& reply.result == vm_exec_result_t::VM_EXEC_OK
                &&& reply.last_error is None
            },
            Err(message) => {
                &&& reply.fails(message@)
                &&& reply.result == vm_exec_result_t::VM_EXEC_ERROR
                &&& reply.last_error == Some(message)
                &&& reply.written is None
            },
        },
{
    match outcome {
        Ok(()) => Reply::ok(()),
        Err(message) => Reply::error(message),
    }
}

/// Destroys an executor. A handle that is null, stale or was never issued is silently
/// ignored, so that destroying twice does no harm.
pub fn vm_exec_executor_destroy<I, E>(registry: &mut HandleRegistry<I, E>, executor_ptr: u64)
    requires
        old(registry)@.wf(),
    ensures
        final(registry)@ == old(registry)@.destroy_executor(executor_ptr),
        final(registry)@.executors.live == old(registry)@.executors.live.remove(executor_ptr),
        final(registry)@.executors.issued == old(registry)@.executors.issued,
        final(registry)@.instances == old(registry)@.instances,
        old(registry)@.executors.lookup(executor_ptr) is None ==> final(registry)@ == old(
            registry,
        )@,
        final(registry)@.wf(),
{
    if executor_ptr == 0 {
        assert(registry@ =~= registry@.destroy_executor(executor_ptr));
        return;
    }
    let _removed = destroy_executor(registry, executor_ptr);
}

} // verus!
