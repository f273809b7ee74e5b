//! The entry points that turn an instance into bytes, release those bytes, and make an
//! instance out of such bytes.
//!
//! As with executors, the engine is called between the parts of an entry point.

use crate::capi_executor::CapiExecutor;
use crate::capi_instance::CapiInstance;
use crate::decimal::append_decimal;
use crate::handle_registry::{register_instance, HandleRegistry, RegistryView};
use crate::pointers::{
    cast_capi_executor_ptr, cast_capi_instance_ptr, check_input_const_ptr, check_not_null,
};
use crate::reply::{vm_exec_result_t, Reply};
use std::sync::Arc;
use vstd::prelude::*;
use vstd::string::*;

verus! {

/// The longest compiled cache that is accepted: 32 MiB, which leaves a compiled cache several
/// times the size that its source may have.
pub const MAX_CACHE_BYTES_LEN: u32 = 32 * 1024 * 1024;

/// A compiled cache on its way to the caller.
#[derive(Debug)]
pub struct CachedBytes {
    /// The bytes, in a buffer without spare capacity: its address and its length are enough to
    /// release it. The buffer becomes the caller's.
    pub bytes: Box<[u8]>,
    /// The length to write beside the address of the buffer.
    pub len: u32,
}

/// The reason to refuse to cache an instance, if there is one.
pub open spec fn instance_cache_refusal<I, E>(
    registry: RegistryView<I, E>,
    instance_ptr: u64,
    cache_bytes_ptr: usize,
    cache_bytes_len: usize,
) -> Option<Seq<char>> {
    if crate::pointers::instance_refusal(registry, instance_ptr) is Some {
        crate::pointers::instance_refusal(registry, instance_ptr)
    } else if cache_bytes_ptr == 0 {
        Some("cache_bytes_ptr out-param is null"@)
    } else if cache_bytes_len == 0 {
        Some("cache_bytes_len out-param is null"@)
    } else {
        None
    }
}

/// First part of caching an instance: finds the instance, and checks that there is a place
/// to write the address and the length of its cache to.
pub fn vm_exec_instance_cache_target<I, E>(
    registry: &HandleRegistry<I, E>,
    instance_ptr: u64,
    cache_bytes_ptr: usize,
    cache_bytes_len: usize,
) -> (target: Result<Arc<CapiInstance<I>>, Reply<CachedBytes>>)
    requires
        registry@.wf(),
    ensures
        match target {
            Ok(instance) => {
                &&& instance_cache_refusal(
                    registry@,
                    instance_ptr,
                    cache_bytes_ptr,
                    cache_bytes_len,
                ) is None
                &&& registry@.instances.lookup(instance_ptr) == Some(*instance)
            },
            Err(reply) => {
                &&& instance_cache_refusal(
                    registry@,
                    instance_ptr,
                    cache_bytes_ptr,
                    cache_bytes_len,
                ) matches Some(message)
                &&& reply.fails(message)
                &&& reply.result == vm_exec_result_t::VM_EXEC_ERROR
                &&& reply.last_error is Some
                &&& reply.written is None
            },
        },
        target is Ok <==> registry@.instances.live.contains_key(instance_ptr) && cache_bytes_ptr
            != 0 && cache_bytes_len != 0,
        target matches Ok(instance) ==> *instance == registry@.instances.live[instance_ptr],
{
    let instance = match cast_capi_instance_ptr(registry, instance_ptr) {
        Ok(instance) => instance,
        Err(message) => return Err(Reply::error(message)),
    };
    match check_not_null(cache_bytes_ptr, "cache_bytes_ptr out-param is null") {
        Ok(()) => {},
        Err(message) => return Err(Reply::error(message)),
    }
    match check_not_null(cache_bytes_len, "cache_bytes_len out-param is null") {
        Ok(()) => {},
        Err(message) => return Err(Reply::error(message)),
    }
    Ok(instance)
}

/// The length that is written for a cache of `len` bytes. It has 32 bits: a longer cache loses
/// the higher bits of its length.
pub open spec fn written_len(len: nat) -> nat {
    len % 0x1_0000_0000
}

/// `Box::<[T]>::from` allocates a boxed slice and copies a slice into it. Believed of it: the
/// boxed slice is as long as the slice, and each of its elements is a copy of the one in the same
/// place. That the buffer has no capacity beyond its length is what the type says.
pub assume_specification<'a, T: Clone>[ <Box<[T]> as core::convert::From<&'a [T]>>::from ](
    slice: &[T],
) -> (boxed: Box<[T]>)
    ensures
        boxed@.len() == slice@.len(),
        forall|i: int| 0 <= i < slice@.len() ==> cloned(slice@[i], #[trigger] boxed@[i]),
;

/// Moves bytes into a buffer without spare capacity.
fn into_boxed_slice(bytes: Vec<u8>) -> (boxed: Box<[u8]>)
    ensures
        boxed@ == bytes@,
{
    let boxed: Box<[u8]> = Box::from(bytes.as_slice());
    assert(boxed@ =~= bytes@);
    boxed
}

/// Last part of caching an instance, on what the instance answered. The bytes are handed over
/// with their length, in a buffer that is exactly as long; an error is passed on.
pub fn vm_exec_instance_cache_reply(outcome: Result<Vec<u8>, String>) -> (reply: Reply<CachedBytes>)
    ensures
        match outcome {
            Ok(bytes) => {
                &&& reply.written matches Some(written)
                &&& reply.succeeds(written)
                &&& written.bytes@ == bytes@
                &&& written.len == written_len(bytes@.len())
                &&& bytes@.len() <= u32::MAX ==> written.len == written.bytes@.len()
                &&& reply.result == vm_exec_result_t::VM_EXEC_OK
                &&& reply.last_error is None
            },
            Err(message) => {
                &&& reply.fails(message@)
                &&& reply.result == vm_exec_result_t::VM_EXEC_ERROR
                &&& reply.last_error == Some(message)
                &&& reply.written is None
            },
        },
{
    match outcome {
        Ok(bytes) => {
            let full_len: u64 = bytes.len() as u64;
            let len: u32 = #[verifier::truncate]
            (full_len as u32);
            assert(full_len as u32 == full_len % 0x1_0000_0000) by (bit_vector);
            Reply::ok(CachedBytes { bytes: into_boxed_slice(bytes), len })
        },
        Err(message) => Reply::error(message),
    }
}

/// The length of the cache buffer to release, if there is one. The null pointer and an empty
/// buffer own no memory.
pub open spec fn freed_len(ptr: usize, len: u32) -> Option<nat> {
    if ptr == 0 || len == 0 {
        None
    } else {
        Some(len as nat)
    }
}

/// Decides whether there is a cache buffer to release, and how long it is.
pub fn vm_exec_cache_free_len(ptr: usize, len: u32) -> (buffer_len: Option<usize>)
    ensures
        match buffer_len {
            Some(n) => freed_len(ptr, len) == Some(n as nat),
            None => freed_len(ptr, len) is None,
        },
        ptr == 0 ==> buffer_len is None,
        buffer_len is Some <==> ptr != 0 && len != 0,
        buffer_len matches Some(n) ==> n == len,
{
    if ptr == 0 || len == 0 {
        return None;
    }
    Some(len as usize)
}

/// The pointers and the length that a request to make an instance from a cache comes with.
#[derive(Clone, Copy, Debug)]
pub struct FromCacheRequest {
    /// The handle of the executor that provides the context of the instance.
    pub executor_ptr: u64,
    /// Where to write the handle of the new instance.
    pub instance_ptr_ptr: usize,
    /// Where the cache begins.
    pub cache_bytes_ptr: usize,
    /// How long the cache is.
    pub cache_bytes_len: u32,
    /// Where the compilation options are.
    pub options_ptr: usize,
}

/// What the engine is to be called with for a request that goes ahead.
pub struct FromCacheCall<E> {
    /// The executor to call.
    pub executor: Arc<CapiExecutor<E>>,
    /// Where the cache begins.
    pub cache_bytes_ptr: usize,
    /// How many bytes the cache has.
    pub cache_bytes_len: usize,
    /// Where the compilation options are.
    pub options_ptr: usize,
}

/// The message that refuses a cache of `len` bytes as too long.
pub open spec fn too_long_message(len: u32) -> Seq<char> {
    "cache bytes length "@ + crate::decimal::decimal(len as nat) + " exceeds maximum "@
        + crate::decimal::decimal(MAX_CACHE_BYTES_LEN as nat)
}

/// The reason to refuse to make an instance from a cache, if there is one. `align` is the
/// alignment of the compilation options.
pub open spec fn instance_from_cache_refusal<I, E>(
    registry: RegistryView<I, E>,
    request: FromCacheRequest,
    align: nat,
) -> Option<Seq<char>> {
    if crate::pointers::executor_refusal(registry, request.executor_ptr) is Some {
        crate::pointers::executor_refusal(registry, request.executor_ptr)
    } else if request.instance_ptr_ptr == 0 {
        Some("instance out-param is null"@)
    } else if request.cache_bytes_ptr == 0 {
        Some("cache bytes ptr is null"@)
    } else if request.cache_bytes_len > MAX_CACHE_BYTES_LEN {
        Some(too_long_message(request.cache_bytes_len))
    } else {
        crate::pointers::const_ptr_refusal(
            request.options_ptr,
            align,
            "compilation options ptr is null"@,
        )
    }
}

/// First part of making an instance from a cache: finds the executor, checks everything else
/// that the request comes with, and says what to call the engine with. `O` is the type of the compilation options.
pub fn vm_exec_instance_from_cache_target<I, E, O>(
    registry: &HandleRegistry<I, E>,
    request: FromCacheRequest,
) -> (target: Result<FromCacheCall<E>, Reply<u64>>)
    requires
        registry@.wf(),
    ensures
        match target {
            Ok(call) => {
                &&& instance_from_cache_refusal(
                    registry@,
                    request,
                    vstd::layout::align_of::<O>(),
                ) is None
                &&& registry@.executors.lookup(request.executor_ptr) == Some(*call.executor)
                &&& call.cache_bytes_ptr == request.cache_bytes_ptr
                &&& call.cache_bytes_len == request.cache_bytes_len
                &&& call.options_ptr == request.options_ptr
            },
            Err(reply) => {
                &&& instance_from_cache_refusal(
                    registry@,
                    request,
                    vstd::layout::align_of::<O>(),
                ) matches Some(message)
                &&& reply.fails(message)
                &&& reply.result == vm_exec_result_t::VM_EXEC_ERROR
                &&& reply.last_error is Some
                &&& reply.written is None
            },
        },
        target is Ok <==> {
            &&& registry@.executors.live.contains_key(request.executor_ptr)
            &&& request.instance_ptr_ptr != 0
            &&& request.cache_bytes_ptr != 0
            &&& request.cache_bytes_len <= 33554432
            &&& request.options_ptr != 0
            &&& request.options_ptr as nat % vstd::layout::align_of::<O>() == 0
        },
        target matches Ok(call) ==> *call.executor
            == registry@.executors.live[request.executor_ptr],
{
    let executor = match cast_capi_executor_ptr(registry, request.executor_ptr) {
        Ok(executor) => executor,
        Err(message) => return Err(Reply::error(message)),
    };
    match check_not_null(request.instance_ptr_ptr, "instance out-param is null") {
        Ok(()) => {},
        Err(message) => return Err(Reply::error(message)),
    }
    match check_not_null(request.cache_bytes_ptr, "cache bytes ptr is null") {
        Ok(()) => {},
        Err(message) => return Err(Reply::error(message)),
    }
    if request.cache_bytes_len > MAX_CACHE_BYTES_LEN {
        let mut message = String::new();
        message.append("cache bytes length ");
        append_decimal(&mut message, request.cache_bytes_len);
        message.append(" exceeds maximum ");
        append_decimal(&mut message, MAX_CACHE_BYTES_LEN);
        assert(message@ =~= too_long_message(request.cache_bytes_len));
        return Err(Reply::error(message));
    }
    match check_input_const_ptr::<O>(request.options_ptr, "compilation options ptr is null") {
        Ok(()) => {},
        Err(message) => return Err(Reply::error(message)),
    }
    Ok(
        FromCacheCall {
            executor,
            cache_bytes_ptr: request.cache_bytes_ptr,
            cache_bytes_len: request.cache_bytes_len as usize,
            options_ptr: request.options_ptr,
        },
    )
}

/// Last part of making an instance from a cache, on what the executor answered. A new
/// instance is registered and its handle is written; an error is passed on and nothing is
/// registered.
pub fn vm_exec_instance_from_cache_reply<I, E>(
    registry: &mut HandleRegistry<I, E>,
    created: Result<I, String>,
) -> (reply: Reply<u64>)
    requires
        old(registry)@.wf(),
        created is Ok ==> old(registry)@.instances.has_room(),
    ensures
        final(registry)@.wf(),
        match created {
            Ok(content) => {
                &&& reply.succeeds(old(registry)@.instances.next_id())
                &&& final(registry)@ == old(registry)@.register_instance(CapiInstance { content })
                &&& reply.result == vm_exec_result_t::VM_EXEC_OK
                &&& reply.last_error is None
                &&& reply.written matches Some(id)
                &&& id == old(registry)@.instances.issued + 1
                &&& final(registry)@.instances.live == old(registry)@.instances.live.insert(
                    id,
                    CapiInstance { content },
                )
            },
            Err(message) => {
                &&& reply.fails(message@)
                &&& final(registry)@ == old(registry)@
                &&& reply.result == vm_exec_result_t::VM_EXEC_ERROR
                &&& reply.last_error == Some(message)
                &&& reply.written is None
            },
        },
{
    match created {
        Ok(content) => {
            let id: u64 = register_instance(registry, CapiInstance::new(content));
            Reply::ok(id)
        },
        Err(message) => Reply::error(message),
    }
}

} // verus!
