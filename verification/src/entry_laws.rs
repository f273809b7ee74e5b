//! What holds of the answers of the entry points: what a reply tells its caller, which message
//! refuses which request, and what becomes of the length of a cache.

use crate::capi_instance_cache::{FromCacheRequest, MAX_CACHE_BYTES_LEN};
use crate::handle_registry::RegistryView;
use crate::reply::{vm_exec_result_t, Reply};
use vstd::prelude::*;

verus! {

/// A reply that fails with a message, whatever the message is, tells its caller so: its code is
/// the error code, the message is stored, and nothing is written. Every such reply is a failure.
pub proof fn law_failure_is_reported<T>(reply: Reply<T>, message: Seq<char>)
    ensures
        reply.fails(message) <==> {
            &&& reply.result == vm_exec_result_t::VM_EXEC_ERROR
            &&& reply.last_error is Some
            &&& reply.last_error->0@ == message
            &&& reply.written is None
        },
{
}

/// A reply that succeeds says so: its code is the success code, the last error stays as it is,
/// and the value is written. Every such reply is a success.
pub proof fn law_success_is_reported<T>(reply: Reply<T>, value: T)
    ensures
        reply.succeeds(value) <==> {
            &&& reply.result == vm_exec_result_t::VM_EXEC_OK
            &&& reply.last_error is None
            &&& reply.written == Some(value)
        },
{
}

/// A reply that fails without a message has the error code and changes nothing.
pub proof fn law_silent_failure_is_reported<T>(reply: Reply<T>)
    ensures
        reply.fails_silently() <==> {
            &&& reply.result == vm_exec_result_t::VM_EXEC_ERROR
            &&& reply.last_error is None
            &&& reply.written is None
        },
{
}

/// The caller can tell success from failure by the code alone: whatever the value and the
/// messages are, no failure has the code of a success.
pub proof fn law_code_tells_success_from_failure<T>(
    success: Reply<T>,
    value: T,
    failure: Reply<T>,
    message: Seq<char>,
)
    requires
        success.succeeds(value),
        failure.fails(message) || failure.fails_silently(),
    ensures
        success.result == vm_exec_result_t::VM_EXEC_OK,
        failure.result == vm_exec_result_t::VM_EXEC_ERROR,
        success.result != failure.result,
{
}

/// A check passes exactly where there is nothing to refuse, and else gives the message of the
/// refusal.
pub proof fn law_check_follows_its_refusal<R>(
    checked: Result<R, String>,
    refusal: Option<Seq<char>>,
)
    ensures
        crate::pointers::follows(checked, refusal) <==> match checked {
            Ok(_) => refusal is None,
            Err(message) => refusal is Some && refusal->0 == message@,
        },
{
}

/// Of all addresses only 0 is null.
pub proof fn law_only_null_is_refused_as_null(ptr: usize, err_msg: Seq<char>)
    ensures
        ptr == 0 ==> crate::pointers::null_refusal(ptr, err_msg) == Some(err_msg),
        ptr != 0 ==> crate::pointers::null_refusal(ptr, err_msg) is None,
{
}

/// A pointer to read from is accepted if it is not null and a multiple of the alignment. Which
/// of the two it fails decides the message.
pub proof fn law_const_ptr_must_be_there_and_aligned(ptr: usize, align: nat, err_msg: Seq<char>)
    ensures
        ptr == 0 ==> crate::pointers::const_ptr_refusal(ptr, align, err_msg) == Some(err_msg),
        ptr != 0 && ptr as nat % align != 0 ==> crate::pointers::const_ptr_refusal(
            ptr,
            align,
            err_msg,
        ) == Some("input ptr is misaligned"@),
        ptr != 0 && ptr as nat % align == 0 ==> crate::pointers::const_ptr_refusal(
            ptr,
            align,
            err_msg,
        ) is None,
{
}

/// An instance handle is accepted exactly while it is in use. A null handle and one that is not
/// in use are told apart by their messages.
pub proof fn law_instance_handle_is_accepted_while_in_use<I, E>(
    registry: RegistryView<I, E>,
    id: u64,
)
    requires
        registry.wf(),
    ensures
        registry.instances.live.contains_key(id) <==> crate::pointers::instance_refusal(
            registry,
            id,
        ) is None,
        id == 0 ==> crate::pointers::instance_refusal(registry, id) == Some(
            "instance ptr is null"@,
        ),
        id != 0 && !registry.instances.live.contains_key(id) ==> crate::pointers::instance_refusal(
            registry,
            id,
        ) == Some("instance handle not found in registry (stale or never registered)"@),
{
}

/// An executor handle is accepted exactly while it is in use. A null handle and one that is not
/// in use are told apart by their messages.
pub proof fn law_executor_handle_is_accepted_while_in_use<I, E>(
    registry: RegistryView<I, E>,
    id: u64,
)
    requires
        registry.wf(),
    ensures
        registry.executors.live.contains_key(id) <==> crate::pointers::executor_refusal(
            registry,
            id,
        ) is None,
        id == 0 ==> crate::pointers::executor_refusal(registry, id) == Some(
            "executor ptr is null"@,
        ),
        id != 0 && !registry.executors.live.contains_key(id) ==> crate::pointers::executor_refusal(
            registry,
            id,
        ) == Some("executor handle not found in registry (stale or never registered)"@),
{
}

/// What is wrong with a request to cache an instance decides its message: the handle comes
/// before the out-parameters, and the address before the length.
pub proof fn law_instance_cache_names_what_is_wrong<I, E>(
    registry: RegistryView<I, E>,
    instance_ptr: u64,
    cache_bytes_ptr: usize,
    cache_bytes_len: usize,
)
    requires
        registry.wf(),
    ensures
        ({
            let refusal = crate::capi_instance_cache::instance_cache_refusal(
                registry,
                instance_ptr,
                cache_bytes_ptr,
                cache_bytes_len,
            );
            let found = registry.instances.live.contains_key(instance_ptr);
            &&& instance_ptr == 0 ==> refusal == Some("instance ptr is null"@)
            &&& instance_ptr != 0 && !found ==> refusal == Some(
                "instance handle not found in registry (stale or never registered)"@,
            )
            &&& found && cache_bytes_ptr == 0 ==> refusal == Some(
                "cache_bytes_ptr out-param is null"@,
            )
            &&& found && cache_bytes_ptr != 0 && cache_bytes_len == 0 ==> refusal == Some(
                "cache_bytes_len out-param is null"@,
            )
            &&& found && cache_bytes_ptr != 0 && cache_bytes_len != 0 ==> refusal is None
        }),
{
}

/// What is wrong with a request to make an instance from a cache decides its message: first the
/// executor, then the place for the new handle, the cache, its length, and last the options.
pub proof fn law_instance_from_cache_names_what_is_wrong<I, E>(
    registry: RegistryView<I, E>,
    request: FromCacheRequest,
    align: nat,
)
    requires
        registry.wf(),
    ensures
        ({
            let refusal = crate::capi_instance_cache::instance_from_cache_refusal(
                registry,
                request,
                align,
            );
            let found = registry.executors.live.contains_key(request.executor_ptr);
            let out = found && request.instance_ptr_ptr != 0;
            let cache = out && request.cache_bytes_ptr != 0;
            let fits = cache && request.cache_bytes_len <= 33554432;
            &&& request.executor_ptr == 0 ==> refusal == Some("executor ptr is null"@)
            &&& request.executor_ptr != 0 && !found ==> refusal == Some(
                "executor handle not found in registry (stale or never registered)"@,
            )
            &&& found && request.instance_ptr_ptr == 0 ==> refusal == Some(
                "instance out-param is null"@,
            )
            &&& out && request.cache_bytes_ptr == 0 ==> refusal == Some("cache bytes ptr is null"@)
            &&& cache && request.cache_bytes_len > 33554432 ==> refusal == Some(
                crate::capi_instance_cache::too_long_message(request.cache_bytes_len),
            )
            &&& fits && request.options_ptr == 0 ==> refusal == Some(
                "compilation options ptr is null"@,
            )
            &&& fits && request.options_ptr != 0 && request.options_ptr as nat % align != 0
                ==> refusal == Some("input ptr is misaligned"@)
            &&& fits && request.options_ptr != 0 && request.options_ptr as nat % align == 0
                ==> refusal is None
        }),
{
}

/// The cap on the length of a cache is 32 MiB, that is 32 times 1024 times 1024 bytes.
pub proof fn law_cap_is_32_mib()
    ensures
        MAX_CACHE_BYTES_LEN == 33554432,
{
}

/// The message that refuses a cache as too long names its length and the cap, in that order, and
/// can be told from that of any other length.
pub proof fn law_too_long_message_names_the_length(len: u32, other: u32)
    ensures
        ({
            let message = crate::capi_instance_cache::too_long_message(len);
            let start = "cache bytes length "@.len();
            let end = message.len() - " exceeds maximum 33554432"@.len();
            &&& start <= end
            &&& message.take(start as int) == "cache bytes length "@
            &&& crate::decimal::numeral_value(message.subrange(start as int, end)) == len
            &&& message.skip(end) == " exceeds maximum 33554432"@
        }),
        crate::capi_instance_cache::too_long_message(len)
            == crate::capi_instance_cache::too_long_message(other) ==> len == other,
{
    lemma_too_long_message_parts(len);
    lemma_too_long_message_parts(other);
}

proof fn lemma_too_long_message_parts(len: u32)
    ensures
        ({
            let message = crate::capi_instance_cache::too_long_message(len);
            let start = "cache bytes length "@.len();
            let end = message.len() - " exceeds maximum 33554432"@.len();
            &&& start <= end
            &&& message.take(start as int) == "cache bytes length "@
            &&& crate::decimal::numeral_value(message.subrange(start as int, end)) == len
            &&& message.skip(end) == " exceeds maximum 33554432"@
        }),
{
    let message = crate::capi_instance_cache::too_long_message(len);
    let digits = crate::decimal::decimal(len as nat);
    reveal_strlit("cache bytes length ");
    reveal_strlit(" exceeds maximum ");
    reveal_strlit(" exceeds maximum 33554432");
    reveal_with_fuel(crate::decimal::decimal, 9);
    crate::decimal::law_decimal_reads_back(len as nat);
    assert(" exceeds maximum "@ + crate::decimal::decimal(33554432)
        =~= " exceeds maximum 33554432"@);
    assert(message =~= "cache bytes length "@ + digits + " exceeds maximum 33554432"@);
    let start = "cache bytes length "@.len() as int;
    let end = message.len() - " exceeds maximum 33554432"@.len();
    assert(message.take(start) =~= "cache bytes length "@);
    assert(message.subrange(start, end) =~= digits);
    assert(message.skip(end) =~= " exceeds maximum 33554432"@);
}

/// The length that is written for a cache is its true length wherever 32 bits can hold that; a
/// longer one loses a multiple of 2 to the 32, and nothing else.
pub proof fn law_written_length_is_true_up_to_32_bits(len: nat)
    ensures
        len <= u32::MAX ==> crate::capi_instance_cache::written_len(len) == len,
        crate::capi_instance_cache::written_len(len) <= u32::MAX,
        (len - crate::capi_instance_cache::written_len(len)) % 0x1_0000_0000 == 0,
{
}

/// Releasing the null pointer releases nothing, whatever length comes with it, and so does
/// releasing a buffer of length 0. Anything else is released, with the length that it comes
/// with.
pub proof fn law_null_and_empty_buffers_are_not_released(ptr: usize, len: u32)
    ensures
        crate::capi_instance_cache::freed_len(0, len) is None,
        crate::capi_instance_cache::freed_len(ptr, 0) is None,
        crate::capi_instance_cache::freed_len(ptr, len) is Some <==> ptr != 0 && len != 0,
        crate::capi_instance_cache::freed_len(ptr, len) matches Some(n) ==> n == len,
{
}

} // verus!
