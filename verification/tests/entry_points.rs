use vmexeccapi::capi_executor::{
    vm_exec_executor_destroy, vm_exec_executor_set_vm_hooks_ptr_reply,
    vm_exec_executor_set_vm_hooks_ptr_target, vm_exec_new_executor_hooks,
    vm_exec_new_executor_inner_hooks, vm_exec_new_executor_reply, CapiExecutor,
};
use vmexeccapi::capi_instance::CapiInstance;
use vmexeccapi::capi_instance_cache::{
    vm_exec_cache_free_len, vm_exec_instance_cache_reply, vm_exec_instance_cache_target,
    vm_exec_instance_from_cache_reply, vm_exec_instance_from_cache_target, FromCacheRequest,
    MAX_CACHE_BYTES_LEN,
};
use vmexeccapi::handle_registry::{
    destroy_instance, lookup_executor, lookup_instance, register_executor, register_instance,
    HandleRegistry,
};
use vmexeccapi::pointers::{
    cast_capi_executor_ptr, cast_capi_instance_ptr, check_input_const_ptr, check_not_null,
};
use vmexeccapi::reply::{vm_exec_result_t, Reply};

type Registry = HandleRegistry<&'static str, u32>;

fn assert_fails<T>(reply: Reply<T>, message: &str) {
    assert_eq!(reply.result, vm_exec_result_t::VM_EXEC_ERROR);
    assert_eq!(reply.last_error.as_deref(), Some(message));
    assert!(reply.written.is_none());
}

fn assert_refused<R, T>(outcome: Result<R, Reply<T>>, message: &str) {
    match outcome {
        Ok(_) => panic!("not refused"),
        Err(reply) => assert_fails(reply, message),
    }
}

fn request() -> FromCacheRequest {
    FromCacheRequest {
        executor_ptr: 1,
        instance_ptr_ptr: 0x1000,
        cache_bytes_ptr: 0x2001,
        cache_bytes_len: 100,
        options_ptr: 0x3000,
    }
}

fn with_executor() -> Registry {
    let mut r: Registry = HandleRegistry::new();
    register_executor(&mut r, CapiExecutor { content: 7 });
    r
}

#[test]
fn null_check_refuses_only_null() {
    assert_eq!(check_not_null(0, "gone"), Err("gone".to_string()));
    assert_eq!(check_not_null(1, "gone"), Ok(()));
    assert_eq!(check_not_null(usize::MAX, "gone"), Ok(()));
}

#[test]
fn const_ptr_check_wants_alignment() {
    assert_eq!(check_input_const_ptr::<u64>(0, "gone"), Err("gone".to_string()));
    let misaligned = Err("input ptr is misaligned".to_string());
    let align = std::mem::align_of::<u64>();
    assert_eq!(check_input_const_ptr::<u64>(align + 1, "gone"), misaligned);
    assert_eq!(check_input_const_ptr::<u64>(3 * align, "gone"), Ok(()));
    assert_eq!(check_input_const_ptr::<u8>(3, "gone"), Ok(()));
}

#[test]
fn handle_casts_name_what_is_wrong() {
    let mut r = with_executor();
    assert_eq!(
        cast_capi_instance_ptr(&r, 0).err().as_deref(),
        Some("instance ptr is null")
    );
    assert_eq!(
        cast_capi_executor_ptr(&r, 0).err().as_deref(),
        Some("executor ptr is null")
    );
    // 1 is the handle of an executor, and of no instance.
    assert_eq!(
        cast_capi_instance_ptr(&r, 1).err().as_deref(),
        Some("instance handle not found in registry (stale or never registered)")
    );
    assert_eq!(
        cast_capi_executor_ptr(&r, 2).err().as_deref(),
        Some("executor handle not found in registry (stale or never registered)")
    );
    assert_eq!(cast_capi_executor_ptr(&r, 1).unwrap().content, 7);
    let id = register_instance(&mut r, CapiInstance::new("a"));
    assert_eq!(cast_capi_instance_ptr(&r, id).unwrap().content, "a");
    destroy_instance(&mut r, id);
    assert_eq!(
        cast_capi_instance_ptr(&r, id).err().as_deref(),
        Some("instance handle not found in registry (stale or never registered)")
    );
}

#[test]
fn new_executor_wants_hooks() {
    assert_refused(vm_exec_new_executor_hooks(0), "VM hooks ptr is null");
    assert!(vm_exec_new_executor_hooks(16).is_ok());
    assert_refused(vm_exec_new_executor_inner_hooks(0), "VM hooks inner ptr is null");
    assert!(vm_exec_new_executor_inner_hooks(16).is_ok());
}

#[test]
fn new_executor_is_registered() {
    let mut r: Registry = HandleRegistry::new();
    let reply = vm_exec_new_executor_reply(&mut r, Ok(11));
    assert_eq!(reply.result, vm_exec_result_t::VM_EXEC_OK);
    assert!(reply.last_error.is_none());
    assert_eq!(reply.written, Some(1));
    assert_eq!(lookup_executor(&r, 1).unwrap().content, 11);
    let call = vm_exec_executor_set_vm_hooks_ptr_target(&r, 1, 0x40).ok().unwrap();
    assert_eq!(call.executor.content, 11);
}

#[test]
fn failed_new_executor_registers_nothing() {
    let mut r: Registry = HandleRegistry::new();
    assert_fails(vm_exec_new_executor_reply(&mut r, Err("no engine".to_string())), "no engine");
    assert_eq!(r.next_executor_id(), 1);
    assert!(lookup_executor(&r, 1).is_none());
}

#[test]
fn set_vm_hooks_resolves_its_executor() {
    let r = with_executor();
    for vm_hooks_ptr in [0, 0x40, usize::MAX] {
        let call = vm_exec_executor_set_vm_hooks_ptr_target(&r, 1, vm_hooks_ptr).ok().unwrap();
        assert_eq!(call.executor.content, 7);
        assert_eq!(call.vm_hooks_ptr, vm_hooks_ptr);
    }
    assert_refused(
        vm_exec_executor_set_vm_hooks_ptr_target(&r, 0, 0x40),
        "executor ptr is null",
    );
    assert_refused(
        vm_exec_executor_set_vm_hooks_ptr_target(&r, 9, 0x40),
        "executor handle not found in registry (stale or never registered)",
    );
}

#[test]
fn set_vm_hooks_passes_the_answer_on() {
    let reply = vm_exec_executor_set_vm_hooks_ptr_reply(Ok(()));
    assert_eq!(reply.result, vm_exec_result_t::VM_EXEC_OK);
    assert!(reply.last_error.is_none());
    assert_fails(vm_exec_executor_set_vm_hooks_ptr_reply(Err("bad".to_string())), "bad");
}

#[test]
fn panic_answers_with_a_bare_error() {
    let reply: Reply<u64> = Reply::after_unwind(None);
    assert_eq!(reply.result, vm_exec_result_t::VM_EXEC_ERROR);
    assert!(reply.last_error.is_none());
    assert!(reply.written.is_none());
    let reply = Reply::after_unwind(Some(Reply::ok(5u64)));
    assert_eq!(reply.result, vm_exec_result_t::VM_EXEC_OK);
    assert_eq!(reply.written, Some(5));
}

#[test]
fn executor_destroy_ignores_what_it_does_not_know() {
    let mut r = with_executor();
    vm_exec_executor_destroy(&mut r, 0);
    vm_exec_executor_destroy(&mut r, 2);
    assert!(lookup_executor(&r, 1).is_some());
    vm_exec_executor_destroy(&mut r, 1);
    assert!(lookup_executor(&r, 1).is_none());
    vm_exec_executor_destroy(&mut r, 1);
    assert_eq!(r.next_executor_id(), 2);
}

#[test]
fn instance_cache_checks_in_order() {
    let mut r: Registry = HandleRegistry::new();
    assert_refused(vm_exec_instance_cache_target(&r, 0, 0, 0), "instance ptr is null");
    assert_refused(
        vm_exec_instance_cache_target(&r, 1, 0, 0),
        "instance handle not found in registry (stale or never registered)",
    );
    let id = register_instance(&mut r, CapiInstance::new("a"));
    assert_refused(
        vm_exec_instance_cache_target(&r, id, 0, 0),
        "cache_bytes_ptr out-param is null",
    );
    assert_refused(
        vm_exec_instance_cache_target(&r, id, 8, 0),
        "cache_bytes_len out-param is null",
    );
    assert_eq!(vm_exec_instance_cache_target(&r, id, 8, 8).unwrap().content, "a");
}

#[test]
fn instance_cache_hands_the_bytes_over() {
    let reply = vm_exec_instance_cache_reply(Ok(vec![1, 2, 3]));
    assert_eq!(reply.result, vm_exec_result_t::VM_EXEC_OK);
    let written = reply.written.unwrap();
    assert_eq!(written.bytes.to_vec(), vec![1, 2, 3]);
    assert_eq!(written.len, 3);
    assert!(reply.last_error.is_none());
    assert_fails(vm_exec_instance_cache_reply(Err("no cache".to_string())), "no cache");
}

#[test]
fn instance_cache_hands_over_no_spare_capacity() {
    let mut bytes: Vec<u8> = Vec::with_capacity(1000);
    bytes.extend_from_slice(&[4, 5, 6]);
    assert!(bytes.capacity() >= 1000);
    let written = vm_exec_instance_cache_reply(Ok(bytes)).written.unwrap();
    assert_eq!(written.len, 3);
    assert_eq!(written.bytes.len(), 3);
    let bytes = written.bytes.into_vec();
    assert_eq!(bytes, vec![4, 5, 6]);
    assert_eq!(bytes.capacity(), 3);
}

#[test]
fn cache_that_was_handed_out_is_taken_back() {
    let r = with_executor();
    let cache: Vec<u8> = (0..200).collect();
    let written = vm_exec_instance_cache_reply(Ok(cache.clone())).written.unwrap();
    let back = FromCacheRequest {
        cache_bytes_ptr: written.bytes.as_ptr() as usize,
        cache_bytes_len: written.len,
        ..request()
    };
    let call =
        vm_exec_instance_from_cache_target::<&'static str, u32, u64>(&r, back).ok().unwrap();
    assert_eq!(call.cache_bytes_ptr, written.bytes.as_ptr() as usize);
    assert_eq!(call.cache_bytes_len, 200);
    assert_eq!(written.bytes.to_vec(), cache);
}

#[test]
fn cache_free_releases_what_was_handed_out() {
    let written = vm_exec_instance_cache_reply(Ok(vec![0; 1000])).written.unwrap();
    assert_eq!(vm_exec_cache_free_len(0x10, written.len), Some(1000));
    let written = vm_exec_instance_cache_reply(Ok(Vec::new())).written.unwrap();
    assert_eq!(vm_exec_cache_free_len(0x10, written.len), None);
    assert_eq!(vm_exec_cache_free_len(0, 1000), None);
    assert_eq!(vm_exec_cache_free_len(0x10, u32::MAX), Some(4294967295));
}

#[test]
fn from_cache_checks_in_order() {
    let mut r = with_executor();
    let nothing = FromCacheRequest {
        executor_ptr: 0,
        instance_ptr_ptr: 0,
        cache_bytes_ptr: 0,
        cache_bytes_len: u32::MAX,
        options_ptr: 0,
    };
    let check = |r: &Registry, request: FromCacheRequest| {
        vm_exec_instance_from_cache_target::<&'static str, u32, u64>(r, request)
    };
    assert_refused(check(&r, nothing), "executor ptr is null");
    let stale = FromCacheRequest { executor_ptr: 5, ..nothing };
    assert_refused(
        check(&r, stale),
        "executor handle not found in registry (stale or never registered)",
    );
    let no_out = FromCacheRequest { executor_ptr: 1, ..nothing };
    assert_refused(check(&r, no_out), "instance out-param is null");
    let no_bytes = FromCacheRequest { instance_ptr_ptr: 8, ..no_out };
    assert_refused(check(&r, no_bytes), "cache bytes ptr is null");
    let too_long = FromCacheRequest { cache_bytes_ptr: 8, ..no_bytes };
    assert_refused(
        check(&r, too_long),
        "cache bytes length 4294967295 exceeds maximum 33554432",
    );
    let no_options = FromCacheRequest { cache_bytes_len: 0, ..too_long };
    assert_refused(check(&r, no_options), "compilation options ptr is null");
    let misaligned = FromCacheRequest { options_ptr: 0x3001, ..no_options };
    assert_refused(check(&r, misaligned), "input ptr is misaligned");

    let call = check(&r, request()).ok().unwrap();
    assert_eq!(call.executor.content, 7);
    assert_eq!(call.cache_bytes_ptr, 0x2001);
    assert_eq!(call.cache_bytes_len, 100);
    assert_eq!(call.options_ptr, 0x3000);

    vm_exec_executor_destroy(&mut r, 1);
    assert_refused(
        check(&r, request()),
        "executor handle not found in registry (stale or never registered)",
    );
}

#[test]
fn from_cache_limits_the_length() {
    let r = with_executor();
    assert_eq!(MAX_CACHE_BYTES_LEN, 33554432);
    let longest = FromCacheRequest { cache_bytes_len: MAX_CACHE_BYTES_LEN, ..request() };
    assert!(vm_exec_instance_from_cache_target::<&'static str, u32, u64>(&r, longest).is_ok());
    let longer = FromCacheRequest { cache_bytes_len: MAX_CACHE_BYTES_LEN + 1, ..request() };
    assert_refused(
        vm_exec_instance_from_cache_target::<&'static str, u32, u64>(&r, longer),
        "cache bytes length 33554433 exceeds maximum 33554432",
    );
    let round = FromCacheRequest { cache_bytes_len: 4000000000, ..request() };
    assert_refused(
        vm_exec_instance_from_cache_target::<&'static str, u32, u64>(&r, round),
        "cache bytes length 4000000000 exceeds maximum 33554432",
    );
}

#[test]
fn instance_from_cache_is_registered() {
    let mut r = with_executor();
    let reply = vm_exec_instance_from_cache_reply(&mut r, Ok("from cache"));
    assert_eq!(reply.result, vm_exec_result_t::VM_EXEC_OK);
    assert!(reply.last_error.is_none());
    assert_eq!(reply.written, Some(1));
    assert_eq!(lookup_instance(&r, 1).unwrap().content, "from cache");
}

#[test]
fn failed_instance_from_cache_registers_nothing() {
    let mut r = with_executor();
    let reply = vm_exec_instance_from_cache_reply(&mut r, Err("corrupt".to_string()));
    assert_fails(reply, "corrupt");
    assert_eq!(r.next_instance_id(), 1);
    assert!(lookup_instance(&r, 1).is_none());
}
