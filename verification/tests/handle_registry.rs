use std::sync::{Arc, Weak};
use vmexeccapi::capi_executor::CapiExecutor;
use vmexeccapi::capi_instance::CapiInstance;
use vmexeccapi::handle_registry::{
    destroy_executor, destroy_instance, lookup_executor, lookup_instance, register_executor,
    register_instance, HandleRegistry,
};

fn registry() -> HandleRegistry<&'static str, u32> {
    HandleRegistry::new()
}

#[test]
fn instance_and_executor_id_spaces_are_independent() {
    // Issuing an instance ID must not advance the executor counter.
    let mut r = registry();
    let inst_before = r.next_instance_id();
    let exec_before = r.next_executor_id();

    register_instance(&mut r, CapiInstance::new("instance"));

    let inst_after = r.next_instance_id();
    let exec_after = r.next_executor_id();
    assert_eq!(inst_after, inst_before + 1);
    assert_eq!(exec_after, exec_before);
}

#[test]
fn lookup_zero_returns_none_for_both_kinds() {
    let r = registry();
    assert!(lookup_instance(&r, 0).is_none());
    assert!(lookup_executor(&r, 0).is_none());
}

#[test]
fn destroy_zero_returns_false_for_both_kinds() {
    let mut r = registry();
    assert!(!destroy_instance(&mut r, 0));
    assert!(!destroy_executor(&mut r, 0));
}

#[test]
fn destroy_unknown_id_returns_false() {
    let mut r = registry();
    assert!(!destroy_instance(&mut r, u64::MAX));
    assert!(!destroy_executor(&mut r, u64::MAX));
}

#[test]
fn zero_stays_reserved_after_registrations() {
    let mut r = registry();
    register_instance(&mut r, CapiInstance::new("a"));
    register_executor(&mut r, CapiExecutor { content: 1 });
    assert!(lookup_instance(&r, 0).is_none());
    assert!(lookup_executor(&r, 0).is_none());
    assert!(!destroy_instance(&mut r, 0));
    assert!(!destroy_executor(&mut r, 0));
    assert!(lookup_instance(&r, 1).is_some());
    assert!(lookup_executor(&r, 1).is_some());
}

#[test]
fn counters_start_at_one() {
    let mut r = registry();
    assert_eq!(r.next_instance_id(), 1);
    assert_eq!(r.next_executor_id(), 1);
    assert_eq!(register_instance(&mut r, CapiInstance::new("a")), 1);
    assert_eq!(register_instance(&mut r, CapiInstance::new("b")), 2);
    assert_eq!(register_executor(&mut r, CapiExecutor { content: 5 }), 1);
}

#[test]
fn lookup_gives_back_what_was_registered() {
    let mut r = registry();
    let a = register_instance(&mut r, CapiInstance::new("a"));
    let b = register_instance(&mut r, CapiInstance::new("b"));
    let x = register_executor(&mut r, CapiExecutor { content: 17 });
    assert_eq!(lookup_instance(&r, a).unwrap().content, "a");
    assert_eq!(lookup_instance(&r, b).unwrap().content, "b");
    assert_eq!(lookup_executor(&r, x).unwrap().content, 17);
    assert!(lookup_instance(&r, 3).is_none());
    assert!(lookup_executor(&r, 2).is_none());
}

#[test]
fn ids_are_not_reused_after_destroy() {
    let mut r = registry();
    let first = register_instance(&mut r, CapiInstance::new("a"));
    assert!(destroy_instance(&mut r, first));
    let second = register_instance(&mut r, CapiInstance::new("b"));
    assert!(second > first);
    assert!(lookup_instance(&r, first).is_none());
    assert_eq!(lookup_instance(&r, second).unwrap().content, "b");

    let first = register_executor(&mut r, CapiExecutor { content: 1 });
    assert!(destroy_executor(&mut r, first));
    let second = register_executor(&mut r, CapiExecutor { content: 2 });
    assert!(second > first);
    assert!(lookup_executor(&r, first).is_none());
}

#[test]
fn second_destroy_returns_false() {
    let mut r = registry();
    let a = register_instance(&mut r, CapiInstance::new("a"));
    let b = register_instance(&mut r, CapiInstance::new("b"));
    assert!(destroy_instance(&mut r, a));
    assert!(!destroy_instance(&mut r, a));
    assert_eq!(lookup_instance(&r, b).unwrap().content, "b");
    let x = register_executor(&mut r, CapiExecutor { content: 1 });
    assert!(destroy_executor(&mut r, x));
    assert!(!destroy_executor(&mut r, x));
}

#[test]
fn repeated_destroy_is_one_destroy() {
    let mut r = registry();
    let x = register_executor(&mut r, CapiExecutor { content: 1 });
    let y = register_executor(&mut r, CapiExecutor { content: 2 });
    assert!(destroy_executor(&mut r, x));
    for _ in 0..5 {
        assert!(!destroy_executor(&mut r, x));
        assert!(lookup_executor(&r, x).is_none());
        assert_eq!(lookup_executor(&r, y).unwrap().content, 2);
        assert_eq!(r.next_executor_id(), 3);
    }
}

#[test]
fn late_destroy_changes_nothing() {
    let mut r = registry();
    let x = register_executor(&mut r, CapiExecutor { content: 1 });
    assert!(destroy_executor(&mut r, x));
    let y = register_executor(&mut r, CapiExecutor { content: 2 });
    let a = register_instance(&mut r, CapiInstance::new("a"));
    assert!(!destroy_executor(&mut r, x));
    assert_eq!(lookup_executor(&r, y).unwrap().content, 2);
    assert_eq!(lookup_instance(&r, a).unwrap().content, "a");
    assert_eq!(r.next_executor_id(), 3);
}

#[test]
fn counters_count_registrations() {
    let mut r = registry();
    for n in 0..5 {
        let a = register_instance(&mut r, CapiInstance::new("a"));
        if n % 2 == 0 {
            assert!(destroy_instance(&mut r, a));
        }
        assert!(!destroy_executor(&mut r, a));
    }
    assert_eq!(r.next_instance_id(), 6);
    assert_eq!(r.next_executor_id(), 1);
    let x = register_executor(&mut r, CapiExecutor { content: 1 });
    assert!(destroy_executor(&mut r, x));
    assert_eq!(r.next_instance_id(), 6);
    assert_eq!(r.next_executor_id(), 2);
}

#[test]
fn lookups_share_one_object() {
    let mut r = registry();
    let a = register_instance(&mut r, CapiInstance::new("a"));
    let x = register_executor(&mut r, CapiExecutor { content: 1 });
    let first = lookup_instance(&r, a).unwrap();
    let second = lookup_instance(&r, a).unwrap();
    assert!(Arc::ptr_eq(&first, &second));
    let first = lookup_executor(&r, x).unwrap();
    let second = lookup_executor(&r, x).unwrap();
    assert!(Arc::ptr_eq(&first, &second));
    assert_eq!(r.next_instance_id(), 2);
    assert_eq!(r.next_executor_id(), 2);
}

#[test]
fn handle_resolves_until_it_is_destroyed() {
    let mut r = registry();
    let a = register_instance(&mut r, CapiInstance::new("a"));
    for _ in 0..10 {
        let other = register_instance(&mut r, CapiInstance::new("other"));
        assert!(destroy_instance(&mut r, other));
        assert_eq!(lookup_instance(&r, a).unwrap().content, "a");
    }
    assert!(destroy_instance(&mut r, a));
    assert!(lookup_instance(&r, a).is_none());
    assert_eq!(r.next_instance_id(), 12);
}

#[test]
fn destroying_one_kind_leaves_the_other() {
    let mut r = registry();
    let a = register_instance(&mut r, CapiInstance::new("a"));
    let x = register_executor(&mut r, CapiExecutor { content: 3 });
    assert_eq!(a, x);
    assert!(destroy_instance(&mut r, a));
    assert_eq!(lookup_executor(&r, x).unwrap().content, 3);
}

#[test]
fn instance_id_without_an_executor_resolves_to_no_executor() {
    let mut r = registry();
    let a = register_instance(&mut r, CapiInstance::new("a"));
    assert!(lookup_executor(&r, a).is_none());
    assert!(!destroy_executor(&mut r, a));
    assert_eq!(lookup_instance(&r, a).unwrap().content, "a");
}

#[test]
fn object_outlives_its_handle_while_in_use() {
    let mut r: HandleRegistry<Arc<u8>, u32> = HandleRegistry::new();
    let token = Arc::new(42u8);
    let weak: Weak<u8> = Arc::downgrade(&token);
    let id = register_instance(&mut r, CapiInstance::new(token));
    let in_flight = lookup_instance(&r, id).unwrap();
    assert!(destroy_instance(&mut r, id));
    assert!(lookup_instance(&r, id).is_none());
    assert_eq!(*in_flight.content, 42);
    assert!(weak.upgrade().is_some());
    drop(in_flight);
    assert!(weak.upgrade().is_none());
}

#[test]
fn destroy_releases_an_object_that_is_not_in_use() {
    let mut r: HandleRegistry<u8, Arc<u8>> = HandleRegistry::new();
    let token = Arc::new(1u8);
    let weak: Weak<u8> = Arc::downgrade(&token);
    let id = register_executor(&mut r, CapiExecutor { content: token });
    assert!(weak.upgrade().is_some());
    assert!(destroy_executor(&mut r, id));
    assert!(weak.upgrade().is_none());
}
