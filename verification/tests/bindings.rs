use playwright_rs::bindings::{missing_binding, BindingCallbacks};
use playwright_rs::page_state::PageWorkers;

#[test]
fn registering_a_name_again_replaces_its_callback() {
    let mut b: BindingCallbacks<u32> = BindingCallbacks::new();
    assert_eq!(b.get("add"), None);
    b.register("add", 1);
    b.register("mul", 2);
    b.register("add", 3);
    assert_eq!(b.get("add"), Some(&3));
    assert_eq!(b.get("mul"), Some(&2));
    assert_eq!(b.get("sub"), None);
}

#[test]
fn unknown_binding_is_rejected_by_name() {
    assert_eq!(missing_binding("compute"), "No Rust handler for binding 'compute'");
}

#[test]
fn workers_are_kept_in_order() {
    let mut w: PageWorkers<&str> = PageWorkers::new();
    w.record("Worker@1");
    w.record("Worker@2");
    assert_eq!(w.workers(), &vec!["Worker@1", "Worker@2"]);
}
