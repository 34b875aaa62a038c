use playwright_rs::event_registry::{DeliveryStep, EventRegistry};

#[test]
fn the_name_survives_construction() {
    assert_eq!(EventRegistry::<u32, ()>::new("console").name(), "console");
}

#[test]
fn idle_until_someone_registers() {
    let mut reg = EventRegistry::<u32, ()>::new("test");
    assert!(reg.is_idle());
    let _rx = reg.wait();
    assert!(!reg.is_idle(), "a waiter alone must still drive subscription");

    let mut reg2 = EventRegistry::<u32, ()>::new("test");
    reg2.add_handler(());
    assert!(!reg2.is_idle());
}

#[test]
fn waiters_are_served_oldest_first() {
    let mut reg = EventRegistry::<u32, ()>::new("test");
    let mut first = reg.wait();
    let mut second = reg.wait();
    assert!(reg.notify_one_waiter(10));
    assert!(reg.notify_one_waiter(20));
    assert_eq!(first.try_recv().unwrap(), 10, "the earliest waiter gets the earliest event");
    assert_eq!(second.try_recv().unwrap(), 20);
}

#[test]
fn a_waiter_is_one_shot() {
    let mut reg = EventRegistry::<u32, ()>::new("test");
    let mut rx = reg.wait();
    assert!(reg.notify_one_waiter(1));
    assert_eq!(rx.try_recv().unwrap(), 1);
    assert_eq!(reg.waiter_count(), 0);
    // Nothing left to notify, and notifying again must not panic.
    assert!(!reg.notify_one_waiter(2));
}

#[test]
fn every_waiter_sees_a_one_time_transition() {
    let mut reg = EventRegistry::<(), ()>::new("close");
    let mut a = reg.wait();
    let abandoned = reg.wait();
    let mut b = reg.wait();
    drop(abandoned);
    assert_eq!(reg.notify_all_waiters(()), 2);
    assert_eq!(reg.waiter_count(), 0);
    assert!(a.try_recv().is_ok());
    assert!(b.try_recv().is_ok());
}

#[test]
fn an_abandoned_waiter_does_not_swallow_the_event() {
    let mut reg = EventRegistry::<u32, ()>::new("test");
    let abandoned = reg.wait();
    let mut live = reg.wait();
    drop(abandoned);
    assert!(reg.notify_one_waiter(42));
    assert_eq!(live.try_recv().unwrap(), 42);
}

#[test]
fn handlers_are_retained_across_events() {
    let mut reg = EventRegistry::<u32, &'static str>::new("test");
    reg.add_handler("a");
    reg.add_handler("b");
    reg.notify_one_waiter(1);
    reg.notify_one_waiter(2);
    assert_eq!(reg.handler_count(), 2);
    assert_eq!(reg.handlers().clone(), vec!["a", "b"]);
    assert!(reg.is_idle() == false);
}

#[test]
fn dispatch_with_no_listeners_is_a_no_op() {
    let mut reg = EventRegistry::<u32, ()>::new("test");
    assert!(!reg.notify_one_waiter(1));
    assert!(reg.is_idle());
}

#[test]
fn every_handler_runs_in_order_before_the_waiter() {
    let mut reg = EventRegistry::<u32, &'static str>::new("test");
    assert_eq!(reg.delivery_plan(), vec![DeliveryStep::NotifyOldestWaiter]);
    reg.add_handler("a");
    reg.add_handler("b");
    assert_eq!(
        reg.delivery_plan(),
        vec![DeliveryStep::RunHandler(0), DeliveryStep::RunHandler(1), DeliveryStep::NotifyOldestWaiter]
    );
}
