use playwright_rs::locator_handler::{Invocation, LocatorHandlerEntry, LocatorHandlers};

fn entry(times: Option<u32>) -> LocatorHandlerEntry {
    LocatorHandlerEntry::new(1, "#x", times)
}

#[test]
fn unlimited_handler_runs_every_time_and_is_never_removed() {
    let mut e = entry(None);
    for _ in 0..3 {
        assert_eq!(
            e.take_invocation(),
            Invocation {
                run: true,
                remove: false
            }
        );
    }
    assert_eq!(e.times_remaining, None);
}

#[test]
fn counted_handler_runs_exactly_times_and_is_removed_on_the_last() {
    let mut e = entry(Some(2));
    assert_eq!(
        e.take_invocation(),
        Invocation {
            run: true,
            remove: false
        }
    );
    assert_eq!(e.times_remaining, Some(1));
    assert_eq!(
        e.take_invocation(),
        Invocation {
            run: true,
            remove: true
        }
    );
}

#[test]
fn zero_times_never_runs_and_is_removed_without_underflow() {
    let mut e = entry(Some(0));
    assert_eq!(
        e.take_invocation(),
        Invocation {
            run: false,
            remove: true
        }
    );
    assert_eq!(e.times_remaining, Some(0));
}

#[test]
fn registry_triggers_by_uid_and_forgets_removed_handlers() {
    let mut handlers = LocatorHandlers::new();
    handlers.register(7, "#dialog", Some(1));
    handlers.register(9, "#banner", None);
    assert_eq!(handlers.len(), 2);

    let (selector, inv) = handlers.trigger(7).unwrap();
    assert_eq!(selector, "#dialog");
    assert_eq!(inv, Invocation { run: true, remove: true });
    handlers.remove(7);
    assert_eq!(handlers.len(), 1);
    assert!(handlers.trigger(7).is_none());

    let (selector, inv) = handlers.trigger(9).unwrap();
    assert_eq!(selector, "#banner");
    assert_eq!(inv, Invocation { run: true, remove: false });
}

#[test]
fn unknown_selector_is_a_protocol_error() {
    let mut handlers = LocatorHandlers::new();
    handlers.register(3, "#a", None);
    handlers.register(4, "#a", None);
    assert_eq!(handlers.uid_for_selector("#a").unwrap(), 3);
    match handlers.uid_for_selector("#b") {
        Err(playwright_rs::error::Error::ProtocolError(m)) => {
            assert_eq!(m, "No locator handler registered for selector '#b'")
        }
        other => panic!("unexpected {:?}", other),
    }
}
