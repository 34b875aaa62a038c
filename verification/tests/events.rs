use playwright_rs::context::Viewport;
use playwright_rs::context_events::{
    classify_context_event, context_event_action, request_dispatch_plan, response_dispatch_plan,
    ContextAction, ContextEventKind, ContextEventParams, ContextPages, DispatchStep, RequestEvent,
};
use playwright_rs::error::Error;
use playwright_rs::page_state::{
    classify_page_event, expectable_event, locator_handler_uid, viewport_from_initializer,
    ExpectableEvent, PageAction, PageEventKind, PageEventParams, PageState,
    DEFAULT_NAVIGATION_TIMEOUT_MS,
};

fn fresh() -> PageState<String> {
    PageState::new(None, false, None)
}

#[test]
fn page_events_are_classified_by_method_name() {
    assert_eq!(classify_page_event("route"), PageEventKind::Route);
    assert_eq!(classify_page_event("screencastFrame"), PageEventKind::ScreencastFrame);
    assert_eq!(
        classify_page_event("locatorHandlerTriggered"),
        PageEventKind::LocatorHandlerTriggered
    );
    assert_eq!(classify_page_event("Route"), PageEventKind::Other);
    assert_eq!(classify_page_event(""), PageEventKind::Other);
}

#[test]
fn close_event_closes_the_page_and_dispatches_close() {
    let mut state = fresh();
    let action = state.on_event("close", PageEventParams::empty());
    assert!(matches!(action, PageAction::DispatchClose));
    assert!(state.is_closed());
    // No later event reopens it.
    let action = state.on_event("load", PageEventParams::empty());
    assert!(matches!(action, PageAction::DispatchLoad));
    assert!(state.is_closed());
}

#[test]
fn route_event_without_a_route_is_ignored() {
    let mut state = fresh();
    assert!(matches!(state.on_event("route", PageEventParams::empty()), PageAction::Ignore));
    let mut params = PageEventParams::empty();
    params.route_guid = Some("Route@1".to_string());
    match state.on_event("route", params) {
        PageAction::ResolveRoute(g) => assert_eq!(g, "Route@1"),
        other => panic!("unexpected action {:?}", other),
    }
    assert!(!state.is_closed());
}

#[test]
fn download_event_defaults_missing_names_to_empty() {
    let mut state = fresh();
    let mut params = PageEventParams::empty();
    params.artifact_guid = Some("Artifact@7".to_string());
    params.url = Some("https://example.com/file.zip".to_string());
    match state.on_event("download", params) {
        PageAction::ResolveDownload { artifact_guid, url, suggested_filename } => {
            assert_eq!(artifact_guid, "Artifact@7");
            assert_eq!(url, "https://example.com/file.zip");
            assert_eq!(suggested_filename, "");
        }
        other => panic!("unexpected action {:?}", other),
    }
}

#[test]
fn file_chooser_is_single_unless_the_server_says_multiple() {
    let mut state = fresh();
    let mut params = PageEventParams::empty();
    params.element_guid = Some("ElementHandle@3".to_string());
    match state.on_event("fileChooser", params.clone()) {
        PageAction::ResolveFileChooser { element_guid, is_multiple } => {
            assert_eq!(element_guid, "ElementHandle@3");
            assert!(!is_multiple);
        }
        other => panic!("unexpected action {:?}", other),
    }
    params.is_multiple = Some(true);
    match state.on_event("fileChooser", params) {
        PageAction::ResolveFileChooser { is_multiple, .. } => assert!(is_multiple),
        other => panic!("unexpected action {:?}", other),
    }
}

#[test]
fn page_error_is_logged_and_dispatched() {
    let mut state = fresh();
    let mut params = PageEventParams::empty();
    params.error_message = Some("boom".to_string());
    match state.on_event("pageError", params) {
        PageAction::DispatchPageError(m) => assert_eq!(m, "boom"),
        other => panic!("unexpected action {:?}", other),
    }
    match state.on_event("pageError", PageEventParams::empty()) {
        PageAction::DispatchPageError(m) => assert_eq!(m, ""),
        other => panic!("unexpected action {:?}", other),
    }
    assert_eq!(state.page_errors(), &vec!["boom".to_string(), String::new()]);
    state.clear_page_errors();
    assert!(state.page_errors().is_empty());
}

#[test]
fn screencast_frame_is_acked_and_decoded() {
    let mut state = fresh();
    let mut params = PageEventParams::empty();
    params.frame_id = Some(42);
    params.data = Some("aGVsbG8=".to_string());
    match state.on_event("screencastFrame", params) {
        PageAction::Screencast { ack, frame } => {
            assert_eq!(ack, Some(42));
            assert_eq!(frame, Some(b"hello".to_vec()));
        }
        other => panic!("unexpected action {:?}", other),
    }
}

#[test]
fn screencast_frame_with_bad_data_is_still_acked() {
    let mut state = fresh();
    let mut params = PageEventParams::empty();
    params.frame_id = Some(-1);
    params.data = Some("not base64!".to_string());
    match state.on_event("screencastFrame", params) {
        PageAction::Screencast { ack, frame } => {
            assert_eq!(ack, Some(-1));
            assert_eq!(frame, None);
        }
        other => panic!("unexpected action {:?}", other),
    }
    match state.on_event("screencastFrame", PageEventParams::empty()) {
        PageAction::Screencast { ack, frame } => {
            assert_eq!(ack, None);
            assert_eq!(frame, None);
        }
        other => panic!("unexpected action {:?}", other),
    }
}

#[test]
fn locator_handler_uid_keeps_the_low_bits() {
    assert_eq!(locator_handler_uid(7), 7);
    assert_eq!(locator_handler_uid((1u64 << 32) + 5), 5);
    let mut state = fresh();
    let mut params = PageEventParams::empty();
    params.uid = Some((1u64 << 32) + 9);
    match state.on_event("locatorHandlerTriggered", params) {
        PageAction::TriggerLocatorHandler(uid) => assert_eq!(uid, 9),
        other => panic!("unexpected action {:?}", other),
    }
}

#[test]
fn dialog_and_unknown_page_events_are_ignored() {
    let mut state = fresh();
    let mut params = PageEventParams::empty();
    params.route_guid = Some("Route@1".to_string());
    assert!(matches!(state.on_event("dialog", params.clone()), PageAction::Ignore));
    assert!(matches!(state.on_event("navigated", params.clone()), PageAction::Ignore));
    assert!(matches!(state.on_event("somethingNew", params), PageAction::Ignore));
    assert!(!state.is_closed());
}

#[test]
fn frame_events_resolve_the_frame() {
    let mut state = fresh();
    let mut params = PageEventParams::empty();
    params.frame_guid = Some("Frame@2".to_string());
    match state.on_event("frameDetached", params) {
        PageAction::ResolveFrameDetached(g) => assert_eq!(g, "Frame@2"),
        other => panic!("unexpected action {:?}", other),
    }
}

#[test]
fn context_events_are_classified_by_method_name() {
    assert_eq!(classify_context_event("requestFinished"), ContextEventKind::RequestFinished);
    assert_eq!(classify_context_event("page"), ContextEventKind::Page);
    assert_eq!(classify_context_event("console"), ContextEventKind::Other);
}

#[test]
fn finished_request_reads_timing_and_others_do_not() {
    let mut params = ContextEventParams::empty();
    params.request_guid = Some("Request@1".to_string());
    params.page_guid = Some("Page@1".to_string());
    params.response_guid = Some("Response@1".to_string());
    match context_event_action("requestFinished", params.clone()) {
        ContextAction::DispatchRequest {
            event,
            request_guid,
            page_guid,
            failure_text,
            timing_response_guid,
        } => {
            assert_eq!(event, RequestEvent::Finished);
            assert_eq!(request_guid, "Request@1");
            assert_eq!(page_guid, Some("Page@1".to_string()));
            assert_eq!(failure_text, None);
            assert_eq!(timing_response_guid, Some(Some("Response@1".to_string())));
        }
        other => panic!("unexpected action {:?}", other),
    }
    params.failure_text = Some("net::ERR_FAILED".to_string());
    match context_event_action("requestFailed", params) {
        ContextAction::DispatchRequest { event, failure_text, timing_response_guid, .. } => {
            assert_eq!(event, RequestEvent::Failed);
            assert_eq!(failure_text, Some("net::ERR_FAILED".to_string()));
            assert_eq!(timing_response_guid, None);
        }
        other => panic!("unexpected action {:?}", other),
    }
}

#[test]
fn request_event_without_a_request_is_ignored() {
    let mut params = ContextEventParams::empty();
    params.page_guid = Some("Page@1".to_string());
    assert!(matches!(context_event_action("request", params), ContextAction::Ignore));
}

#[test]
fn context_close_page_and_route_events() {
    assert!(matches!(
        context_event_action("close", ContextEventParams::empty()),
        ContextAction::DispatchClose
    ));
    let mut params = ContextEventParams::empty();
    params.page_guid = Some("Page@9".to_string());
    match context_event_action("page", params) {
        ContextAction::TrackPage(g) => assert_eq!(g, "Page@9"),
        other => panic!("unexpected action {:?}", other),
    }
    let mut params = ContextEventParams::empty();
    params.route_guid = Some("Route@4".to_string());
    match context_event_action("route", params.clone()) {
        ContextAction::ResolveRoute(g) => assert_eq!(g, "Route@4"),
        other => panic!("unexpected action {:?}", other),
    }
    assert!(matches!(context_event_action("console", params), ContextAction::Ignore));
}

#[test]
fn response_event_goes_to_context_then_page() {
    let mut params = ContextEventParams::empty();
    params.response_guid = Some("Response@3".to_string());
    match context_event_action("response", params) {
        ContextAction::DispatchResponse { response_guid, page_guid } => {
            assert_eq!(response_guid, "Response@3");
            assert_eq!(page_guid, None);
        }
        other => panic!("unexpected action {:?}", other),
    }
}

#[test]
fn closing_is_final() {
    let mut state = fresh();
    for m in ["load", "close", "load", "navigated", "crash", "unknown"] {
        let _ = state.on_event(m, PageEventParams::empty());
    }
    assert!(state.is_closed());
    let mut open = fresh();
    for m in ["load", "Close", "closed", "crash"] {
        let _ = open.on_event(m, PageEventParams::empty());
    }
    assert!(!open.is_closed());
}

#[test]
fn page_state_keeps_console_log_and_viewport() {
    let mut state: PageState<String> = PageState::new(Some(Viewport { width: 1280, height: 720 }), false, None);
    assert_eq!(state.viewport_size(), Some(Viewport { width: 1280, height: 720 }));
    state.set_viewport_size(Viewport { width: 800, height: 600 });
    assert_eq!(state.viewport_size(), Some(Viewport { width: 800, height: 600 }));
    state.record_console_message("first".to_string());
    state.record_console_message("second".to_string());
    assert_eq!(state.console_messages(), &vec!["first".to_string(), "second".to_string()]);
    state.clear_console_messages();
    assert!(state.console_messages().is_empty());
    assert!(!state.is_closed());
    state.mark_closed();
    assert!(state.is_closed());
    assert_eq!(state.viewport_size(), Some(Viewport { width: 800, height: 600 }));
}

#[test]
fn a_new_page_has_the_default_navigation_timeout_and_the_context_video_setting() {
    let p: PageState<String> = PageState::new(None, false, Some("Artifact@1".to_string()));
    assert_eq!(p.default_navigation_timeout_ms(), 30000);
    assert_eq!(DEFAULT_NAVIGATION_TIMEOUT_MS, 30000);
    assert!(!p.has_video());
    assert_eq!(p.video_artifact_guid(), None);
    let mut v: PageState<String> = PageState::new(None, true, Some("Artifact@1".to_string()));
    assert!(v.has_video());
    assert_eq!(v.video_artifact_guid(), Some("Artifact@1"));
    v.set_default_navigation_timeout_ms(5000);
    assert_eq!(v.default_navigation_timeout_ms(), 5000);
    let _ = v.on_event("close", PageEventParams::empty());
    assert_eq!(v.default_navigation_timeout_ms(), 5000);
    assert!(v.has_video());
}

#[test]
fn viewport_is_read_from_the_initializer() {
    assert_eq!(viewport_from_initializer(Some(800), Some(600)), Some(Viewport { width: 800, height: 600 }));
    assert_eq!(viewport_from_initializer(None, Some(600)), None);
    assert_eq!(viewport_from_initializer(Some(1 << 32), Some(600)), None);
}

#[test]
fn expect_event_names_are_checked() {
    assert_eq!(expectable_event("request").unwrap(), ExpectableEvent::Request);
    assert_eq!(expectable_event("framenavigated").unwrap(), ExpectableEvent::FrameNavigated);
    assert_eq!(expectable_event("worker").unwrap(), ExpectableEvent::Worker);
    assert_eq!(
        expectable_event("Request").unwrap_err(),
        Error::InvalidArgument(
            "Unknown event name 'Request'. Supported: request, response, popup, download, \
             console, filechooser, close, load, crash, pageerror, \
             frameattached, framedetached, framenavigated, worker"
                .to_string()
        )
    );
}

#[test]
fn request_handlers_of_the_context_run_before_the_page() {
    let plan = request_dispatch_plan(
        Some("Page@1".to_string()),
        Some("net::ERR".to_string()),
        Some(Some("Response@2".to_string())),
    );
    assert_eq!(
        plan,
        vec![
            DispatchStep::SetFailureText("net::ERR".to_string()),
            DispatchStep::ReadTiming(Some("Response@2".to_string())),
            DispatchStep::RunContextHandlers,
            DispatchStep::RunPageHandlers("Page@1".to_string()),
        ]
    );
    assert_eq!(request_dispatch_plan(None, None, None), vec![DispatchStep::RunContextHandlers]);
    assert_eq!(
        response_dispatch_plan(Some("Page@3".to_string())),
        vec![DispatchStep::RunContextHandlers, DispatchStep::RunPageHandlers("Page@3".to_string())]
    );
}

#[test]
fn a_new_page_is_tracked_and_goes_to_the_oldest_waiter() {
    let mut pages: ContextPages<u32, ()> = ContextPages::new();
    let mut first = pages.expect_page();
    let mut second = pages.expect_page();
    pages.track_page(7);
    assert!(pages.notify_page_waiter(7));
    assert_eq!(pages.pages(), &vec![7]);
    assert_eq!(first.try_recv().unwrap(), 7);
    assert!(second.try_recv().is_err());
    pages.track_page(8);
    assert!(pages.notify_page_waiter(8));
    assert_eq!(second.try_recv().unwrap(), 8);
    assert_eq!(pages.pages(), &vec![7, 8]);
}
