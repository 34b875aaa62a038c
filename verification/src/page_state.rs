//! The client-side state a page keeps between server events, and the
//! routing of server events to it.

use vstd::prelude::*;
use crate::context::Viewport;
use crate::response::{base64_decode, base64_standard_decoded};
use crate::error::Error;
use crate::text::{owned, push_str, str_eq};

verus! {

/// Events the server sends to a page.
#[derive(Debug, Clone, Copy, PartialEq, Eq)]
pub enum PageEventKind {
    Navigated,
    Route,
    Download,
    Dialog,
    WebSocket,
    WebSocketRoute,
    Worker,
    BindingCall,
    FileChooser,
    Close,
    Load,
    Crash,
    PageError,
    ScreencastFrame,
    FrameAttached,
    FrameDetached,
    FrameNavigated,
    LocatorHandlerTriggered,
    /// An event the client does not handle.
    Other,
}

/// The kind of a page event by its protocol method name.
pub open spec fn page_event_kind(method: Seq<char>) -> PageEventKind {
    if method == "navigated"@ {
        PageEventKind::Navigated
    } else if method == "route"@ {
        PageEventKind::Route
    } else if method == "download"@ {
        PageEventKind::Download
    } else if method == "dialog"@ {
        PageEventKind::Dialog
    } else if method == "webSocket"@ {
        PageEventKind::WebSocket
    } else if method == "webSocketRoute"@ {
        PageEventKind::WebSocketRoute
    } else if method == "worker"@ {
        PageEventKind::Worker
    } else if method == "bindingCall"@ {
        PageEventKind::BindingCall
    } else if method == "fileChooser"@ {
        PageEventKind::FileChooser
    } else if method == "close"@ {
        PageEventKind::Close
    } else if method == "load"@ {
        PageEventKind::Load
    } else if method == "crash"@ {
        PageEventKind::Crash
    } else if method == "pageError"@ {
        PageEventKind::PageError
    } else if method == "screencastFrame"@ {
        PageEventKind::ScreencastFrame
    } else if method == "frameAttached"@ {
        PageEventKind::FrameAttached
    } else if method == "frameDetached"@ {
        PageEventKind::FrameDetached
    } else if method == "frameNavigated"@ {
        PageEventKind::FrameNavigated
    } else if method == "locatorHandlerTriggered"@ {
        PageEventKind::LocatorHandlerTriggered
    } else {
        PageEventKind::Other
    }
}

/// Classifies a page event by its protocol method name.
pub fn classify_page_event(method: &str) -> (r: PageEventKind)
    ensures
        r == page_event_kind(method@),
{
    if str_eq(method, "navigated") {
        PageEventKind::Navigated
    } else if str_eq(method, "route") {
        PageEventKind::Route
    } else if str_eq(method, "download") {
        PageEventKind::Download
    } else if str_eq(method, "dialog") {
        PageEventKind::Dialog
    } else if str_eq(method, "webSocket") {
        PageEventKind::WebSocket
    } else if str_eq(method, "webSocketRoute") {
        PageEventKind::WebSocketRoute
    } else if str_eq(method, "worker") {
        PageEventKind::Worker
    } else if str_eq(method, "bindingCall") {
        PageEventKind::BindingCall
    } else if str_eq(method, "fileChooser") {
        PageEventKind::FileChooser
    } else if str_eq(method, "close") {
        PageEventKind::Close
    } else if str_eq(method, "load") {
        PageEventKind::Load
    } else if str_eq(method, "crash") {
        PageEventKind::Crash
    } else if str_eq(method, "pageError") {
        PageEventKind::PageError
    } else if str_eq(method, "screencastFrame") {
        PageEventKind::ScreencastFrame
    } else if str_eq(method, "frameAttached") {
        PageEventKind::FrameAttached
    } else if str_eq(method, "frameDetached") {
        PageEventKind::FrameDetached
    } else if str_eq(method, "frameNavigated") {
        PageEventKind::FrameNavigated
    } else if str_eq(method, "locatorHandlerTriggered") {
        PageEventKind::LocatorHandlerTriggered
    } else {
        PageEventKind::Other
    }
}

/// The uid of a `locatorHandlerTriggered` event: the low 32 bits of the
/// number the server sent.
pub fn locator_handler_uid(raw: u64) -> (r: u32)
    ensures
        r == raw % 0x1_0000_0000,
{
    (raw % 0x1_0000_0000) as u32
}

/// What the page reads from an event's parameters. Each field is absent
/// when the parameters lack it or hold a value of another type there; the
/// `*_guid` fields are the `guid` of the object under the named key.
#[derive(Debug, Clone)]
pub struct PageEventParams {
    /// `route.guid`
    pub route_guid: Option<String>,
    /// `url`
    pub url: Option<String>,
    /// `suggestedFilename`
    pub suggested_filename: Option<String>,
    /// `artifact.guid`
    pub artifact_guid: Option<String>,
    /// `webSocket.guid`
    pub web_socket_guid: Option<String>,
    /// `webSocketRoute.guid`
    pub web_socket_route_guid: Option<String>,
    /// `worker.guid`
    pub worker_guid: Option<String>,
    /// `binding.guid`
    pub binding_guid: Option<String>,
    /// `element.guid`
    pub element_guid: Option<String>,
    /// `isMultiple`
    pub is_multiple: Option<bool>,
    /// `error.message`
    pub error_message: Option<String>,
    /// `frameId`
    pub frame_id: Option<i64>,
    /// `data`
    pub data: Option<String>,
    /// `frame.guid`
    pub frame_guid: Option<String>,
    /// `uid`
    pub uid: Option<u64>,
}

impl PageEventParams {
    /// Parameters with nothing in them.
    pub fn empty() -> (r: PageEventParams)
        ensures
            r.route_guid is None && r.url is None && r.suggested_filename is None
                && r.artifact_guid is None && r.web_socket_guid is None
                && r.web_socket_route_guid is None && r.worker_guid is None
                && r.binding_guid is None && r.element_guid is None && r.is_multiple is None
                && r.error_message is None && r.frame_id is None && r.data is None
                && r.frame_guid is None && r.uid is None,
    {
        PageEventParams {
            route_guid: None,
            url: None,
            suggested_filename: None,
            artifact_guid: None,
            web_socket_guid: None,
            web_socket_route_guid: None,
            worker_guid: None,
            binding_guid: None,
            element_guid: None,
            is_multiple: None,
            error_message: None,
            frame_id: None,
            data: None,
            frame_guid: None,
            uid: None,
        }
    }
}

/// What is left to do for an event once the page state has taken it in:
/// the objects to look up on the connection and the handlers to run.
#[derive(Debug, Clone)]
pub enum PageAction {
    /// Nothing: the event is handled elsewhere, or lacks what it needs.
    Ignore,
    /// Look up the route and run the page's route handlers on it.
    ResolveRoute(String),
    /// Look up the artifact and hand a download built from it to the
    /// download handlers.
    ResolveDownload { artifact_guid: String, url: String, suggested_filename: String },
    /// Look up the WebSocket and run the WebSocket handlers.
    ResolveWebSocket(String),
    /// Look up the WebSocket route and run the newest matching route handler.
    ResolveWebSocketRoute(String),
    /// Look up the worker, record it and run the worker handlers.
    ResolveWorker(String),
    /// Look up the binding call and answer it with the page's callback.
    ResolveBindingCall(String),
    /// Look up the element and hand a file chooser to the handlers.
    ResolveFileChooser { element_guid: String, is_multiple: bool },
    /// Run the close handlers and wake every close waiter.
    DispatchClose,
    /// Run the load handlers and wake every load waiter.
    DispatchLoad,
    /// Run the crash handlers and wake every crash waiter.
    DispatchCrash,
    /// Run the page error handlers with the message.
    DispatchPageError(String),
    /// Acknowledge the frame (when it has an id) and run the screencast
    /// handlers on its decoded bytes (when there are any).
    Screencast { ack: Option<i64>, frame: Option<Vec<u8>> },
    /// Look up the frame and run the `frameAttached` handlers.
    ResolveFrameAttached(String),
    /// Look up the frame and run the `frameDetached` handlers.
    ResolveFrameDetached(String),
    /// Look up the frame and run the `frameNavigated` handlers.
    ResolveFrameNavigated(String),
    /// Run the locator handler with this uid.
    TriggerLocatorHandler(u32),
}

/// The characters of an optional string, empty when it is absent.
pub open spec fn or_empty(o: Option<String>) -> Seq<char> {
    match o {
        Some(s) => s@,
        None => Seq::<char>::empty(),
    }
}

/// The bytes of a screencast frame: its `data` decoded, absent when there is
/// no data or the engine rejects it.
pub open spec fn screencast_bytes(data: Option<String>) -> Option<Seq<u8>> {
    match data {
        Some(d) => base64_standard_decoded(d@),
        None => None,
    }
}

/// The action owed for an event of `kind` with parameters `p`.
pub open spec fn page_action_for(kind: PageEventKind, p: PageEventParams, r: PageAction) -> bool {
    match kind {
        PageEventKind::Route => match p.route_guid {
            Some(g) => r == PageAction::ResolveRoute(g),
            None => r == PageAction::Ignore,
        },
        PageEventKind::Download => match p.artifact_guid {
            Some(g) => r matches PageAction::ResolveDownload {
                artifact_guid,
                url,
                suggested_filename,
            } && artifact_guid == g && url@ == or_empty(p.url) && suggested_filename@ == or_empty(
                p.suggested_filename,
            ),
            None => r == PageAction::Ignore,
        },
        PageEventKind::WebSocket => match p.web_socket_guid {
            Some(g) => r == PageAction::ResolveWebSocket(g),
            None => r == PageAction::Ignore,
        },
        PageEventKind::WebSocketRoute => match p.web_socket_route_guid {
            Some(g) => r == PageAction::ResolveWebSocketRoute(g),
            None => r == PageAction::Ignore,
        },
        PageEventKind::Worker => match p.worker_guid {
            Some(g) => r == PageAction::ResolveWorker(g),
            None => r == PageAction::Ignore,
        },
        PageEventKind::BindingCall => match p.binding_guid {
            Some(g) => r == PageAction::ResolveBindingCall(g),
            None => r == PageAction::Ignore,
        },
        PageEventKind::FileChooser => match p.element_guid {
            Some(g) => r == PageAction::ResolveFileChooser {
                element_guid: g,
                is_multiple: p.is_multiple == Some(true),
            },
            None => r == PageAction::Ignore,
        },
        PageEventKind::Close => r == PageAction::DispatchClose,
        PageEventKind::Load => r == PageAction::DispatchLoad,
        PageEventKind::Crash => r == PageAction::DispatchCrash,
        PageEventKind::PageError => r matches PageAction::DispatchPageError(m) && m@ == or_empty(
            p.error_message,
        ),
        PageEventKind::ScreencastFrame => r matches PageAction::Screencast { ack, frame } && ack
            == p.frame_id && match screencast_bytes(p.data) {
            Some(b) => frame matches Some(v) && v@ == b,
            None => frame is None,
        },
        PageEventKind::FrameAttached => match p.frame_guid {
            Some(g) => r == PageAction::ResolveFrameAttached(g),
            None => r == PageAction::Ignore,
        },
        PageEventKind::FrameDetached => match p.frame_guid {
            Some(g) => r == PageAction::ResolveFrameDetached(g),
            None => r == PageAction::Ignore,
        },
        PageEventKind::FrameNavigated => match p.frame_guid {
            Some(g) => r == PageAction::ResolveFrameNavigated(g),
            None => r == PageAction::Ignore,
        },
        PageEventKind::LocatorHandlerTriggered => match p.uid {
            Some(u) => r == PageAction::TriggerLocatorHandler((u % 0x1_0000_0000) as u32),
            None => r == PageAction::Ignore,
        },
        PageEventKind::Navigated | PageEventKind::Dialog | PageEventKind::Other => r
            == PageAction::Ignore,
    }
}

/// The optional string, or an empty one.
fn unwrap_or_empty(o: Option<String>) -> (r: String)
    ensures
        r@ == or_empty(o),
{
    match o {
        Some(s) => s,
        None => String::new(),
    }
}

/// Decodes the data of a screencast frame; rejected data gives no frame.
fn screencast_frame(data: Option<String>) -> (r: Option<Vec<u8>>)
    ensures
        match screencast_bytes(data) {
            Some(b) => r matches Some(v) && v@ == b,
            None => r is None,
        },
{
    match data {
        Some(d) => match base64_decode(d.as_str()) {
            Ok(v) => Some(v),
            Err(_) => None,
        },
        None => None,
    }
}

/// Whether a page is closed after one event.
pub open spec fn closed_after(was_closed: bool, method: Seq<char>) -> bool {
    was_closed || page_event_kind(method) == PageEventKind::Close
}

/// Whether a page is closed after a series of events, in order.
pub open spec fn closed_after_all(was_closed: bool, methods: Seq<Seq<char>>) -> bool
    decreases methods.len(),
{
    if methods.len() == 0 {
        was_closed
    } else {
        closed_after(closed_after_all(was_closed, methods.drop_last()), methods.last())
    }
}

/// Only the `close` method is a close event.
proof fn lemma_close_event(method: Seq<char>)
    ensures
        (page_event_kind(method) == PageEventKind::Close) == (method == "close"@),
{
    reveal_strlit("navigated");
    reveal_strlit("route");
    reveal_strlit("download");
    reveal_strlit("dialog");
    reveal_strlit("webSocket");
    reveal_strlit("webSocketRoute");
    reveal_strlit("worker");
    reveal_strlit("bindingCall");
    reveal_strlit("fileChooser");
    reveal_strlit("close");
    let c = "close"@;
    assert(c.len() != "navigated"@.len());
    assert(c[0] != "route"@[0]);
    assert(c.len() != "download"@.len());
    assert(c.len() != "dialog"@.len());
    assert(c.len() != "webSocket"@.len());
    assert(c.len() != "webSocketRoute"@.len());
    assert(c.len() != "worker"@.len());
    assert(c.len() != "bindingCall"@.len());
    assert(c.len() != "fileChooser"@.len());
}

/// Over any series of events, a page is closed exactly when it was closed
/// before or one of the events was `close`; no event reopens a closed page.
pub proof fn lemma_closing_is_final(was_closed: bool, methods: Seq<Seq<char>>)
    ensures
        closed_after_all(was_closed, methods) == (was_closed || methods.contains("close"@)),
        was_closed ==> closed_after_all(was_closed, methods),
    decreases methods.len(),
{
    if methods.len() > 0 {
        let init = methods.drop_last();
        lemma_closing_is_final(was_closed, init);
        lemma_close_event(methods.last());
        if methods.contains("close"@) {
            let k = choose|k: int| 0 <= k < methods.len() && methods[k] == "close"@;
            if k < methods.len() - 1 {
                assert(init[k] == methods[k]);
            }
        }
        if init.contains("close"@) {
            let k = choose|k: int| 0 <= k < init.len() && init[k] == "close"@;
            assert(methods[k] == init[k]);
        }
        if methods.last() == "close"@ {
            assert(methods[methods.len() - 1] == methods.last());
        }
    }
}

/// The events a caller can wait for with `expect_event`.
#[derive(Debug, Clone, Copy, PartialEq, Eq)]
pub enum ExpectableEvent {
    Request,
    Response,
    Popup,
    Download,
    Console,
    FileChooser,
    Close,
    Load,
    Crash,
    PageError,
    FrameAttached,
    FrameDetached,
    FrameNavigated,
    Worker,
}

/// The event a name stands for in `expect_event`, if it is one.
pub open spec fn expectable_event_spec(name: Seq<char>) -> Option<ExpectableEvent> {
    if name == "request"@ {
        Some(ExpectableEvent::Request)
    } else if name == "response"@ {
        Some(ExpectableEvent::Response)
    } else if name == "popup"@ {
        Some(ExpectableEvent::Popup)
    } else if name == "download"@ {
        Some(ExpectableEvent::Download)
    } else if name == "console"@ {
        Some(ExpectableEvent::Console)
    } else if name == "filechooser"@ {
        Some(ExpectableEvent::FileChooser)
    } else if name == "close"@ {
        Some(ExpectableEvent::Close)
    } else if name == "load"@ {
        Some(ExpectableEvent::Load)
    } else if name == "crash"@ {
        Some(ExpectableEvent::Crash)
    } else if name == "pageerror"@ {
        Some(ExpectableEvent::PageError)
    } else if name == "frameattached"@ {
        Some(ExpectableEvent::FrameAttached)
    } else if name == "framedetached"@ {
        Some(ExpectableEvent::FrameDetached)
    } else if name == "framenavigated"@ {
        Some(ExpectableEvent::FrameNavigated)
    } else if name == "worker"@ {
        Some(ExpectableEvent::Worker)
    } else {
        None
    }
}

/// The message for an event name `expect_event` does not know.
pub open spec fn unknown_event_message(name: Seq<char>) -> Seq<char> {
    "Unknown event name '"@ + name + "'. Supported: request, response, popup, download, console, filechooser, close, load, crash, pageerror, frameattached, framedetached, framenavigated, worker"@
}

/// Checks the event name given to `expect_event` (case-sensitive); an
/// unknown name is an `InvalidArgument` error that lists the known ones.
pub fn expectable_event(name: &str) -> (r: Result<ExpectableEvent, Error>)
    ensures
        match expectable_event_spec(name@) {
            Some(e) => r == Ok::<ExpectableEvent, Error>(e),
            None => r matches Err(Error::InvalidArgument(m)) && m@ == unknown_event_message(name@),
        },
{
    if str_eq(name, "request") {
        Ok(ExpectableEvent::Request)
    } else if str_eq(name, "response") {
        Ok(ExpectableEvent::Response)
    } else if str_eq(name, "popup") {
        Ok(ExpectableEvent::Popup)
    } else if str_eq(name, "download") {
        Ok(ExpectableEvent::Download)
    } else if str_eq(name, "console") {
        Ok(ExpectableEvent::Console)
    } else if str_eq(name, "filechooser") {
        Ok(ExpectableEvent::FileChooser)
    } else if str_eq(name, "close") {
        Ok(ExpectableEvent::Close)
    } else if str_eq(name, "load") {
        Ok(ExpectableEvent::Load)
    } else if str_eq(name, "crash") {
        Ok(ExpectableEvent::Crash)
    } else if str_eq(name, "pageerror") {
        Ok(ExpectableEvent::PageError)
    } else if str_eq(name, "frameattached") {
        Ok(ExpectableEvent::FrameAttached)
    } else if str_eq(name, "framedetached") {
        Ok(ExpectableEvent::FrameDetached)
    } else if str_eq(name, "framenavigated") {
        Ok(ExpectableEvent::FrameNavigated)
    } else if str_eq(name, "worker") {
        Ok(ExpectableEvent::Worker)
    } else {
        let mut m = owned("Unknown event name '");
        push_str(&mut m, name);
        push_str(&mut m, "'. Supported: request, response, popup, download, console, filechooser, close, load, crash, pageerror, frameattached, framedetached, framenavigated, worker");
        Err(Error::InvalidArgument(m))
    }
}

/// The default timeout of navigations, in milliseconds.
pub const DEFAULT_NAVIGATION_TIMEOUT_MS: u64 = 30000;

/// The viewport read from a page initializer's `viewportSize`: the numbers
/// under its `width` and `height` (absent when missing, `null`, or not a
/// non-negative integer). It is a viewport only when both are present and
/// fit in 32 bits; anything else means no viewport.
pub fn viewport_from_initializer(width: Option<u64>, height: Option<u64>) -> (r: Option<Viewport>)
    ensures
        match (width, height) {
            (Some(w), Some(h)) => if w < 0x1_0000_0000 && h < 0x1_0000_0000 {
                r == Some(Viewport { width: w as u32, height: h as u32 })
            } else {
                r is None
            },
            _ => r is None,
        },
{
    match (width, height) {
        (Some(w), Some(h)) => {
            if w < 0x1_0000_0000 && h < 0x1_0000_0000 {
                Some(Viewport { width: w as u32, height: h as u32 })
            } else {
                None
            }
        },
        _ => None,
    }
}

/// What a page remembers between events; `C` is the console message type.
pub struct PageState<C> {
    closed: bool,
    viewport: Option<Viewport>,
    console_log: Vec<C>,
    page_errors: Vec<String>,
    navigation_timeout_ms: u64,
    has_video: bool,
    video_artifact_guid: Option<String>,
}

impl<C> PageState<C> {
    pub closed spec fn closed_spec(&self) -> bool {
        self.closed
    }

    pub closed spec fn viewport_spec(&self) -> Option<Viewport> {
        self.viewport
    }

    pub closed spec fn console_seq(&self) -> Seq<C> {
        self.console_log@
    }

    pub closed spec fn error_seq(&self) -> Seq<Seq<char>> {
        self.page_errors@.map_values(|s: String| s@)
    }

    /// The page's navigation timeout in milliseconds, whether it records
    /// video, and the guid of the video artifact still to be resolved.
    pub closed spec fn settings_spec(&self) -> (u64, bool, Option<Seq<char>>) {
        (self.navigation_timeout_ms, self.has_video, match self.video_artifact_guid {
            Some(g) => Some(g@),
            None => None,
        })
    }

    /// A fresh, open page: the viewport from its initializer (`None` for a
    /// context without viewport emulation), empty logs, the default
    /// navigation timeout, and video recording exactly when the context
    /// records video, with the artifact guid from the page's initializer
    /// kept to be resolved (and dropped when the context records none).
    pub fn new(
        initial_viewport: Option<Viewport>,
        context_records_video: bool,
        video_artifact_guid: Option<String>,
    ) -> (r: Self)
        ensures
            !r.closed_spec(),
            r.viewport_spec() == initial_viewport,
            r.console_seq().len() == 0,
            r.error_seq().len() == 0,
            r.settings_spec() == (
                DEFAULT_NAVIGATION_TIMEOUT_MS,
                context_records_video,
                if context_records_video {
                    match video_artifact_guid {
                        Some(g) => Some(g@),
                        None => None::<Seq<char>>,
                    }
                } else {
                    None
                },
            ),
    {
        let artifact = if context_records_video {
            video_artifact_guid
        } else {
            None
        };
        let r = PageState {
            closed: false,
            viewport: initial_viewport,
            console_log: Vec::new(),
            page_errors: Vec::new(),
            navigation_timeout_ms: DEFAULT_NAVIGATION_TIMEOUT_MS,
            has_video: context_records_video,
            video_artifact_guid: artifact,
        };
        assert(r.error_seq() =~= Seq::<Seq<char>>::empty());
        r
    }

    /// The navigation timeout in milliseconds.
    pub fn default_navigation_timeout_ms(&self) -> (r: u64)
        ensures
            r == self.settings_spec().0,
    {
        self.navigation_timeout_ms
    }

    /// Sets the navigation timeout, in whole milliseconds.
    pub fn set_default_navigation_timeout_ms(&mut self, ms: u64)
        ensures
            final(self).settings_spec() == (ms, old(self).settings_spec().1, old(self).settings_spec().2),
            final(self).closed_spec() == old(self).closed_spec(),
            final(self).viewport_spec() == old(self).viewport_spec(),
            final(self).console_seq() == old(self).console_seq(),
            final(self).error_seq() == old(self).error_seq(),
    {
        self.navigation_timeout_ms = ms;
    }

    /// Whether the page records video.
    pub fn has_video(&self) -> (r: bool)
        ensures
            r == self.settings_spec().1,
    {
        self.has_video
    }

    /// The video artifact still to be resolved, if any.
    pub fn video_artifact_guid(&self) -> (r: Option<&str>)
        ensures
            match r {
                Some(g) => self.settings_spec().2 == Some(g@),
                None => self.settings_spec().2 is None,
            },
    {
        match &self.video_artifact_guid {
            Some(g) => Some(g.as_str()),
            None => None,
        }
    }

    /// Whether the page has been closed (by `close()` or a `close` event).
    pub fn is_closed(&self) -> (r: bool)
        ensures
            r == self.closed_spec(),
    {
        self.closed
    }

    /// Takes in a server event and says what is left to do for it. A
    /// `close` event marks the page closed and a `pageError` event logs its
    /// message (empty when absent); no event reopens the page or touches the
    /// rest of the state.
    pub fn on_event(&mut self, method: &str, params: PageEventParams) -> (r: PageAction)
        ensures
            final(self).settings_spec() == old(self).settings_spec(),
            page_action_for(page_event_kind(method@), params, r),
            final(self).closed_spec() == closed_after(old(self).closed_spec(), method@),
            final(self).error_seq() == (if page_event_kind(method@) == PageEventKind::PageError {
                old(self).error_seq().push(or_empty(params.error_message))
            } else {
                old(self).error_seq()
            }),
            final(self).viewport_spec() == old(self).viewport_spec(),
            final(self).console_seq() == old(self).console_seq(),
    {
        let kind = classify_page_event(method);
        match kind {
            PageEventKind::Route => match params.route_guid {
                Some(g) => PageAction::ResolveRoute(g),
                None => PageAction::Ignore,
            },
            PageEventKind::Download => match params.artifact_guid {
                Some(g) => PageAction::ResolveDownload {
                    artifact_guid: g,
                    url: unwrap_or_empty(params.url),
                    suggested_filename: unwrap_or_empty(params.suggested_filename),
                },
                None => PageAction::Ignore,
            },
            PageEventKind::WebSocket => match params.web_socket_guid {
                Some(g) => PageAction::ResolveWebSocket(g),
                None => PageAction::Ignore,
            },
            PageEventKind::WebSocketRoute => match params.web_socket_route_guid {
                Some(g) => PageAction::ResolveWebSocketRoute(g),
                None => PageAction::Ignore,
            },
            PageEventKind::Worker => match params.worker_guid {
                Some(g) => PageAction::ResolveWorker(g),
                None => PageAction::Ignore,
            },
            PageEventKind::BindingCall => match params.binding_guid {
                Some(g) => PageAction::ResolveBindingCall(g),
                None => PageAction::Ignore,
            },
            PageEventKind::FileChooser => match params.element_guid {
                Some(g) => {
                    let is_multiple = match params.is_multiple {
                        Some(b) => b,
                        None => false,
                    };
                    PageAction::ResolveFileChooser { element_guid: g, is_multiple }
                },
                None => PageAction::Ignore,
            },
            PageEventKind::Close => {
                self.closed = true;
                PageAction::DispatchClose
            },
            PageEventKind::Load => PageAction::DispatchLoad,
            PageEventKind::Crash => PageAction::DispatchCrash,
            PageEventKind::PageError => {
                let message = unwrap_or_empty(params.error_message);
                self.record_page_error(message.clone());
                PageAction::DispatchPageError(message)
            },
            PageEventKind::ScreencastFrame => PageAction::Screencast {
                ack: params.frame_id,
                frame: screencast_frame(params.data),
            },
            PageEventKind::FrameAttached => match params.frame_guid {
                Some(g) => PageAction::ResolveFrameAttached(g),
                None => PageAction::Ignore,
            },
            PageEventKind::FrameDetached => match params.frame_guid {
                Some(g) => PageAction::ResolveFrameDetached(g),
                None => PageAction::Ignore,
            },
            PageEventKind::FrameNavigated => match params.frame_guid {
                Some(g) => PageAction::ResolveFrameNavigated(g),
                None => PageAction::Ignore,
            },
            PageEventKind::LocatorHandlerTriggered => match params.uid {
                Some(u) => PageAction::TriggerLocatorHandler(locator_handler_uid(u)),
                None => PageAction::Ignore,
            },
            _ => PageAction::Ignore,
        }
    }

    /// `close()` was called: the page is closed whatever the server answered.
    pub fn mark_closed(&mut self)
        ensures
            final(self).settings_spec() == old(self).settings_spec(),
            final(self).closed_spec(),
            final(self).viewport_spec() == old(self).viewport_spec(),
            final(self).console_seq() == old(self).console_seq(),
            final(self).error_seq() == old(self).error_seq(),
    {
        self.closed = true;
    }

    /// The current viewport size.
    pub fn viewport_size(&self) -> (r: Option<Viewport>)
        ensures
            r == self.viewport_spec(),
    {
        self.viewport
    }

    /// Records the viewport set by `set_viewport_size`.
    pub fn set_viewport_size(&mut self, viewport: Viewport)
        ensures
            final(self).settings_spec() == old(self).settings_spec(),
            final(self).viewport_spec() == Some(viewport),
            final(self).closed_spec() == old(self).closed_spec(),
            final(self).console_seq() == old(self).console_seq(),
            final(self).error_seq() == old(self).error_seq(),
    {
        self.viewport = Some(viewport);
    }

    /// Appends a console message to the log.
    pub fn record_console_message(&mut self, message: C)
        ensures
            final(self).settings_spec() == old(self).settings_spec(),
            final(self).console_seq() == old(self).console_seq().push(message),
            final(self).error_seq() == old(self).error_seq(),
            final(self).closed_spec() == old(self).closed_spec(),
            final(self).viewport_spec() == old(self).viewport_spec(),
    {
        self.console_log.push(message);
    }

    /// The console messages received so far, oldest first.
    pub fn console_messages(&self) -> (r: &Vec<C>)
        ensures
            r@ == self.console_seq(),
    {
        &self.console_log
    }

    /// Forgets the console messages received so far.
    pub fn clear_console_messages(&mut self)
        ensures
            final(self).settings_spec() == old(self).settings_spec(),
            final(self).console_seq().len() == 0,
            final(self).error_seq() == old(self).error_seq(),
            final(self).closed_spec() == old(self).closed_spec(),
            final(self).viewport_spec() == old(self).viewport_spec(),
    {
        self.console_log = Vec::new();
    }

    /// Appends an uncaught page error's message to the log.
    pub fn record_page_error(&mut self, message: String)
        ensures
            final(self).settings_spec() == old(self).settings_spec(),
            final(self).error_seq() == old(self).error_seq().push(message@),
            final(self).console_seq() == old(self).console_seq(),
            final(self).closed_spec() == old(self).closed_spec(),
            final(self).viewport_spec() == old(self).viewport_spec(),
    {
        let ghost m = message@;
        self.page_errors.push(message);
        assert(self.error_seq() =~= old(self).error_seq().push(m));
    }

    /// The page error messages received so far, oldest first.
    pub fn page_errors(&self) -> (r: &Vec<String>)
        ensures
            r@.map_values(|s: String| s@) == self.error_seq(),
    {
        &self.page_errors
    }

    /// Forgets the page errors received so far.
    pub fn clear_page_errors(&mut self)
        ensures
            final(self).settings_spec() == old(self).settings_spec(),
            final(self).error_seq().len() == 0,
            final(self).console_seq() == old(self).console_seq(),
            final(self).closed_spec() == old(self).closed_spec(),
            final(self).viewport_spec() == old(self).viewport_spec(),
    {
        self.page_errors = Vec::new();
    }
}

/// The web workers a page has announced (`worker` events), oldest first;
/// `W` is the worker handle.
pub struct PageWorkers<W> {
    workers: Vec<W>,
}

impl<W> PageWorkers<W> {
    /// The workers, oldest first.
    pub closed spec fn worker_seq(&self) -> Seq<W> {
        self.workers@
    }

    /// No workers.
    pub fn new() -> (r: Self)
        ensures
            r.worker_seq().len() == 0,
    {
        PageWorkers { workers: Vec::new() }
    }

    /// Records a worker the page created, after the ones already known.
    pub fn record(&mut self, worker: W)
        ensures
            final(self).worker_seq() == old(self).worker_seq().push(worker),
    {
        self.workers.push(worker);
    }

    /// The workers, oldest first.
    pub fn workers(&self) -> (r: &Vec<W>)
        ensures
            r@ == self.worker_seq(),
    {
        &self.workers
    }
}

/// Each handled page event method is sent to the kind of the same name, and
/// only that method is (so no two methods share a kind); every other method
/// is `Other`.
pub proof fn lemma_page_event_names(method: Seq<char>)
    ensures
        (page_event_kind(method) == PageEventKind::Navigated) == (method == "navigated"@),
        (page_event_kind(method) == PageEventKind::Route) == (method == "route"@),
        (page_event_kind(method) == PageEventKind::Download) == (method == "download"@),
        (page_event_kind(method) == PageEventKind::Dialog) == (method == "dialog"@),
        (page_event_kind(method) == PageEventKind::WebSocket) == (method == "webSocket"@),
        (page_event_kind(method) == PageEventKind::WebSocketRoute) == (method == "webSocketRoute"@),
        (page_event_kind(method) == PageEventKind::Worker) == (method == "worker"@),
        (page_event_kind(method) == PageEventKind::BindingCall) == (method == "bindingCall"@),
        (page_event_kind(method) == PageEventKind::FileChooser) == (method == "fileChooser"@),
        (page_event_kind(method) == PageEventKind::Close) == (method == "close"@),
        (page_event_kind(method) == PageEventKind::Load) == (method == "load"@),
        (page_event_kind(method) == PageEventKind::Crash) == (method == "crash"@),
        (page_event_kind(method) == PageEventKind::PageError) == (method == "pageError"@),
        (page_event_kind(method) == PageEventKind::ScreencastFrame) == (method == "screencastFrame"@),
        (page_event_kind(method) == PageEventKind::FrameAttached) == (method == "frameAttached"@),
        (page_event_kind(method) == PageEventKind::FrameDetached) == (method == "frameDetached"@),
        (page_event_kind(method) == PageEventKind::FrameNavigated) == (method == "frameNavigated"@),
        (page_event_kind(method) == PageEventKind::LocatorHandlerTriggered) == (method == "locatorHandlerTriggered"@),
        (page_event_kind(method) == PageEventKind::Other) == (method != "navigated"@ && method != "route"@ && method != "download"@ && method != "dialog"@ && method != "webSocket"@ && method != "webSocketRoute"@ && method != "worker"@ && method != "bindingCall"@ && method != "fileChooser"@ && method != "close"@ && method != "load"@ && method != "crash"@ && method != "pageError"@ && method != "screencastFrame"@ && method != "frameAttached"@ && method != "frameDetached"@ && method != "frameNavigated"@ && method != "locatorHandlerTriggered"@),
{
    reveal_strlit("navigated");
    reveal_strlit("route");
    reveal_strlit("download");
    reveal_strlit("dialog");
    reveal_strlit("webSocket");
    reveal_strlit("webSocketRoute");
    reveal_strlit("worker");
    reveal_strlit("bindingCall");
    reveal_strlit("fileChooser");
    reveal_strlit("close");
    reveal_strlit("load");
    reveal_strlit("crash");
    reveal_strlit("pageError");
    reveal_strlit("screencastFrame");
    reveal_strlit("frameAttached");
    reveal_strlit("frameDetached");
    reveal_strlit("frameNavigated");
    reveal_strlit("locatorHandlerTriggered");
    assert("navigated"@.len() != "route"@.len());
    assert("navigated"@.len() != "download"@.len());
    assert("navigated"@.len() != "dialog"@.len());
    assert("navigated"@[0] != "webSocket"@[0]);
    assert("navigated"@.len() != "webSocketRoute"@.len());
    assert("navigated"@.len() != "worker"@.len());
    assert("navigated"@.len() != "bindingCall"@.len());
    assert("navigated"@.len() != "fileChooser"@.len());
    assert("navigated"@.len() != "close"@.len());
    assert("navigated"@.len() != "load"@.len());
    assert("navigated"@.len() != "crash"@.len());
    assert("navigated"@[0] != "pageError"@[0]);
    assert("navigated"@.len() != "screencastFrame"@.len());
    assert("navigated"@.len() != "frameAttached"@.len());
    assert("navigated"@.len() != "frameDetached"@.len());
    assert("navigated"@.len() != "frameNavigated"@.len());
    assert("navigated"@.len() != "locatorHandlerTriggered"@.len());
    assert("route"@.len() != "download"@.len());
    assert("route"@.len() != "dialog"@.len());
    assert("route"@.len() != "webSocket"@.len());
    assert("route"@.len() != "webSocketRoute"@.len());
    assert("route"@.len() != "worker"@.len());
    assert("route"@.len() != "bindingCall"@.len());
    assert("route"@.len() != "fileChooser"@.len());
    assert("route"@[0] != "close"@[0]);
    assert("route"@.len() != "load"@.len());
    assert("route"@[0] != "crash"@[0]);
    assert("route"@.len() != "pageError"@.len());
    assert("route"@.len() != "screencastFrame"@.len());
    assert("route"@.len() != "frameAttached"@.len());
    assert("route"@.len() != "frameDetached"@.len());
    assert("route"@.len() != "frameNavigated"@.len());
    assert("route"@.len() != "locatorHandlerTriggered"@.len());
    assert("download"@.len() != "dialog"@.len());
    assert("download"@.len() != "webSocket"@.len());
    assert("download"@.len() != "webSocketRoute"@.len());
    assert("download"@.len() != "worker"@.len());
    assert("download"@.len() != "bindingCall"@.len());
    assert("download"@.len() != "fileChooser"@.len());
    assert("download"@.len() != "close"@.len());
    assert("download"@.len() != "load"@.len());
    assert("download"@.len() != "crash"@.len());
    assert("download"@.len() != "pageError"@.len());
    assert("download"@.len() != "screencastFrame"@.len());
    assert("download"@.len() != "frameAttached"@.len());
    assert("download"@.len() != "frameDetached"@.len());
    assert("download"@.len() != "frameNavigated"@.len());
    assert("download"@.len() != "locatorHandlerTriggered"@.len());
    assert("dialog"@.len() != "webSocket"@.len());
    assert("dialog"@.len() != "webSocketRoute"@.len());
    assert("dialog"@[0] != "worker"@[0]);
    assert("dialog"@.len() != "bindingCall"@.len());
    assert("dialog"@.len() != "fileChooser"@.len());
    assert("dialog"@.len() != "close"@.len());
    assert("dialog"@.len() != "load"@.len());
    assert("dialog"@.len() != "crash"@.len());
    assert("dialog"@.len() != "pageError"@.len());
    assert("dialog"@.len() != "screencastFrame"@.len());
    assert("dialog"@.len() != "frameAttached"@.len());
    assert("dialog"@.len() != "frameDetached"@.len());
    assert("dialog"@.len() != "frameNavigated"@.len());
    assert("dialog"@.len() != "locatorHandlerTriggered"@.len());
    assert("webSocket"@.len() != "webSocketRoute"@.len());
    assert("webSocket"@.len() != "worker"@.len());
    assert("webSocket"@.len() != "bindingCall"@.len());
    assert("webSocket"@.len() != "fileChooser"@.len());
    assert("webSocket"@.len() != "close"@.len());
    assert("webSocket"@.len() != "load"@.len());
    assert("webSocket"@.len() != "crash"@.len());
    assert("webSocket"@[0] != "pageError"@[0]);
    assert("webSocket"@.len() != "screencastFrame"@.len());
    assert("webSocket"@.len() != "frameAttached"@.len());
    assert("webSocket"@.len() != "frameDetached"@.len());
    assert("webSocket"@.len() != "frameNavigated"@.len());
    assert("webSocket"@.len() != "locatorHandlerTriggered"@.len());
    assert("webSocketRoute"@.len() != "worker"@.len());
    assert("webSocketRoute"@.len() != "bindingCall"@.len());
    assert("webSocketRoute"@.len() != "fileChooser"@.len());
    assert("webSocketRoute"@.len() != "close"@.len());
    assert("webSocketRoute"@.len() != "load"@.len());
    assert("webSocketRoute"@.len() != "crash"@.len());
    assert("webSocketRoute"@.len() != "pageError"@.len());
    assert("webSocketRoute"@.len() != "screencastFrame"@.len());
    assert("webSocketRoute"@.len() != "frameAttached"@.len());
    assert("webSocketRoute"@.len() != "frameDetached"@.len());
    assert("webSocketRoute"@[0] != "frameNavigated"@[0]);
    assert("webSocketRoute"@.len() != "locatorHandlerTriggered"@.len());
    assert("worker"@.len() != "bindingCall"@.len());
    assert("worker"@.len() != "fileChooser"@.len());
    assert("worker"@.len() != "close"@.len());
    assert("worker"@.len() != "load"@.len());
    assert("worker"@.len() != "crash"@.len());
    assert("worker"@.len() != "pageError"@.len());
    assert("worker"@.len() != "screencastFrame"@.len());
    assert("worker"@.len() != "frameAttached"@.len());
    assert("worker"@.len() != "frameDetached"@.len());
    assert("worker"@.len() != "frameNavigated"@.len());
    assert("worker"@.len() != "locatorHandlerTriggered"@.len());
    assert("bindingCall"@[0] != "fileChooser"@[0]);
    assert("bindingCall"@.len() != "close"@.len());
    assert("bindingCall"@.len() != "load"@.len());
    assert("bindingCall"@.len() != "crash"@.len());
    assert("bindingCall"@.len() != "pageError"@.len());
    assert("bindingCall"@.len() != "screencastFrame"@.len());
    assert("bindingCall"@.len() != "frameAttached"@.len());
    assert("bindingCall"@.len() != "frameDetached"@.len());
    assert("bindingCall"@.len() != "frameNavigated"@.len());
    assert("bindingCall"@.len() != "locatorHandlerTriggered"@.len());
    assert("fileChooser"@.len() != "close"@.len());
    assert("fileChooser"@.len() != "load"@.len());
    assert("fileChooser"@.len() != "crash"@.len());
    assert("fileChooser"@.len() != "pageError"@.len());
    assert("fileChooser"@.len() != "screencastFrame"@.len());
    assert("fileChooser"@.len() != "frameAttached"@.len());
    assert("fileChooser"@.len() != "frameDetached"@.len());
    assert("fileChooser"@.len() != "frameNavigated"@.len());
    assert("fileChooser"@.len() != "locatorHandlerTriggered"@.len());
    assert("close"@.len() != "load"@.len());
    assert("close"@[1] != "crash"@[1]);
    assert("close"@.len() != "pageError"@.len());
    assert("close"@.len() != "screencastFrame"@.len());
    assert("close"@.len() != "frameAttached"@.len());
    assert("close"@.len() != "frameDetached"@.len());
    assert("close"@.len() != "frameNavigated"@.len());
    assert("close"@.len() != "locatorHandlerTriggered"@.len());
    assert("load"@.len() != "crash"@.len());
    assert("load"@.len() != "pageError"@.len());
    assert("load"@.len() != "screencastFrame"@.len());
    assert("load"@.len() != "frameAttached"@.len());
    assert("load"@.len() != "frameDetached"@.len());
    assert("load"@.len() != "frameNavigated"@.len());
    assert("load"@.len() != "locatorHandlerTriggered"@.len());
    assert("crash"@.len() != "pageError"@.len());
    assert("crash"@.len() != "screencastFrame"@.len());
    assert("crash"@.len() != "frameAttached"@.len());
    assert("crash"@.len() != "frameDetached"@.len());
    assert("crash"@.len() != "frameNavigated"@.len());
    assert("crash"@.len() != "locatorHandlerTriggered"@.len());
    assert("pageError"@.len() != "screencastFrame"@.len());
    assert("pageError"@.len() != "frameAttached"@.len());
    assert("pageError"@.len() != "frameDetached"@.len());
    assert("pageError"@.len() != "frameNavigated"@.len());
    assert("pageError"@.len() != "locatorHandlerTriggered"@.len());
    assert("screencastFrame"@.len() != "frameAttached"@.len());
    assert("screencastFrame"@.len() != "frameDetached"@.len());
    assert("screencastFrame"@.len() != "frameNavigated"@.len());
    assert("screencastFrame"@.len() != "locatorHandlerTriggered"@.len());
    assert("frameAttached"@[5] != "frameDetached"@[5]);
    assert("frameAttached"@.len() != "frameNavigated"@.len());
    assert("frameAttached"@.len() != "locatorHandlerTriggered"@.len());
    assert("frameDetached"@.len() != "frameNavigated"@.len());
    assert("frameDetached"@.len() != "locatorHandlerTriggered"@.len());
    assert("frameNavigated"@.len() != "locatorHandlerTriggered"@.len());
}

/// `expect_event` waits for the event of the very name it is given: each
/// supported name gives its own event and no other name gives it; every
/// other name is unknown.
pub proof fn lemma_expectable_event_names(name: Seq<char>)
    ensures
        (expectable_event_spec(name) == Some(ExpectableEvent::Request)) == (name == "request"@),
        (expectable_event_spec(name) == Some(ExpectableEvent::Response)) == (name == "response"@),
        (expectable_event_spec(name) == Some(ExpectableEvent::Popup)) == (name == "popup"@),
        (expectable_event_spec(name) == Some(ExpectableEvent::Download)) == (name == "download"@),
        (expectable_event_spec(name) == Some(ExpectableEvent::Console)) == (name == "console"@),
        (expectable_event_spec(name) == Some(ExpectableEvent::FileChooser)) == (name == "filechooser"@),
        (expectable_event_spec(name) == Some(ExpectableEvent::Close)) == (name == "close"@),
        (expectable_event_spec(name) == Some(ExpectableEvent::Load)) == (name == "load"@),
        (expectable_event_spec(name) == Some(ExpectableEvent::Crash)) == (name == "crash"@),
        (expectable_event_spec(name) == Some(ExpectableEvent::PageError)) == (name == "pageerror"@),
        (expectable_event_spec(name) == Some(ExpectableEvent::FrameAttached)) == (name == "frameattached"@),
        (expectable_event_spec(name) == Some(ExpectableEvent::FrameDetached)) == (name == "framedetached"@),
        (expectable_event_spec(name) == Some(ExpectableEvent::FrameNavigated)) == (name == "framenavigated"@),
        (expectable_event_spec(name) == Some(ExpectableEvent::Worker)) == (name == "worker"@),
        (expectable_event_spec(name) is None) == (name != "request"@ && name != "response"@ && name != "popup"@ && name != "download"@ && name != "console"@ && name != "filechooser"@ && name != "close"@ && name != "load"@ && name != "crash"@ && name != "pageerror"@ && name != "frameattached"@ && name != "framedetached"@ && name != "framenavigated"@ && name != "worker"@),
{
    reveal_strlit("request");
    reveal_strlit("response");
    reveal_strlit("popup");
    reveal_strlit("download");
    reveal_strlit("console");
    reveal_strlit("filechooser");
    reveal_strlit("close");
    reveal_strlit("load");
    reveal_strlit("crash");
    reveal_strlit("pageerror");
    reveal_strlit("frameattached");
    reveal_strlit("framedetached");
    reveal_strlit("framenavigated");
    reveal_strlit("worker");
    assert("request"@.len() != "response"@.len());
    assert("request"@.len() != "popup"@.len());
    assert("request"@.len() != "download"@.len());
    assert("request"@[0] != "console"@[0]);
    assert("request"@.len() != "filechooser"@.len());
    assert("request"@.len() != "close"@.len());
    assert("request"@.len() != "load"@.len());
    assert("request"@.len() != "crash"@.len());
    assert("request"@.len() != "pageerror"@.len());
    assert("request"@.len() != "frameattached"@.len());
    assert("request"@.len() != "framedetached"@.len());
    assert("request"@.len() != "framenavigated"@.len());
    assert("request"@.len() != "worker"@.len());
    assert("response"@.len() != "popup"@.len());
    assert("response"@[0] != "download"@[0]);
    assert("response"@.len() != "console"@.len());
    assert("response"@.len() != "filechooser"@.len());
    assert("response"@.len() != "close"@.len());
    assert("response"@.len() != "load"@.len());
    assert("response"@.len() != "crash"@.len());
    assert("response"@.len() != "pageerror"@.len());
    assert("response"@.len() != "frameattached"@.len());
    assert("response"@.len() != "framedetached"@.len());
    assert("response"@.len() != "framenavigated"@.len());
    assert("response"@.len() != "worker"@.len());
    assert("popup"@.len() != "download"@.len());
    assert("popup"@.len() != "console"@.len());
    assert("popup"@.len() != "filechooser"@.len());
    assert("popup"@[0] != "close"@[0]);
    assert("popup"@.len() != "load"@.len());
    assert("popup"@[0] != "crash"@[0]);
    assert("popup"@.len() != "pageerror"@.len());
    assert("popup"@.len() != "frameattached"@.len());
    assert("popup"@.len() != "framedetached"@.len());
    assert("popup"@.len() != "framenavigated"@.len());
    assert("popup"@.len() != "worker"@.len());
    assert("download"@.len() != "console"@.len());
    assert("download"@.len() != "filechooser"@.len());
    assert("download"@.len() != "close"@.len());
    assert("download"@.len() != "load"@.len());
    assert("download"@.len() != "crash"@.len());
    assert("download"@.len() != "pageerror"@.len());
    assert("download"@.len() != "frameattached"@.len());
    assert("download"@.len() != "framedetached"@.len());
    assert("download"@.len() != "framenavigated"@.len());
    assert("download"@.len() != "worker"@.len());
    assert("console"@.len() != "filechooser"@.len());
    assert("console"@.len() != "close"@.len());
    assert("console"@.len() != "load"@.len());
    assert("console"@.len() != "crash"@.len());
    assert("console"@.len() != "pageerror"@.len());
    assert("console"@.len() != "frameattached"@.len());
    assert("console"@.len() != "framedetached"@.len());
    assert("console"@.len() != "framenavigated"@.len());
    assert("console"@.len() != "worker"@.len());
    assert("filechooser"@.len() != "close"@.len());
    assert("filechooser"@.len() != "load"@.len());
    assert("filechooser"@.len() != "crash"@.len());
    assert("filechooser"@.len() != "pageerror"@.len());
    assert("filechooser"@.len() != "frameattached"@.len());
    assert("filechooser"@.len() != "framedetached"@.len());
    assert("filechooser"@.len() != "framenavigated"@.len());
    assert("filechooser"@.len() != "worker"@.len());
    assert("close"@.len() != "load"@.len());
    assert("close"@[1] != "crash"@[1]);
    assert("close"@.len() != "pageerror"@.len());
    assert("close"@.len() != "frameattached"@.len());
    assert("close"@.len() != "framedetached"@.len());
    assert("close"@.len() != "framenavigated"@.len());
    assert("close"@.len() != "worker"@.len());
    assert("load"@.len() != "crash"@.len());
    assert("load"@.len() != "pageerror"@.len());
    assert("load"@.len() != "frameattached"@.len());
    assert("load"@.len() != "framedetached"@.len());
    assert("load"@.len() != "framenavigated"@.len());
    assert("load"@.len() != "worker"@.len());
    assert("crash"@.len() != "pageerror"@.len());
    assert("crash"@.len() != "frameattached"@.len());
    assert("crash"@.len() != "framedetached"@.len());
    assert("crash"@.len() != "framenavigated"@.len());
    assert("crash"@.len() != "worker"@.len());
    assert("pageerror"@.len() != "frameattached"@.len());
    assert("pageerror"@.len() != "framedetached"@.len());
    assert("pageerror"@.len() != "framenavigated"@.len());
    assert("pageerror"@.len() != "worker"@.len());
    assert("frameattached"@[5] != "framedetached"@[5]);
    assert("frameattached"@.len() != "framenavigated"@.len());
    assert("frameattached"@.len() != "worker"@.len());
    assert("framedetached"@.len() != "framenavigated"@.len());
    assert("framedetached"@.len() != "worker"@.len());
    assert("framenavigated"@.len() != "worker"@.len());
}

/// A `frameNavigated` event naming a frame runs the frame-navigated
/// handlers on that frame, never the frame-attached or -detached ones.
pub proof fn lemma_frame_navigated_is_resolved(params: PageEventParams, g: String, r: PageAction)
    requires
        params.frame_guid == Some(g),
        page_action_for(page_event_kind("frameNavigated"@), params, r),
    ensures
        r == PageAction::ResolveFrameNavigated(g),
{
    lemma_page_event_names("frameNavigated"@);
}

} // verus!
