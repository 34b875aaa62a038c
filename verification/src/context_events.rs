//! The routing of the server's browser-context events: which handlers an
//! event goes to and which objects must be looked up for it.

use vstd::prelude::*;
use crate::event_registry::{one_waiter_notified, EventRegistry};
use crate::text::str_eq;
use tokio::sync::oneshot::Receiver;

verus! {

/// Events the server sends to a browser context.
#[derive(Debug, Clone, Copy, PartialEq, Eq)]
pub enum ContextEventKind {
    Request,
    RequestFailed,
    RequestFinished,
    Response,
    Close,
    Page,
    Dialog,
    BindingCall,
    Route,
    /// An event the client does not handle.
    Other,
}

/// The kind of a context event by its protocol method name.
pub open spec fn context_event_kind(method: Seq<char>) -> ContextEventKind {
    if method == "request"@ {
        ContextEventKind::Request
    } else if method == "requestFailed"@ {
        ContextEventKind::RequestFailed
    } else if method == "requestFinished"@ {
        ContextEventKind::RequestFinished
    } else if method == "response"@ {
        ContextEventKind::Response
    } else if method == "close"@ {
        ContextEventKind::Close
    } else if method == "page"@ {
        ContextEventKind::Page
    } else if method == "dialog"@ {
        ContextEventKind::Dialog
    } else if method == "bindingCall"@ {
        ContextEventKind::BindingCall
    } else if method == "route"@ {
        ContextEventKind::Route
    } else {
        ContextEventKind::Other
    }
}

/// Classifies a context event by its protocol method name.
pub fn classify_context_event(method: &str) -> (r: ContextEventKind)
    ensures
        r == context_event_kind(method@),
{
    if str_eq(method, "request") {
        ContextEventKind::Request
    } else if str_eq(method, "requestFailed") {
        ContextEventKind::RequestFailed
    } else if str_eq(method, "requestFinished") {
        ContextEventKind::RequestFinished
    } else if str_eq(method, "response") {
        ContextEventKind::Response
    } else if str_eq(method, "close") {
        ContextEventKind::Close
    } else if str_eq(method, "page") {
        ContextEventKind::Page
    } else if str_eq(method, "dialog") {
        ContextEventKind::Dialog
    } else if str_eq(method, "bindingCall") {
        ContextEventKind::BindingCall
    } else if str_eq(method, "route") {
        ContextEventKind::Route
    } else {
        ContextEventKind::Other
    }
}

/// The three request events.
#[derive(Debug, Clone, Copy, PartialEq, Eq)]
pub enum RequestEvent {
    Started,
    Failed,
    Finished,
}

/// What the context reads from an event's parameters. Each field is absent
/// when the parameters lack it or hold a value of another type there; the
/// `*_guid` fields are the `guid` of the object under the named key.
#[derive(Debug, Clone)]
pub struct ContextEventParams {
    /// `request.guid`
    pub request_guid: Option<String>,
    /// `page.guid`
    pub page_guid: Option<String>,
    /// `failureText`
    pub failure_text: Option<String>,
    /// `response.guid`
    pub response_guid: Option<String>,
    /// `dialog.guid`
    pub dialog_guid: Option<String>,
    /// `binding.guid`
    pub binding_guid: Option<String>,
    /// `route.guid`
    pub route_guid: Option<String>,
}

impl ContextEventParams {
    /// Parameters with nothing in them.
    pub fn empty() -> (r: ContextEventParams)
        ensures
            r.request_guid is None && r.page_guid is None && r.failure_text is None
                && r.response_guid is None && r.dialog_guid is None && r.binding_guid is None
                && r.route_guid is None,
    {
        ContextEventParams {
            request_guid: None,
            page_guid: None,
            failure_text: None,
            response_guid: None,
            dialog_guid: None,
            binding_guid: None,
            route_guid: None,
        }
    }
}

/// What is left to do for a context event: the objects to look up on the
/// connection and the handlers to run, context-level ones before those of
/// the page the event belongs to.
#[derive(Debug, Clone)]
pub enum ContextAction {
    /// Nothing: the event is not handled, or lacks what it needs.
    Ignore,
    /// Look up the request, then take the steps `request_dispatch_plan`
    /// gives for the other fields, in its order.
    DispatchRequest {
        event: RequestEvent,
        request_guid: String,
        page_guid: Option<String>,
        failure_text: Option<String>,
        timing_response_guid: Option<Option<String>>,
    },
    /// Look up the response, then take the steps `response_dispatch_plan`
    /// gives for `page_guid`, in its order.
    DispatchResponse { response_guid: String, page_guid: Option<String> },
    /// Run the close handlers, then wake every close waiter.
    DispatchClose,
    /// Look up the page; record it with `ContextPages::track_page`, run the
    /// page handlers, then hand it to the oldest waiter with
    /// `ContextPages::notify_page_waiter`.
    TrackPage(String),
    /// Look up the dialog; run the context's dialog handlers, then those of
    /// the dialog's page.
    ForwardDialog(String),
    /// Look up the binding call and answer it with the context's callback,
    /// or reject it when none is registered under its name.
    ResolveBindingCall(String),
    /// Look up the route and run the context's route handlers on it.
    ResolveRoute(String),
}

/// The request event a context event kind stands for, if any.
pub open spec fn request_event_of(kind: ContextEventKind) -> Option<RequestEvent> {
    match kind {
        ContextEventKind::Request => Some(RequestEvent::Started),
        ContextEventKind::RequestFailed => Some(RequestEvent::Failed),
        ContextEventKind::RequestFinished => Some(RequestEvent::Finished),
        _ => None,
    }
}

/// The action owed for a context event of `kind` with parameters `p`.
pub open spec fn context_action_for(kind: ContextEventKind, p: ContextEventParams, r: ContextAction) -> bool {
    match kind {
        ContextEventKind::Request | ContextEventKind::RequestFailed
        | ContextEventKind::RequestFinished => match p.request_guid {
            Some(g) => r == ContextAction::DispatchRequest {
                event: request_event_of(kind)->0,
                request_guid: g,
                page_guid: p.page_guid,
                failure_text: p.failure_text,
                timing_response_guid: if kind == ContextEventKind::RequestFinished {
                    Some(p.response_guid)
                } else {
                    None
                },
            },
            None => r == ContextAction::Ignore,
        },
        ContextEventKind::Response => match p.response_guid {
            Some(g) => r == ContextAction::DispatchResponse {
                response_guid: g,
                page_guid: p.page_guid,
            },
            None => r == ContextAction::Ignore,
        },
        ContextEventKind::Close => r == ContextAction::DispatchClose,
        ContextEventKind::Page => match p.page_guid {
            Some(g) => r == ContextAction::TrackPage(g),
            None => r == ContextAction::Ignore,
        },
        ContextEventKind::Dialog => match p.dialog_guid {
            Some(g) => r == ContextAction::ForwardDialog(g),
            None => r == ContextAction::Ignore,
        },
        ContextEventKind::BindingCall => match p.binding_guid {
            Some(g) => r == ContextAction::ResolveBindingCall(g),
            None => r == ContextAction::Ignore,
        },
        ContextEventKind::Route => match p.route_guid {
            Some(g) => r == ContextAction::ResolveRoute(g),
            None => r == ContextAction::Ignore,
        },
        ContextEventKind::Other => r == ContextAction::Ignore,
    }
}

/// Says what is left to do for a server event sent to a browser context.
pub fn context_event_action(method: &str, params: ContextEventParams) -> (r: ContextAction)
    ensures
        context_action_for(context_event_kind(method@), params, r),
{
    let kind = classify_context_event(method);
    match kind {
        ContextEventKind::Request | ContextEventKind::RequestFailed
        | ContextEventKind::RequestFinished => match params.request_guid {
            Some(g) => {
                let event = match kind {
                    ContextEventKind::Request => RequestEvent::Started,
                    ContextEventKind::RequestFailed => RequestEvent::Failed,
                    _ => RequestEvent::Finished,
                };
                let timing_response_guid = match kind {
                    ContextEventKind::RequestFinished => Some(params.response_guid),
                    _ => None,
                };
                ContextAction::DispatchRequest {
                    event,
                    request_guid: g,
                    page_guid: params.page_guid,
                    failure_text: params.failure_text,
                    timing_response_guid,
                }
            },
            None => ContextAction::Ignore,
        },
        ContextEventKind::Response => match params.response_guid {
            Some(g) => ContextAction::DispatchResponse {
                response_guid: g,
                page_guid: params.page_guid,
            },
            None => ContextAction::Ignore,
        },
        ContextEventKind::Close => ContextAction::DispatchClose,
        ContextEventKind::Page => match params.page_guid {
            Some(g) => ContextAction::TrackPage(g),
            None => ContextAction::Ignore,
        },
        ContextEventKind::Dialog => match params.dialog_guid {
            Some(g) => ContextAction::ForwardDialog(g),
            None => ContextAction::Ignore,
        },
        ContextEventKind::BindingCall => match params.binding_guid {
            Some(g) => ContextAction::ResolveBindingCall(g),
            None => ContextAction::Ignore,
        },
        ContextEventKind::Route => match params.route_guid {
            Some(g) => ContextAction::ResolveRoute(g),
            None => ContextAction::Ignore,
        },
        ContextEventKind::Other => ContextAction::Ignore,
    }
}

/// One step of delivering a request or response event, in the order the
/// steps are taken. Each step runs whatever the steps before it did; a
/// handler that fails is reported and stops neither the handlers after it
/// nor the later steps.
#[derive(Debug, Clone, PartialEq, Eq)]
pub enum DispatchStep {
    /// Record the failure text on the request.
    SetFailureText(String),
    /// Read the request's timing from this response object, when given.
    ReadTiming(Option<String>),
    /// Run the context's handlers for the event, in registration order.
    RunContextHandlers,
    /// Look up this page and run its handlers for the event.
    RunPageHandlers(String),
}

/// The steps of delivering a request event: the failure text is set and the
/// timing read before any handler runs, and the context's handlers run
/// before those of the page.
pub open spec fn request_plan(
    page_guid: Option<String>,
    failure_text: Option<String>,
    timing_response_guid: Option<Option<String>>,
) -> Seq<DispatchStep> {
    (match failure_text {
        Some(t) => seq![DispatchStep::SetFailureText(t)],
        None => Seq::empty(),
    }) + (match timing_response_guid {
        Some(g) => seq![DispatchStep::ReadTiming(g)],
        None => Seq::empty(),
    }) + seq![DispatchStep::RunContextHandlers] + (match page_guid {
        Some(p) => seq![DispatchStep::RunPageHandlers(p)],
        None => Seq::empty(),
    })
}

/// The steps of delivering a request event, from what the event carried.
pub fn request_dispatch_plan(
    page_guid: Option<String>,
    failure_text: Option<String>,
    timing_response_guid: Option<Option<String>>,
) -> (r: Vec<DispatchStep>)
    ensures
        r@ == request_plan(page_guid, failure_text, timing_response_guid),
{
    let ghost p0 = page_guid;
    let ghost f0 = failure_text;
    let ghost t0 = timing_response_guid;
    let mut steps: Vec<DispatchStep> = Vec::new();
    match failure_text {
        Some(t) => steps.push(DispatchStep::SetFailureText(t)),
        None => {},
    }
    match timing_response_guid {
        Some(g) => steps.push(DispatchStep::ReadTiming(g)),
        None => {},
    }
    steps.push(DispatchStep::RunContextHandlers);
    match page_guid {
        Some(p) => steps.push(DispatchStep::RunPageHandlers(p)),
        None => {},
    }
    assert(steps@ =~= request_plan(p0, f0, t0));
    steps
}

/// The steps of delivering a response event: the context's handlers, then
/// those of the page when the event names one.
pub fn response_dispatch_plan(page_guid: Option<String>) -> (r: Vec<DispatchStep>)
    ensures
        r@ == request_plan(page_guid, None, None),
{
    request_dispatch_plan(page_guid, None, None)
}

/// The pages a browser context knows of, with the handlers and waiters of
/// its `page` event; `P` is the page handle and `H` the handler type.
#[verifier::reject_recursive_types(P)]
pub struct ContextPages<P, H> {
    pages: Vec<P>,
    page_events: EventRegistry<P, H>,
}

impl<P, H> ContextPages<P, H> {
    /// The context's pages, oldest first.
    pub closed spec fn page_seq(&self) -> Seq<P> {
        self.pages@
    }

    /// The handlers and waiters of the `page` event.
    pub closed spec fn page_registry(&self) -> EventRegistry<P, H> {
        self.page_events
    }

    /// No pages, no handlers, no waiters.
    pub fn new() -> (r: Self)
        ensures
            r.page_seq().len() == 0,
            r.page_registry().event_name() == "page"@,
            r.page_registry().handler_seq().len() == 0,
            r.page_registry().waiter_seq().len() == 0,
            r.page_registry().offer_log().len() == 0,
    {
        ContextPages { pages: Vec::new(), page_events: EventRegistry::new("page") }
    }

    /// The context's pages, oldest first.
    pub fn pages(&self) -> (r: &Vec<P>)
        ensures
            r@ == self.page_seq(),
    {
        &self.pages
    }

    /// Records a page the server created in this context (a `page` event),
    /// after the ones already known.
    pub fn track_page(&mut self, page: P)
        ensures
            final(self).page_seq() == old(self).page_seq().push(page),
            final(self).page_registry() == old(self).page_registry(),
    {
        self.pages.push(page);
    }

    /// Registers a handler of the `page` event after the existing ones.
    pub fn add_page_handler(&mut self, handler: H)
        ensures
            final(self).page_seq() == old(self).page_seq(),
            final(self).page_registry().handler_seq() == old(self).page_registry().handler_seq().push(
                handler,
            ),
            final(self).page_registry().waiter_seq() == old(self).page_registry().waiter_seq(),
            final(self).page_registry().event_name() == old(self).page_registry().event_name(),
            final(self).page_registry().offer_log() == old(self).page_registry().offer_log(),
    {
        self.page_events.add_handler(handler);
    }

    /// The `page` handlers, to run for a new page.
    pub fn page_handlers(&self) -> (r: &Vec<H>)
        ensures
            r@ == self.page_registry().handler_seq(),
    {
        self.page_events.handlers()
    }

    /// Enqueues a waiter for the next page (`expect_page`) behind the
    /// existing ones.
    pub fn expect_page(&mut self) -> (r: Receiver<P>)
        ensures
            final(self).page_seq() == old(self).page_seq(),
            final(self).page_registry().handler_seq() == old(self).page_registry().handler_seq(),
            final(self).page_registry().waiter_seq().len() == old(self).page_registry().waiter_seq().len()
                + 1,
            final(self).page_registry().waiter_seq().subrange(
                0,
                old(self).page_registry().waiter_seq().len() as int,
            ) == old(self).page_registry().waiter_seq(),
            final(self).page_registry().event_name() == old(self).page_registry().event_name(),
            final(self).page_registry().offer_log() == old(self).page_registry().offer_log(),
    {
        self.page_events.wait()
    }

    /// Hands a new page to the oldest waiter still waiting, once the page
    /// is tracked and its handlers have run.
    pub fn notify_page_waiter(&mut self, page: P) -> (delivered: bool)
        ensures
            final(self).page_seq() == old(self).page_seq(),
            one_waiter_notified(old(self).page_registry(), final(self).page_registry(), page, delivered),
    {
        self.page_events.notify_one_waiter(page)
    }
}

/// Each handled context event method is sent to the kind of the same name,
/// and only that method is; every other method is `Other`. So, for one, a
/// `dialog` event is never dropped and goes to the dialog handlers.
pub proof fn lemma_context_event_names(method: Seq<char>)
    ensures
        (context_event_kind(method) == ContextEventKind::Request) == (method == "request"@),
        (context_event_kind(method) == ContextEventKind::RequestFailed) == (method == "requestFailed"@),
        (context_event_kind(method) == ContextEventKind::RequestFinished) == (method == "requestFinished"@),
        (context_event_kind(method) == ContextEventKind::Response) == (method == "response"@),
        (context_event_kind(method) == ContextEventKind::Close) == (method == "close"@),
        (context_event_kind(method) == ContextEventKind::Page) == (method == "page"@),
        (context_event_kind(method) == ContextEventKind::Dialog) == (method == "dialog"@),
        (context_event_kind(method) == ContextEventKind::BindingCall) == (method == "bindingCall"@),
        (context_event_kind(method) == ContextEventKind::Route) == (method == "route"@),
        (context_event_kind(method) == ContextEventKind::Other) == (method != "request"@ && method != "requestFailed"@ && method != "requestFinished"@ && method != "response"@ && method != "close"@ && method != "page"@ && method != "dialog"@ && method != "bindingCall"@ && method != "route"@),
{
    reveal_strlit("request");
    reveal_strlit("requestFailed");
    reveal_strlit("requestFinished");
    reveal_strlit("response");
    reveal_strlit("close");
    reveal_strlit("page");
    reveal_strlit("dialog");
    reveal_strlit("bindingCall");
    reveal_strlit("route");
    assert("request"@.len() != "requestFailed"@.len());
    assert("request"@.len() != "requestFinished"@.len());
    assert("request"@.len() != "response"@.len());
    assert("request"@.len() != "close"@.len());
    assert("request"@.len() != "page"@.len());
    assert("request"@.len() != "dialog"@.len());
    assert("request"@.len() != "bindingCall"@.len());
    assert("request"@.len() != "route"@.len());
    assert("requestFailed"@.len() != "requestFinished"@.len());
    assert("requestFailed"@.len() != "response"@.len());
    assert("requestFailed"@.len() != "close"@.len());
    assert("requestFailed"@.len() != "page"@.len());
    assert("requestFailed"@.len() != "dialog"@.len());
    assert("requestFailed"@.len() != "bindingCall"@.len());
    assert("requestFailed"@.len() != "route"@.len());
    assert("requestFinished"@.len() != "response"@.len());
    assert("requestFinished"@.len() != "close"@.len());
    assert("requestFinished"@.len() != "page"@.len());
    assert("requestFinished"@.len() != "dialog"@.len());
    assert("requestFinished"@.len() != "bindingCall"@.len());
    assert("requestFinished"@.len() != "route"@.len());
    assert("response"@.len() != "close"@.len());
    assert("response"@.len() != "page"@.len());
    assert("response"@.len() != "dialog"@.len());
    assert("response"@.len() != "bindingCall"@.len());
    assert("response"@.len() != "route"@.len());
    assert("close"@.len() != "page"@.len());
    assert("close"@.len() != "dialog"@.len());
    assert("close"@.len() != "bindingCall"@.len());
    assert("close"@[0] != "route"@[0]);
    assert("page"@.len() != "dialog"@.len());
    assert("page"@.len() != "bindingCall"@.len());
    assert("page"@.len() != "route"@.len());
    assert("dialog"@.len() != "bindingCall"@.len());
    assert("dialog"@.len() != "route"@.len());
    assert("bindingCall"@.len() != "route"@.len());
}

/// A `dialog` event naming a dialog is forwarded to the dialog handlers
/// with that dialog, whatever else its parameters hold.
pub proof fn lemma_dialog_is_forwarded(params: ContextEventParams, g: String, r: ContextAction)
    requires
        params.dialog_guid == Some(g),
        context_action_for(context_event_kind("dialog"@), params, r),
    ensures
        r == ContextAction::ForwardDialog(g),
{
    lemma_context_event_names("dialog"@);
}

} // verus!
