//! Network interception: route tables and HAR replay decisions.

use vstd::prelude::*;
use crate::glob::glob_matches;
use crate::glob::glob_match;
use crate::text::{owned, str_eq};

verus! {

/// Options for `Page::route_from_har`.
#[derive(Debug, Clone)]
pub struct RouteFromHarOptions {
    /// Glob of the URLs served from the archive; all URLs when unset.
    pub url: Option<String>,
    /// `"abort"` (the default) or `"fallback"` for requests the archive lacks.
    pub not_found: Option<String>,
    /// Record into the archive instead of replaying from it.
    pub update: Option<bool>,
    /// How recorded content is stored (`"embed"` or `"attach"`).
    pub update_content: Option<String>,
    /// How much is recorded (`"full"` or `"minimal"`).
    pub update_mode: Option<String>,
}

impl Default for RouteFromHarOptions {
    fn default() -> (r: RouteFromHarOptions)
        ensures
            r.url is None && r.not_found is None && r.update is None && r.update_content is None
                && r.update_mode is None,
    {
        RouteFromHarOptions {
            url: None,
            not_found: None,
            update: None,
            update_content: None,
            update_mode: None,
        }
    }
}

/// The view of an optional string.
pub open spec fn opt_view(o: Option<String>) -> Option<Seq<char>> {
    match o {
        Some(s) => Some(s@),
        None => None,
    }
}

impl RouteFromHarOptions {
    /// Sets the URL glob.
    pub fn url(self, url: &str) -> (r: Self)
        ensures
            opt_view(r.url) == Some(url@),
            r.not_found == self.not_found && r.update == self.update && r.update_content
                == self.update_content && r.update_mode == self.update_mode,
    {
        RouteFromHarOptions { url: Some(owned(url)), ..self }
    }

    /// Sets the not-found policy.
    pub fn not_found(self, not_found: &str) -> (r: Self)
        ensures
            opt_view(r.not_found) == Some(not_found@),
            r.url == self.url && r.update == self.update && r.update_content == self.update_content
                && r.update_mode == self.update_mode,
    {
        RouteFromHarOptions { not_found: Some(owned(not_found)), ..self }
    }

    /// Sets whether to record.
    pub fn update(self, update: bool) -> (r: Self)
        ensures
            r.update == Some(update),
            r.url == self.url && r.not_found == self.not_found && r.update_content
                == self.update_content && r.update_mode == self.update_mode,
    {
        RouteFromHarOptions { update: Some(update), ..self }
    }

    /// Sets how recorded content is stored.
    pub fn update_content(self, update_content: &str) -> (r: Self)
        ensures
            opt_view(r.update_content) == Some(update_content@),
            r.url == self.url && r.not_found == self.not_found && r.update == self.update
                && r.update_mode == self.update_mode,
    {
        RouteFromHarOptions { update_content: Some(owned(update_content)), ..self }
    }

    /// Sets how much is recorded.
    pub fn update_mode(self, update_mode: &str) -> (r: Self)
        ensures
            opt_view(r.update_mode) == Some(update_mode@),
            r.url == self.url && r.not_found == self.not_found && r.update == self.update
                && r.update_content == self.update_content,
    {
        RouteFromHarOptions { update_mode: Some(owned(update_mode)), ..self }
    }

    /// The not-found policy, `"abort"` when unset.
    pub fn not_found_policy(&self) -> (r: String)
        ensures
            r@ == match self.not_found {
                Some(s) => s@,
                None => "abort"@,
            },
    {
        match &self.not_found {
            Some(s) => s.clone(),
            None => owned("abort"),
        }
    }

    /// The glob of the routed URLs, `"**/*"` when unset.
    pub fn route_pattern(&self) -> (r: String)
        ensures
            r@ == match self.url {
                Some(s) => s@,
                None => "**/*"@,
            },
    {
        match &self.url {
            Some(s) => s.clone(),
            None => owned("**/*"),
        }
    }
}

/// What to do with a request after looking it up in a HAR archive.
#[derive(Debug, Clone, Copy, PartialEq, Eq)]
pub enum HarReply {
    /// Continue the request at the archive's redirect URL.
    Redirect,
    /// Fulfill the request from the archived response.
    Fulfill,
    /// Let the next matching route handle it.
    Fallback,
    /// Abort the request.
    Abort,
}

/// The reply for a HAR lookup result.
pub open spec fn har_reply_spec(action: Seq<char>, not_found: Seq<char>) -> HarReply {
    if action == "redirect"@ {
        HarReply::Redirect
    } else if action == "fulfill"@ {
        HarReply::Fulfill
    } else if not_found == "fallback"@ {
        HarReply::Fallback
    } else {
        HarReply::Abort
    }
}

/// Decides the reply for a HAR lookup whose action is `action`; any action
/// other than redirect or fulfill follows the not-found policy.
pub fn har_reply(action: &str, not_found: &str) -> (r: HarReply)
    ensures
        r == har_reply_spec(action@, not_found@),
{
    if str_eq(action, "redirect") {
        HarReply::Redirect
    } else if str_eq(action, "fulfill") {
        HarReply::Fulfill
    } else if str_eq(not_found, "fallback") {
        HarReply::Fallback
    } else {
        HarReply::Abort
    }
}

/// What the route dispatcher does after a handler ran.
#[derive(Debug, Clone, Copy, PartialEq, Eq)]
pub enum AfterHandler {
    /// The handler failed before settling the request: abort it and stop.
    AbortAndStop,
    /// Stop dispatching.
    Stop,
    /// The handler fell back: try the next matching handler.
    TryNext,
}

/// After a route handler: a failure stops the chain (aborting the request
/// unless the handler already settled it); a handler that did not settle
/// the request falls back to the next matching one.
pub fn after_route_handler(succeeded: bool, handled: bool) -> (r: AfterHandler)
    ensures
        !succeeded && !handled ==> r == AfterHandler::AbortAndStop,
        !succeeded && handled ==> r == AfterHandler::Stop,
        succeeded && !handled ==> r == AfterHandler::TryNext,
        succeeded && handled ==> r == AfterHandler::Stop,
{
    if !succeeded {
        if !handled {
            AfterHandler::AbortAndStop
        } else {
            AfterHandler::Stop
        }
    } else if !handled {
        AfterHandler::TryNext
    } else {
        AfterHandler::Stop
    }
}

/// Globs paired with their handlers, position by position.
pub open spec fn zip_routes<H>(patterns: Seq<String>, handlers: Seq<H>) -> Seq<(Seq<char>, H)> {
    Seq::new(patterns.len(), |i: int| (patterns[i]@, handlers[i]))
}

/// Route handlers by URL glob, in registration order (the handler itself is
/// of any type the caller chooses).
pub struct RouteTable<H> {
    patterns: Vec<String>,
    handlers: Vec<H>,
}

impl<H> RouteTable<H> {
    /// The registered globs, oldest first.
    pub closed spec fn pattern_seq(&self) -> Seq<Seq<char>> {
        self.patterns@.map_values(|p: String| p@)
    }

    /// The registered handlers, oldest first.
    pub closed spec fn handler_seq(&self) -> Seq<H> {
        self.handlers@
    }

    /// The routes, oldest first: each glob with its handler.
    pub closed spec fn route_seq(&self) -> Seq<(Seq<char>, H)> {
        zip_routes(self.patterns@, self.handlers@)
    }

    /// Patterns and handlers line up.
    pub closed spec fn wf(&self) -> bool {
        self.patterns@.len() == self.handlers@.len()
    }

    /// No routes.
    pub fn new() -> (r: Self)
        ensures
            r.wf(),
            r.pattern_seq().len() == 0,
    {
        RouteTable { patterns: Vec::new(), handlers: Vec::new() }
    }

    /// Number of routes.
    pub fn len(&self) -> (r: usize)
        requires
            self.wf(),
        ensures
            r == self.pattern_seq().len(),
    {
        self.patterns.len()
    }

    /// Registers `handler` for `pattern`, after every existing route.
    pub fn route(&mut self, pattern: &str, handler: H)
        requires
            old(self).wf(),
        ensures
            final(self).wf(),
            final(self).pattern_seq() == old(self).pattern_seq().push(pattern@),
            final(self).handler_seq() == old(self).handler_seq().push(handler),
    {
        self.patterns.push(owned(pattern));
        self.handlers.push(handler);
        assert(self.pattern_seq() =~= old(self).pattern_seq().push(pattern@));
    }

    /// Removes every route registered for exactly `pattern`, keeping the
    /// others, with their handlers, in order.
    pub fn unroute(&mut self, pattern: &str)
        requires
            old(self).wf(),
        ensures
            final(self).wf(),
            final(self).route_seq() == old(self).route_seq().filter(
                |e: (Seq<char>, H)| e.0 != pattern@,
            ),
            final(self).pattern_seq() == old(self).pattern_seq().filter(|p: Seq<char>| p != pattern@),
            forall|i: int|
                0 <= i < final(self).pattern_seq().len() ==> final(self).pattern_seq()[i]
                    != pattern@,
    {
        let ghost pred = |e: (Seq<char>, H)| e.0 != pattern@;
        let ghost ppred = |p: Seq<char>| p != pattern@;
        let ghost orig = self.route_seq();
        let ghost origp = self.pattern_seq();
        let mut old_p: Vec<String> = Vec::new();
        let mut old_h: Vec<H> = Vec::new();
        std::mem::swap(&mut old_p, &mut self.patterns);
        std::mem::swap(&mut old_h, &mut self.handlers);
        let n = old_p.len();
        let ghost orig_p = old_p@;
        let ghost orig_h = old_h@;
        let mut i: usize = 0;
        assert(orig.subrange(0, 0).filter(pred) =~= Seq::<(Seq<char>, H)>::empty());
        assert(origp.subrange(0, 0).filter(ppred) =~= Seq::<Seq<char>>::empty());
        while i < n
            invariant
                n == orig.len(),
                n == origp.len(),
                n == orig_h.len(),
                origp == orig_p.map_values(|p: String| p@),
                forall|k: int| 0 <= k < n ==> #[trigger] orig[k] == (orig_p[k]@, orig_h[k]),
                old_p@ == orig_p.subrange(i as int, n as int),
                old_h@ == orig_h.subrange(i as int, n as int),
                i <= n,
                self.patterns@.len() == self.handlers@.len(),
                zip_routes(self.patterns@, self.handlers@) == orig.subrange(0, i as int).filter(
                    pred,
                ),
                self.patterns@.map_values(|p: String| p@) == origp.subrange(0, i as int).filter(
                    ppred,
                ),
                pred == (|e: (Seq<char>, H)| e.0 != pattern@),
                ppred == (|p: Seq<char>| p != pattern@),
            decreases n - i,
        {
            let p = old_p.remove(0);
            let h = old_h.remove(0);
            assert(old_p@ =~= orig_p.subrange(i + 1, n as int));
            assert(old_h@ =~= orig_h.subrange(i + 1, n as int));
            assert(orig[i as int] == (p@, h));
            assert(origp[i as int] == p@);
            let ghost sub = orig.subrange(0, i + 1);
            let ghost subp = origp.subrange(0, i + 1);
            assert(sub.drop_last() =~= orig.subrange(0, i as int));
            assert(subp.drop_last() =~= origp.subrange(0, i as int));
            assert(sub.filter(pred) == (if pred(sub.last()) {
                sub.drop_last().filter(pred).push(sub.last())
            } else {
                sub.drop_last().filter(pred)
            })) by {
                reveal(Seq::filter);
            }
            assert(subp.filter(ppred) == (if ppred(p@) {
                subp.drop_last().filter(ppred).push(p@)
            } else {
                subp.drop_last().filter(ppred)
            })) by {
                reveal(Seq::filter);
            }
            let keep = !str_eq(p.as_str(), pattern);
            let ghost before_p = self.patterns@;
            let ghost before_h = self.handlers@;
            if keep {
                self.patterns.push(p);
                self.handlers.push(h);
                assert(self.patterns@.map_values(|p: String| p@) =~= before_p.map_values(
                    |p: String| p@,
                ).push(origp[i as int]));
                assert(zip_routes(self.patterns@, self.handlers@) =~= zip_routes(
                    before_p,
                    before_h,
                ).push(orig[i as int]));
            }
            i = i + 1;
        }
        assert(orig.subrange(0, n as int) =~= orig);
        assert(origp.subrange(0, n as int) =~= origp);
        proof {
            let f = final(self).pattern_seq();
            assert(f == origp.filter(ppred));
            broadcast use vstd::seq_lib::group_filter_ensures;
        }
    }

    /// Removes every route.
    pub fn unroute_all(&mut self)
        ensures
            final(self).wf(),
            final(self).pattern_seq().len() == 0,
    {
        self.patterns = Vec::new();
        self.handlers = Vec::new();
        assert(self.pattern_seq() =~= Seq::<Seq<char>>::empty());
    }

    /// The globs to send as the interception patterns, oldest first.
    pub fn patterns(&self) -> (r: &Vec<String>)
        ensures
            r@.map_values(|p: String| p@) == self.pattern_seq(),
    {
        &self.patterns
    }

    /// The handler of route `i`.
    pub fn handler(&self, i: usize) -> (r: &H)
        requires
            self.wf(),
            i < self.pattern_seq().len(),
        ensures
            *r == self.handler_seq()[i as int],
    {
        &self.handlers[i]
    }

    /// The newest route registered before position `below` whose glob
    /// matches `url`: the last registered route is tried first and a
    /// fallback moves on to older ones.
    pub fn next_match(&self, below: usize, url: &str) -> (r: Option<usize>)
        requires
            self.wf(),
            below <= self.pattern_seq().len(),
        ensures
            match r {
                Some(i) => i < below && glob_matches(self.pattern_seq()[i as int], url@) && forall|
                    j: int,
                | i < j < below ==> !glob_matches(self.pattern_seq()[j], url@),
                None => forall|j: int| 0 <= j < below ==> !glob_matches(self.pattern_seq()[j], url@),
            },
    {
        let mut k = below;
        while k > 0
            invariant
                k <= below <= self.patterns@.len(),
                forall|j: int| k <= j < below ==> !glob_matches(self.pattern_seq()[j], url@),
            decreases k,
        {
            assert(self.pattern_seq()[k - 1] == self.patterns@[k - 1]@);
            if glob_match(self.patterns[k - 1].as_str(), url) {
                return Some(k - 1);
            }
            k = k - 1;
        }
        None
    }
}

} // verus!
