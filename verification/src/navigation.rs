//! Navigation options.

use vstd::prelude::*;
use std::time::Duration;
use crate::assertions::{duration_as_millis, duration_from_millis, duration_millis};
use crate::text::{owned, push_char, push_str, starts_with, is_prefix};

verus! {

/// When a navigation counts as finished.
#[derive(Debug, Clone, Copy, PartialEq, Eq)]
pub enum WaitUntil {
    /// The `load` event fired.
    Load,
    /// The `DOMContentLoaded` event fired.
    DomContentLoaded,
    /// No network connections for at least 500 ms.
    NetworkIdle,
    /// The network response was received and the document started loading.
    Commit,
}

/// The protocol name of a load state.
pub open spec fn wait_until_wire(w: WaitUntil) -> Seq<char> {
    match w {
        WaitUntil::Load => "load"@,
        WaitUntil::DomContentLoaded => "domcontentloaded"@,
        WaitUntil::NetworkIdle => "networkidle"@,
        WaitUntil::Commit => "commit"@,
    }
}

impl WaitUntil {
    /// The protocol name of the load state.
    pub fn as_str(&self) -> (r: &'static str)
        ensures
            r@ == wait_until_wire(*self),
    {
        match self {
            WaitUntil::Load => "load",
            WaitUntil::DomContentLoaded => "domcontentloaded",
            WaitUntil::NetworkIdle => "networkidle",
            WaitUntil::Commit => "commit",
        }
    }
}

/// Options for `goto`, `reload`, `go_back`, `go_forward` and `wait_for_url`.
#[derive(Debug, Clone, Copy)]
pub struct GotoOptions {
    /// Maximum operation time.
    pub timeout: Option<Duration>,
    /// When to consider the operation succeeded.
    pub wait_until: Option<WaitUntil>,
}

impl GotoOptions {
    /// Options with nothing set.
    pub fn new() -> (r: GotoOptions)
        ensures
            r.timeout is None && r.wait_until is None,
    {
        GotoOptions { timeout: None, wait_until: None }
    }

    /// Sets the timeout.
    pub fn timeout(self, timeout: Duration) -> (r: GotoOptions)
        ensures
            r.timeout == Some(timeout) && r.wait_until == self.wait_until,
    {
        GotoOptions { timeout: Some(timeout), ..self }
    }

    /// Sets the load state to wait for.
    pub fn wait_until(self, wait_until: WaitUntil) -> (r: GotoOptions)
        ensures
            r.wait_until == Some(wait_until) && r.timeout == self.timeout,
    {
        GotoOptions { wait_until: Some(wait_until), ..self }
    }
}

impl Default for GotoOptions {
    fn default() -> (r: GotoOptions)
        ensures
            r.timeout is None && r.wait_until is None,
    {
        GotoOptions::new()
    }
}

/// Fills in the page's navigation timeout when the caller gave none; an
/// explicit timeout, and the load state, are kept.
pub fn with_navigation_timeout(options: Option<GotoOptions>, nav_timeout: Duration) -> (r:
    GotoOptions)
    ensures
        match options {
            Some(o) => r.wait_until == o.wait_until && r.timeout == (if o.timeout is Some {
                o.timeout
            } else {
                Some(nav_timeout)
            }),
            None => r.timeout == Some(nav_timeout) && r.wait_until is None,
        },
{
    match options {
        Some(opts) => {
            if opts.timeout.is_some() {
                opts
            } else {
                GotoOptions { timeout: Some(nav_timeout), ..opts }
            }
        },
        None => GotoOptions { timeout: Some(nav_timeout), wait_until: None },
    }
}

/// A URL fragment with exactly the leading `#` the caller may have left out.
pub open spec fn fragment_spec(hash: Seq<char>) -> Seq<char> {
    if is_prefix("#"@, hash) {
        hash
    } else {
        seq!['#'] + hash
    }
}

/// Normalizes a fragment for `set_url_fragment`: adds a leading `#` unless
/// there is one.
pub fn normalize_url_fragment(hash: &str) -> (r: String)
    ensures
        r@ == fragment_spec(hash@),
{
    if starts_with(hash, "#") {
        owned(hash)
    } else {
        let mut s = String::new();
        push_char(&mut s, '#');
        push_str(&mut s, hash);
        s
    }
}

/// Normalizing a fragment twice gives what normalizing it once gives, and
/// the result always starts with `#`.
pub proof fn lemma_fragment_normalization_is_idempotent(hash: Seq<char>)
    ensures
        fragment_spec(fragment_spec(hash)) == fragment_spec(hash),
        is_prefix("#"@, fragment_spec(hash)),
{
    reveal_strlit("#");
    if !is_prefix("#"@, hash) {
        let h = seq!['#'] + hash;
        assert(h.subrange(0, 1) =~= "#"@);
    }
}

/// The parameters of a `goto`, `reload`, `goBack` or `goForward` request:
/// the timeout in milliseconds, and the load state to wait for when one is
/// given (`waitUntil` is left out otherwise).
#[derive(Debug, Clone, Copy, PartialEq, Eq)]
pub struct NavigationParams {
    pub timeout_ms: u64,
    pub wait_until: Option<&'static str>,
}

/// The timeout a navigation sends: the caller's, in whole milliseconds
/// (taken modulo 2^64, as a cast to `u64` does), else the page's
/// navigation timeout.
pub open spec fn navigation_timeout_sent(options: Option<GotoOptions>, nav_timeout_ms: u64) -> u64 {
    match options {
        Some(o) => match o.timeout {
            Some(d) => (duration_millis(d) % 0x1_0000_0000_0000_0000) as u64,
            None => nav_timeout_ms,
        },
        None => nav_timeout_ms,
    }
}

/// Builds the request parameters of a navigation from the caller's options
/// and the page's navigation timeout (in milliseconds).
pub fn navigation_params(options: Option<GotoOptions>, nav_timeout_ms: u64) -> (r: NavigationParams)
    ensures
        r.timeout_ms == navigation_timeout_sent(options, nav_timeout_ms),
        match options {
            Some(o) => match o.wait_until {
                Some(w) => r.wait_until matches Some(s) && s@ == wait_until_wire(w),
                None => r.wait_until is None,
            },
            None => r.wait_until is None,
        },
{
    let opts = with_navigation_timeout(options, duration_from_millis(nav_timeout_ms));
    let timeout_ms = match opts.timeout {
        Some(d) => {
            let m = duration_as_millis(d);
            (m % 0x1_0000_0000_0000_0000) as u64
        },
        None => nav_timeout_ms,
    };
    let wait_until = match opts.wait_until {
        Some(w) => Some(w.as_str()),
        None => None,
    };
    NavigationParams { timeout_ms, wait_until }
}

/// How many times a response object that has not arrived yet is looked up
/// again, and the pause before each new look, in milliseconds.
pub const RESPONSE_LOOKUP_RETRIES: u32 = 20;
pub const RESPONSE_LOOKUP_DELAY_MS: u64 = 50;

/// What to do after looking up a navigation's response object.
#[derive(Debug, Clone, Copy, PartialEq, Eq)]
pub enum LookupStep {
    /// The object is there: read it.
    Found,
    /// Not there yet: wait `RESPONSE_LOOKUP_DELAY_MS` and look again.
    RetryAfterDelay,
    /// Not there after every retry: fail with the lookup's error.
    GiveUp,
}

/// Decides the next step of the response lookup after `retries_done`
/// retries: found ends it, a miss is retried while fewer than
/// `RESPONSE_LOOKUP_RETRIES` retries were made, and gives up after that.
pub fn response_lookup_step(found: bool, retries_done: u32) -> (r: LookupStep)
    ensures
        found ==> r == LookupStep::Found,
        !found && retries_done < RESPONSE_LOOKUP_RETRIES ==> r == LookupStep::RetryAfterDelay,
        !found && retries_done >= RESPONSE_LOOKUP_RETRIES ==> r == LookupStep::GiveUp,
{
    if found {
        LookupStep::Found
    } else if retries_done < RESPONSE_LOOKUP_RETRIES {
        LookupStep::RetryAfterDelay
    } else {
        LookupStep::GiveUp
    }
}

} // verus!
