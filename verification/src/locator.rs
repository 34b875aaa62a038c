//! Locators: lazy, chainable element selectors.
//!
//! A locator only holds its selector; sub-locators extend it with the
//! selector engine's `>>` chaining operator.

use vstd::prelude::*;
use crate::error::Error;
use crate::text::{int_decimal, i64_decimal, owned, push_str};

verus! {

/// A way to find element(s) on the page at any given moment.
#[derive(Debug, Clone)]
pub struct Locator {
    selector: String,
}

impl View for Locator {
    type V = Seq<char>;

    /// The selector string.
    closed spec fn view(&self) -> Seq<char> {
        self.selector@
    }
}

/// The selector chaining `suffix` after `base`.
pub open spec fn chained(base: Seq<char>, suffix: Seq<char>) -> Seq<char> {
    base + " >> "@ + suffix
}

/// Appends ` [selector: <selector>]` to a message.
pub open spec fn with_selector(msg: Seq<char>, selector: Seq<char>) -> Seq<char> {
    msg + " [selector: "@ + selector + "]"@
}

impl Locator {
    /// Creates a locator for `selector`.
    pub fn new(selector: String) -> (r: Locator)
        ensures
            r@ == selector@,
    {
        Locator { selector }
    }

    /// Returns the selector string for this locator.
    pub fn selector(&self) -> (r: &str)
        ensures
            r@ == self@,
    {
        self.selector.as_str()
    }

    fn chain(&self, suffix: &str) -> (r: Locator)
        ensures
            r@ == chained(self@, suffix@),
    {
        let mut s = self.selector.clone();
        push_str(&mut s, " >> ");
        push_str(&mut s, suffix);
        Locator { selector: s }
    }

    /// Creates a locator for the first matching element.
    pub fn first(&self) -> (r: Locator)
        ensures
            r@ == chained(self@, "nth=0"@),
    {
        self.chain("nth=0")
    }

    /// Creates a locator for the last matching element.
    pub fn last(&self) -> (r: Locator)
        ensures
            r@ == chained(self@, "nth=-1"@),
    {
        self.chain("nth=-1")
    }

    /// Creates a locator for the nth matching element (0-indexed).
    pub fn nth(&self, index: i32) -> (r: Locator)
        ensures
            r@ == chained(self@, "nth="@ + int_decimal(index as int)),
    {
        let mut suffix = owned("nth=");
        let digits = i64_decimal(index as i64);
        push_str(&mut suffix, digits.as_str());
        self.chain(suffix.as_str())
    }

    /// Creates a sub-locator within this locator's subtree.
    pub fn locator(&self, selector: &str) -> (r: Locator)
        ensures
            r@ == chained(self@, selector@),
    {
        self.chain(selector)
    }

    /// Adds this locator's selector to protocol and timeout errors; other
    /// errors pass through unchanged.
    pub fn wrap_error_with_selector(&self, error: Error) -> (r: Error)
        ensures
            match error {
                Error::ProtocolError(m) => r matches Error::ProtocolError(w) && w@ == with_selector(
                    m@,
                    self@,
                ),
                Error::Timeout(m) => r matches Error::Timeout(w) && w@ == with_selector(m@, self@),
                _ => r == error,
            },
    {
        match error {
            Error::ProtocolError(msg) => {
                let mut w = msg;
                push_str(&mut w, " [selector: ");
                push_str(&mut w, self.selector.as_str());
                push_str(&mut w, "]");
                Error::ProtocolError(w)
            },
            Error::Timeout(msg) => {
                let mut w = msg;
                push_str(&mut w, " [selector: ");
                push_str(&mut w, self.selector.as_str());
                push_str(&mut w, "]");
                Error::Timeout(w)
            },
            other => other,
        }
    }
}

/// `nth(0)` selects what `first()` selects, and `nth(-1)` what `last()`
/// selects: for any base selector the resulting selectors are identical.
pub proof fn lemma_nth_ends_are_first_and_last(base: Seq<char>)
    ensures
        chained(base, "nth="@ + int_decimal(0)) == chained(base, "nth=0"@),
        chained(base, "nth="@ + int_decimal(-1)) == chained(base, "nth=-1"@),
{
    reveal_strlit("nth=");
    reveal_strlit("nth=0");
    reveal_strlit("nth=-1");
    assert(int_decimal(0) =~= seq!['0']);
    assert(int_decimal(-1) =~= seq!['-', '1']);
    assert("nth="@ + int_decimal(0) =~= "nth=0"@);
    assert("nth="@ + int_decimal(-1) =~= "nth=-1"@);
}

/// Chaining is associative: narrowing by `a` and then by `b` selects what
/// narrowing by the chained selector `a >> b` selects.
pub proof fn lemma_chaining_is_associative(base: Seq<char>, a: Seq<char>, b: Seq<char>)
    ensures
        chained(chained(base, a), b) == chained(base, chained(a, b)),
{
    assert(chained(chained(base, a), b) =~= chained(base, chained(a, b)));
}

} // verus!
