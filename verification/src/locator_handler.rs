//! Bookkeeping for locator handlers (`Page::add_locator_handler`): which
//! handler a `locatorHandlerTriggered` event runs, how many runs it has left,
//! and when its registration ends.

use vstd::prelude::*;
use crate::error::Error;
use crate::text::{owned, push_str, str_eq};

verus! {

/// Options for `Page::add_locator_handler`.
#[derive(Debug, Clone, Default)]
pub struct AddLocatorHandlerOptions {
    /// Whether the server should skip waiting for the overlay to disappear.
    pub no_wait_after: Option<bool>,
    /// How many times the handler runs before it is removed; unlimited when `None`.
    pub times: Option<u32>,
}

/// What a `locatorHandlerTriggered` event does with its entry.
#[derive(Debug, PartialEq, Eq, Clone, Copy)]
pub struct Invocation {
    /// Run the handler.
    pub run: bool,
    /// This was the last invocation: remove the entry and tell the server.
    pub remove: bool,
}

/// One registered locator handler (its callback is held by the caller).
#[derive(Debug)]
pub struct LocatorHandlerEntry {
    /// Server-assigned handler id.
    pub uid: u32,
    /// Selector of the locator the handler watches.
    pub selector: String,
    /// Remaining invocations; `None` means unlimited.
    pub times_remaining: Option<u32>,
}

/// The invocation one trigger yields, and the remaining count after it.
pub open spec fn invocation_step(times: Option<u32>) -> (Invocation, Option<u32>) {
    match times {
        Some(n) => if n == 0 {
            (Invocation { run: false, remove: true }, Some(0u32))
        } else {
            (Invocation { run: true, remove: n == 1 }, Some((n - 1) as u32))
        },
        None => (Invocation { run: true, remove: false }, None),
    }
}

/// The remaining count after `k` triggers.
pub open spec fn remaining_after(times: Option<u32>, k: nat) -> Option<u32>
    decreases k,
{
    if k == 0 {
        times
    } else {
        invocation_step(remaining_after(times, (k - 1) as nat)).1
    }
}

/// The invocation the `k`-th trigger (counting from 0) yields.
pub open spec fn nth_invocation(times: Option<u32>, k: nat) -> Invocation {
    invocation_step(remaining_after(times, k)).0
}

impl LocatorHandlerEntry {
    /// An entry for handler `uid` watching `selector`.
    pub fn new(uid: u32, selector: &str, times_remaining: Option<u32>) -> (r: LocatorHandlerEntry)
        ensures
            r.uid == uid,
            r.selector@ == selector@,
            r.times_remaining == times_remaining,
    {
        LocatorHandlerEntry { uid, selector: owned(selector), times_remaining }
    }

    /// Accounts for one trigger from the server and says what to do with it:
    /// whether to run the handler, and whether this was its last invocation.
    /// A counted entry already at zero is removed without running.
    pub fn take_invocation(&mut self) -> (r: Invocation)
        ensures
            (r, final(self).times_remaining) == invocation_step(old(self).times_remaining),
            final(self).uid == old(self).uid,
            final(self).selector == old(self).selector,
    {
        match self.times_remaining {
            Some(n) => {
                if n == 0 {
                    Invocation { run: false, remove: true }
                } else {
                    self.times_remaining = Some(n - 1);
                    Invocation { run: true, remove: n - 1 == 0 }
                }
            },
            None => Invocation { run: true, remove: false },
        }
    }
}

/// A handler registered with a count runs on exactly that many triggers and
/// is removed on the last of them; an unlimited one runs on every trigger
/// and is never removed.
pub proof fn lemma_counted_handler_runs_exactly_times(times: u32, k: nat)
    ensures
        k <= times ==> remaining_after(Some(times), k) == Some((times - k) as u32),
        k < times ==> nth_invocation(Some(times), k) == (Invocation {
            run: true,
            remove: k == times - 1,
        }),
        k >= times ==> remaining_after(Some(times), k) == Some(0u32),
        k >= times ==> nth_invocation(Some(times), k) == (Invocation { run: false, remove: true }),
        remaining_after(None, k) == None::<u32>,
        nth_invocation(None, k) == (Invocation { run: true, remove: false }),
    decreases k,
{
    if k > 0 {
        lemma_counted_handler_runs_exactly_times(times, (k - 1) as nat);
    }
}

/// The locator handlers registered on a page, in registration order.
pub struct LocatorHandlers {
    entries: Vec<LocatorHandlerEntry>,
}

impl LocatorHandlers {
    /// The registered entries.
    pub closed spec fn entries(&self) -> Seq<LocatorHandlerEntry> {
        self.entries@
    }

    /// No handlers registered.
    pub fn new() -> (r: LocatorHandlers)
        ensures
            r.entries() == Seq::<LocatorHandlerEntry>::empty(),
    {
        LocatorHandlers { entries: Vec::new() }
    }

    /// Number of registered handlers.
    pub fn len(&self) -> (r: usize)
        ensures
            r == self.entries().len(),
    {
        self.entries.len()
    }

    /// Records the handler the server registered as `uid`.
    pub fn register(&mut self, uid: u32, selector: &str, times: Option<u32>)
        ensures
            final(self).entries().len() == old(self).entries().len() + 1,
            final(self).entries().subrange(0, old(self).entries().len() as int)
                == old(self).entries(),
            final(self).entries().last().uid == uid,
            final(self).entries().last().selector@ == selector@,
            final(self).entries().last().times_remaining == times,
    {
        let e = LocatorHandlerEntry::new(uid, selector, times);
        self.entries.push(e);
        assert(self.entries@.subrange(0, old(self).entries@.len() as int) =~= old(self).entries@);
    }

    /// The uid of the first handler registered for `selector`.
    pub fn uid_for_selector(&self, selector: &str) -> (r: Result<u32, Error>)
        ensures
            match r {
                Ok(uid) => exists|i: int|
                    0 <= i < self.entries().len() && self.entries()[i].selector@ == selector@
                        && self.entries()[i].uid == uid && forall|j: int|
                        0 <= j < i ==> self.entries()[j].selector@ != selector@,
                Err(e) => {
                    &&& forall|i: int|
                        0 <= i < self.entries().len() ==> self.entries()[i].selector@ != selector@
                    &&& e matches Error::ProtocolError(m) && m@
                        == "No locator handler registered for selector '"@ + selector@ + "'"@
                },
            },
    {
        let mut i: usize = 0;
        while i < self.entries.len()
            invariant
                i <= self.entries@.len(),
                forall|j: int| 0 <= j < i ==> self.entries@[j].selector@ != selector@,
            decreases self.entries@.len() - i,
        {
            if str_eq(self.entries[i].selector.as_str(), selector) {
                return Ok(self.entries[i].uid);
            }
            i = i + 1;
        }
        let mut m = owned("No locator handler registered for selector '");
        push_str(&mut m, selector);
        push_str(&mut m, "'");
        Err(Error::ProtocolError(m))
    }

    /// Forgets every handler registered as `uid`, keeping the others in order.
    pub fn remove(&mut self, uid: u32)
        ensures
            final(self).entries() == old(self).entries().filter(
                |e: LocatorHandlerEntry| e.uid != uid,
            ),
    {
        let ghost pred = |e: LocatorHandlerEntry| e.uid != uid;
        let mut kept: Vec<LocatorHandlerEntry> = Vec::new();
        let mut old_entries = Vec::new();
        std::mem::swap(&mut old_entries, &mut self.entries);
        let ghost orig = old_entries@;
        let n = old_entries.len();
        let mut rest = old_entries;
        let mut i: usize = 0;
        assert(orig.subrange(0, 0).filter(pred) =~= Seq::<LocatorHandlerEntry>::empty());
        while i < n
            invariant
                n == orig.len(),
                i <= n,
                rest@ == orig.subrange(i as int, n as int),
                pred == (|e: LocatorHandlerEntry| e.uid != uid),
                kept@ == orig.subrange(0, i as int).filter(pred),
            decreases n - i,
        {
            let e = rest.remove(0);
            assert(e == orig[i as int]);
            assert(rest@ =~= orig.subrange(i + 1, n as int));
            assert(orig.subrange(0, i + 1).drop_last() =~= orig.subrange(0, i as int));
            let ghost sub = orig.subrange(0, i + 1);
            assert(sub.last() == e);
            assert(sub.filter(pred) == (if pred(e) {
                sub.drop_last().filter(pred).push(e)
            } else {
                sub.drop_last().filter(pred)
            })) by {
                reveal(Seq::filter);
            }
            if e.uid != uid {
                kept.push(e);
            }
            i = i + 1;
        }
        assert(orig.subrange(0, n as int) =~= orig);
        self.entries = kept;
    }

    /// Accounts for a `locatorHandlerTriggered` event for `uid`: steps the
    /// first entry with that uid and returns its selector and invocation;
    /// `None` when no handler has that uid.
    pub fn trigger(&mut self, uid: u32) -> (r: Option<(String, Invocation)>)
        ensures
            match r {
                None => final(self).entries() == old(self).entries() && forall|i: int|
                    0 <= i < old(self).entries().len() ==> old(self).entries()[i].uid != uid,
                Some((sel, inv)) => exists|i: int|
                    0 <= i < old(self).entries().len() && old(self).entries()[i].uid == uid
                        && (forall|j: int| 0 <= j < i ==> old(self).entries()[j].uid != uid)
                        && sel@ == old(self).entries()[i].selector@ && (
                    inv,
                    final(self).entries()[i].times_remaining,
                ) == invocation_step(old(self).entries()[i].times_remaining)
                        && final(self).entries()[i].uid == uid
                        && final(self).entries()[i].selector == old(self).entries()[i].selector
                        && final(self).entries().len() == old(self).entries().len() && forall|j: int|
                        0 <= j < old(self).entries().len() && j != i ==> final(self).entries()[j]
                            == old(self).entries()[j],
            },
    {
        let mut i: usize = 0;
        while i < self.entries.len()
            invariant
                i <= self.entries@.len(),
                self.entries@ == old(self).entries@,
                forall|j: int| 0 <= j < i ==> self.entries@[j].uid != uid,
            decreases self.entries@.len() - i,
        {
            if self.entries[i].uid == uid {
                let mut e = LocatorHandlerEntry {
                    uid: self.entries[i].uid,
                    selector: self.entries[i].selector.clone(),
                    times_remaining: self.entries[i].times_remaining,
                };
                let inv = e.take_invocation();
                let sel = e.selector.clone();
                self.entries.set(i, e);
                return Some((sel, inv));
            }
            i = i + 1;
        }
        None
    }
}

} // verus!
