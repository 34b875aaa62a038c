//! Handlers plus one-shot waiters for a single protocol event.
//!
//! Handlers are kept across events; a waiter (`expect_*`) is served at most
//! one event, oldest waiter first. A waiter whose receiver is gone (an
//! `expect_*` that timed out or was cancelled) is skipped rather than
//! allowed to swallow the event meant for the waiter behind it. Running the
//! handlers, which are async, is left to the caller: it runs them all for an
//! event and then calls `notify_one_waiter`.

use vstd::prelude::*;
use std::collections::VecDeque;
use tokio::sync::oneshot::{Receiver, Sender};

verus! {

#[verifier::external_type_specification]
#[verifier::external_body]
#[verifier::reject_recursive_types(T)]
pub struct ExOneshotSender<T>(tokio::sync::oneshot::Sender<T>);

#[verifier::external_type_specification]
#[verifier::external_body]
#[verifier::reject_recursive_types(T)]
pub struct ExOneshotReceiver<T>(tokio::sync::oneshot::Receiver<T>);

/// The error a receiver yields when its sender is gone; declared because
/// `Receiver`'s `Future` impl names it.
#[verifier::external_type_specification]
#[verifier::external_body]
pub struct ExOneshotRecvError(tokio::sync::oneshot::error::RecvError);

/// `tokio::sync::oneshot::channel`: a fresh sender/receiver pair.
#[verifier::external_body]
fn oneshot_channel<T>() -> (Sender<T>, Receiver<T>) {
    tokio::sync::oneshot::channel()
}

/// `tokio::sync::oneshot::Sender::send`: fails when the receiver is gone,
/// and then hands the very value back. Whether the receiver is still there
/// depends on other tasks and is not stated.
#[verifier::external_body]
fn oneshot_send<T>(tx: Sender<T>, value: T) -> (r: Result<(), T>)
    ensures
        r matches Err(v) ==> v == value,
{
    tx.send(value)
}

/// What happened to an offer of a value to a waiter: `Ok` when the waiter
/// took it, `Err` with the value handed back when its receiver was gone.
/// Says whether to offer the value to the next waiter, and with what.
fn after_offer<T>(outcome: Result<(), T>) -> (next: Option<T>)
    ensures
        outcome is Ok <==> next is None,
        outcome matches Err(v) ==> next == Some(v),
{
    match outcome {
        Ok(()) => None,
        Err(v) => Some(v),
    }
}

/// One offer of a value to a waiter: the waiter's sender, the value handed
/// to it, and whether it took the value.
pub type Offer<T> = (Sender<T>, T, bool);

/// How many offers were taken.
pub open spec fn accepted_count<T>(offers: Seq<Offer<T>>) -> nat
    decreases offers.len(),
{
    if offers.len() == 0 {
        0
    } else {
        accepted_count(offers.drop_last()) + if offers.last().2 {
            1nat
        } else {
            0nat
        }
    }
}

/// One step of delivering an event through a registry.
#[derive(Debug, Clone, Copy, PartialEq, Eq)]
pub enum DeliveryStep {
    /// Run the handler at this position with the event; a handler that
    /// fails is reported and stops no later step.
    RunHandler(usize),
    /// Hand the event to the oldest live waiter (`notify_one_waiter`).
    NotifyOldestWaiter,
}

/// The steps of delivering one event to a registry with `n` handlers: every
/// handler in registration order, then the waiter.
pub open spec fn delivery_steps(n: nat) -> Seq<DeliveryStep> {
    Seq::new(n, |i: int| DeliveryStep::RunHandler(i as usize)).push(DeliveryStep::NotifyOldestWaiter)
}

/// What `notify_one_waiter` does: handlers and name stay; the first `k`
/// waiters of the queue are offered `value`, oldest first, and leave it;
/// every offer is refused but the last, which took the value exactly when
/// `delivered`; when nobody took it every waiter was offered; the offers
/// are appended to the offer log.
pub open spec fn one_waiter_notified<T, H>(
    before: EventRegistry<T, H>,
    after: EventRegistry<T, H>,
    value: T,
    delivered: bool,
) -> bool {
    let k = after.offer_log().len() - before.offer_log().len();
    let made = after.offer_log().subrange(
        before.offer_log().len() as int,
        after.offer_log().len() as int,
    );
    &&& after.handler_seq() == before.handler_seq()
    &&& after.event_name() == before.event_name()
    &&& before.waiter_seq().len() == 0 ==> !delivered
    &&& after.offer_log().len() >= before.offer_log().len()
    &&& after.offer_log().subrange(0, before.offer_log().len() as int) == before.offer_log()
    &&& k <= before.waiter_seq().len()
    &&& after.waiter_seq() == before.waiter_seq().subrange(k, before.waiter_seq().len() as int)
    &&& forall|i: int|
        0 <= i < k ==> #[trigger] made[i] == (before.waiter_seq()[i], value, delivered && i == k
            - 1)
    &&& delivered ==> k >= 1
    &&& !delivered ==> k == before.waiter_seq().len()
}

/// Handlers and one-shot waiters for a single event.
#[verifier::reject_recursive_types(T)]
pub struct EventRegistry<T, H> {
    name: &'static str,
    handlers: Vec<H>,
    waiters: VecDeque<Sender<T>>,
    offers: Ghost<Seq<Offer<T>>>,
}

impl<T, H> EventRegistry<T, H> {
    /// The registered handlers, in registration order.
    pub closed spec fn handler_seq(&self) -> Seq<H> {
        self.handlers@
    }

    /// The pending waiters, oldest first.
    pub closed spec fn waiter_seq(&self) -> Seq<Sender<T>> {
        self.waiters@
    }

    /// The protocol event name.
    pub closed spec fn event_name(&self) -> Seq<char> {
        self.name@
    }

    /// Every offer made to a waiter so far, in the order made.
    pub closed spec fn offer_log(&self) -> Seq<Offer<T>> {
        self.offers@
    }

    /// Takes the oldest waiter out of the queue.
    fn pop_oldest(&mut self) -> (r: Option<Sender<T>>)
        ensures
            old(self).waiter_seq().len() == 0 ==> r is None && final(self).waiter_seq()
                == old(self).waiter_seq(),
            old(self).waiter_seq().len() > 0 ==> r == Some(old(self).waiter_seq().first())
                && final(self).waiter_seq() == old(self).waiter_seq().drop_first(),
            final(self).handler_seq() == old(self).handler_seq(),
            final(self).event_name() == old(self).event_name(),
            final(self).offer_log() == old(self).offer_log(),
    {
        let r = self.waiters.pop_front();
        proof {
            if old(self).waiters@.len() > 0 {
                assert(self.waiters@ =~= old(self).waiters@.drop_first());
            }
        }
        r
    }

    /// A registry for the event `name`, with no handlers and no waiters.
    pub fn new(name: &'static str) -> (r: Self)
        ensures
            r.event_name() == name@,
            r.handler_seq().len() == 0,
            r.waiter_seq().len() == 0,
            r.offer_log().len() == 0,
    {
        EventRegistry { name, handlers: Vec::new(), waiters: VecDeque::new(), offers: Ghost(Seq::empty()) }
    }

    /// Whether nobody is listening: no handler and no waiter.
    pub fn is_idle(&self) -> (r: bool)
        ensures
            r == (self.handler_seq().len() == 0 && self.waiter_seq().len() == 0),
    {
        self.handlers.len() == 0 && self.waiters.len() == 0
    }

    /// Registers a handler after the existing ones.
    pub fn add_handler(&mut self, handler: H)
        ensures
            final(self).handler_seq() == old(self).handler_seq().push(handler),
            final(self).waiter_seq() == old(self).waiter_seq(),
            final(self).event_name() == old(self).event_name(),
            final(self).offer_log() == old(self).offer_log(),
    {
        self.handlers.push(handler);
    }

    /// Enqueues a one-shot waiter behind the existing ones and hands back its
    /// receiver.
    pub fn wait(&mut self) -> (r: Receiver<T>)
        ensures
            final(self).handler_seq() == old(self).handler_seq(),
            final(self).waiter_seq().len() == old(self).waiter_seq().len() + 1,
            final(self).waiter_seq().subrange(0, old(self).waiter_seq().len() as int)
                == old(self).waiter_seq(),
            final(self).event_name() == old(self).event_name(),
            final(self).offer_log() == old(self).offer_log(),
    {
        let (tx, rx) = oneshot_channel();
        self.waiters.push_back(tx);
        assert(self.waiters@.subrange(0, old(self).waiters@.len() as int) =~= old(self).waiters@);
        rx
    }

    /// The protocol event name.
    pub fn name(&self) -> (r: &'static str)
        ensures
            r@ == self.event_name(),
    {
        self.name
    }

    /// Number of registered handlers.
    pub fn handler_count(&self) -> (r: usize)
        ensures
            r == self.handler_seq().len(),
    {
        self.handlers.len()
    }

    /// Number of pending waiters.
    pub fn waiter_count(&self) -> (r: usize)
        ensures
            r == self.waiter_seq().len(),
    {
        self.waiters.len()
    }

    /// How to deliver one event: every registered handler in registration
    /// order, each after the previous one finished, then the oldest waiter.
    pub fn delivery_plan(&self) -> (r: Vec<DeliveryStep>)
        ensures
            r@ == delivery_steps(self.handler_seq().len()),
    {
        let n = self.handlers.len();
        let mut steps: Vec<DeliveryStep> = Vec::new();
        let mut i: usize = 0;
        while i < n
            invariant
                i <= n,
                n == self.handlers@.len(),
                steps@ == Seq::new(i as nat, |j: int| DeliveryStep::RunHandler(j as usize)),
            decreases n - i,
        {
            steps.push(DeliveryStep::RunHandler(i));
            assert(steps@ =~= Seq::new((i + 1) as nat, |j: int| DeliveryStep::RunHandler(j as usize)));
            i = i + 1;
        }
        steps.push(DeliveryStep::NotifyOldestWaiter);
        steps
    }

    /// The registered handlers, to run for an event.
    pub fn handlers(&self) -> (r: &Vec<H>)
        ensures
            r@ == self.handler_seq(),
    {
        &self.handlers
    }

    /// Hands `value` to the oldest waiter whose receiver is still alive.
    ///
    /// Waiters are offered `value` oldest first and each one offered leaves
    /// the queue, whether or not it took the value; the offers stop at the
    /// first waiter that takes it. Returns whether some waiter took it. The
    /// offers made are appended to the offer log: the first `k` waiters of
    /// the queue, each with `value`, all refused but the last, which took the
    /// value exactly when `delivered`; when nobody took it, every waiter was
    /// offered. Handlers are never touched.
    pub fn notify_one_waiter(&mut self, value: T) -> (delivered: bool)
        ensures
            one_waiter_notified(*old(self), *final(self), value, delivered),
    {
        let ghost orig = self.waiters@;
        let ghost log0 = self.offers@;
        let ghost mut k: int = 0;
        let mut v = value;
        assert(orig.subrange(0, orig.len() as int) =~= orig);
        loop
            invariant
                0 <= k <= orig.len(),
                self.waiters@ == orig.subrange(k, orig.len() as int),
                self.handlers@ == old(self).handlers@,
                self.name@ == old(self).name@,
                orig == old(self).waiters@,
                log0 == old(self).offers@,
                v == value,
                self.offers@.len() == log0.len() + k,
                self.offers@.subrange(0, log0.len() as int) == log0,
                forall|i: int|
                    0 <= i < k ==> #[trigger] self.offers@[log0.len() + i] == (orig[i], value, false),
            decreases self.waiters@.len(),
        {
            let ghost before = self.offers@;
            match self.pop_oldest() {
                None => {
                    assert(k == orig.len());
                    proof {
                        let made = self.offers@.subrange(log0.len() as int, self.offers@.len() as int);
                        assert forall|i: int| 0 <= i < k implies #[trigger] made[i] == (
                            orig[i],
                            value,
                            false && i == k - 1,
                        ) by {
                            assert(made[i] == self.offers@[log0.len() + i]);
                        }
                    }
                    return false;
                },
                Some(tx) => {
                    assert(tx == orig[k]);
                    let ghost sender = tx;
                    let outcome = oneshot_send(tx, v);
                    let accepted = outcome.is_ok();
                    proof {
                        self.offers@ = self.offers@.push((sender, value, accepted));
                        k = k + 1;
                        assert(self.offers@.subrange(0, log0.len() as int) =~= log0);
                        assert(self.waiters@ =~= orig.subrange(k, orig.len() as int));
                        assert forall|i: int| 0 <= i < k - 1 implies #[trigger] self.offers@[log0.len() + i]
                            == (orig[i], value, false) by {
                            assert(self.offers@[log0.len() + i] == before[log0.len() + i]);
                        }
                    }
                    match after_offer(outcome) {
                        None => {
                            proof {
                                let made = self.offers@.subrange(log0.len() as int, self.offers@.len() as int);
                                assert forall|i: int| 0 <= i < k implies #[trigger] made[i] == (
                                    orig[i],
                                    value,
                                    true && i == k - 1,
                                ) by {
                                    assert(made[i] == self.offers@[log0.len() + i]);
                                }
                            }
                            return true;
                        },
                        Some(back) => {
                            v = back;
                        },
                    }
                },
            }
        }
    }
}
impl<T: Clone, H> EventRegistry<T, H> {
    /// Hands a copy of `value` to every pending waiter, for one-time
    /// transitions (close, load, crash) that all waiters must see. Every
    /// waiter, oldest first, is offered its own clone of `value` and leaves
    /// the queue; the offers are appended to the offer log, and the result
    /// is how many of them were taken.
    pub fn notify_all_waiters(&mut self, value: T) -> (delivered: usize)
        ensures
            final(self).handler_seq() == old(self).handler_seq(),
            final(self).event_name() == old(self).event_name(),
            final(self).waiter_seq().len() == 0,
            final(self).offer_log().len() == old(self).offer_log().len()
                + old(self).waiter_seq().len(),
            final(self).offer_log().subrange(0, old(self).offer_log().len() as int)
                == old(self).offer_log(),
            ({
                let made = final(self).offer_log().subrange(
                    old(self).offer_log().len() as int,
                    final(self).offer_log().len() as int,
                );
                &&& forall|i: int|
                    0 <= i < made.len() ==> #[trigger] made[i].0 == old(self).waiter_seq()[i]
                        && cloned(value, made[i].1)
                &&& delivered == accepted_count(made)
            }),
    {
        let ghost orig = self.waiters@;
        let ghost log0 = self.offers@;
        let ghost mut k: int = 0;
        let n = self.waiters.len();
        let mut delivered: usize = 0;
        assert(orig.subrange(0, orig.len() as int) =~= orig);
        assert(self.offers@.subrange(log0.len() as int, self.offers@.len() as int) =~= Seq::<Offer<T>>::empty());
        loop
            invariant
                0 <= k <= orig.len(),
                self.waiters@ == orig.subrange(k, orig.len() as int),
                self.handlers@ == old(self).handlers@,
                self.name@ == old(self).name@,
                orig == old(self).waiters@,
                log0 == old(self).offers@,
                self.offers@.len() == log0.len() + k,
                self.offers@.subrange(0, log0.len() as int) == log0,
                forall|i: int|
                    0 <= i < k ==> #[trigger] self.offers@[log0.len() + i].0 == orig[i]
                        && cloned(value, self.offers@[log0.len() + i].1),
                delivered == accepted_count(
                    self.offers@.subrange(log0.len() as int, self.offers@.len() as int),
                ),
                delivered <= k,
                n == orig.len(),
            ensures
                k == orig.len(),
                self.waiters@.len() == 0,
                self.handlers@ == old(self).handlers@,
                self.name@ == old(self).name@,
                self.offers@.len() == log0.len() + k,
                self.offers@.subrange(0, log0.len() as int) == log0,
                forall|i: int|
                    0 <= i < k ==> #[trigger] self.offers@[log0.len() + i].0 == orig[i]
                        && cloned(value, self.offers@[log0.len() + i].1),
                delivered == accepted_count(
                    self.offers@.subrange(log0.len() as int, self.offers@.len() as int),
                ),
            decreases self.waiters@.len(),
        {
            let ghost before = self.offers@;
            match self.pop_oldest() {
                None => {
                    break;
                },
                Some(tx) => {
                    assert(tx == orig[k]);
                    let ghost sender = tx;
                    let copy = value.clone();
                    let ghost copied = copy;
                    let accepted = oneshot_send(tx, copy).is_ok();
                    proof {
                        self.offers@ = self.offers@.push((sender, copied, accepted));
                        k = k + 1;
                        assert(self.offers@.subrange(0, log0.len() as int) =~= log0);
                        assert(self.waiters@ =~= orig.subrange(k, orig.len() as int));
                        assert forall|i: int| 0 <= i < k - 1 implies #[trigger] self.offers@[log0.len()
                            + i].0 == orig[i] && cloned(value, self.offers@[log0.len() + i].1) by {
                            assert(self.offers@[log0.len() + i] == before[log0.len() + i]);
                            assert(before[log0.len() + i].0 == orig[i] && cloned(
                                value,
                                before[log0.len() + i].1,
                            ));
                        }
                        let made = self.offers@.subrange(log0.len() as int, self.offers@.len() as int);
                        assert(made.drop_last() =~= before.subrange(log0.len() as int, before.len() as int));
                        assert(made.last() == (sender, copied, accepted));
                    }
                    if accepted {
                        delivered = delivered + 1;
                    }
                },
            }
        }
        proof {
            let made = self.offers@.subrange(log0.len() as int, self.offers@.len() as int);
            assert forall|i: int| 0 <= i < made.len() implies #[trigger] made[i].0
                == old(self).waiters@[i] && cloned(value, made[i].1) by {
                assert(made[i] == self.offers@[log0.len() + i]);
                assert(self.offers@[log0.len() + i].0 == orig[i] && cloned(value, self.offers@[log0.len() + i].1));
            }
        }
        delivered
    }
}

} // verus!
