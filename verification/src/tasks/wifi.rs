//! Wi-Fi link management and the telemetry hand-off from the sensor
//! channel to the connection tasks.

use vstd::prelude::*;
use crate::events::SENSOR_CH_CAP;
use embassy_sync::pubsub::DynSubscriber;

verus! {

/// Pause before reconnecting after the link is lost or an attempt fails,
/// in seconds.
pub const RETRY_DELAY_SECS: u64 = 5;
/// Period of the telemetry hand-off, in seconds.
pub const TELEMETRY_PERIOD_SECS: u64 = 1;
/// Period of the HTTP upload, in seconds.
pub const HTTP_PERIOD_SECS: u64 = 10;
/// Endpoint the HTTP upload requests.
pub const API_URL: &'static str = "https://rickandmortyapi.com/api";

/// What the Wi-Fi task does after a connection attempt.
#[derive(Clone, Copy, Debug, PartialEq, Eq, Structural)]
pub enum WifiAction {
    /// The station is up: wait until it is disconnected, then reconnect.
    AwaitDisconnect,
    /// The station is not up: wait this many seconds, then try again.
    RetryAfter { secs: u64 },
}

pub open spec fn spec_after_connect(connected: Option<bool>) -> WifiAction {
    match connected {
        Some(true) => WifiAction::AwaitDisconnect,
        _ => WifiAction::RetryAfter { secs: RETRY_DELAY_SECS },
    }
}

/// The decision after a connection attempt, from the link state the radio
/// reports (`None` where it could not report one).
pub fn after_connect(connected: Option<bool>) -> (a: WifiAction)
    ensures
        a == spec_after_connect(connected),
{
    match connected {
        Some(true) => WifiAction::AwaitDisconnect,
        _ => WifiAction::RetryAfter { secs: RETRY_DELAY_SECS },
    }
}

/// Whether the radio must be configured and started before connecting:
/// unless it reports itself started.
pub fn needs_start(started: Option<bool>) -> (r: bool)
    ensures
        r == !(started == Some(true)),
{
    match started {
        Some(true) => false,
        _ => true,
    }
}

/// Readings taken off the sensor channel in one round: at most
/// [`SENSOR_CH_CAP`] of them, in the order they arrived.
pub struct Batch<T> {
    items: Vec<T>,
}

/// The batch after `m` is offered to one holding `b`: `m` is kept at the
/// end while there is room, and dropped once the batch is full.
pub open spec fn spec_offer<T>(b: Seq<T>, m: T) -> Seq<T> {
    if b.len() < SENSOR_CH_CAP {
        b.push(m)
    } else {
        b
    }
}

/// The batch after each of `ms` is offered in turn to an empty one.
pub open spec fn offer_all<T>(ms: Seq<T>) -> Seq<T>
    decreases ms.len(),
{
    if ms.len() == 0 {
        Seq::empty()
    } else {
        spec_offer(offer_all(ms.drop_last()), ms.last())
    }
}

impl<T> Batch<T> {
    #[verifier::type_invariant]
    spec fn within_capacity(self) -> bool {
        self.items@.len() <= SENSOR_CH_CAP
    }

    pub closed spec fn view(&self) -> Seq<T> {
        self.items@
    }

    pub fn new() -> (b: Self)
        ensures
            b.view() == Seq::<T>::empty(),
    {
        Batch { items: Vec::new() }
    }

    /// Keeps `m` if there is room (`true`) and drops it otherwise (`false`).
    pub fn offer(&mut self, m: T) -> (kept: bool)
        ensures
            final(self).view() == spec_offer(old(self).view(), m),
            kept == (old(self).view().len() < SENSOR_CH_CAP),
            final(self).view().len() <= SENSOR_CH_CAP,
    {
        proof {
            use_type_invariant(&*self);
        }
        if self.items.len() < SENSOR_CH_CAP {
            let mut items = Vec::new();
            std::mem::swap(&mut items, &mut self.items);
            items.push(m);
            self.items = items;
            true
        } else {
            false
        }
    }

    /// Takes one answer of the channel into account: a reading is offered
    /// to the batch, `None` means that nothing more is pending. Gives whether
    /// to ask the channel again: only after a reading, and while the batch
    /// has room.
    pub fn receive(&mut self, next: Option<T>) -> (more: bool)
        ensures
            next matches Some(m) ==> final(self).view() == spec_offer(old(self).view(), m),
            next is None ==> final(self).view() == old(self).view(),
            more == (next is Some && final(self).view().len() < SENSOR_CH_CAP),
            final(self).view().len() <= SENSOR_CH_CAP,
    {
        proof {
            use_type_invariant(&*self);
        }
        match next {
            Some(m) => {
                self.offer(m);
                !self.is_full()
            },
            None => false,
        }
    }

    pub fn len(&self) -> (n: usize)
        ensures
            n == self.view().len(),
            n <= SENSOR_CH_CAP,
    {
        proof {
            use_type_invariant(self);
        }
        self.items.len()
    }

    pub fn is_empty(&self) -> (r: bool)
        ensures
            r == (self.view().len() == 0),
    {
        self.items.len() == 0
    }

    /// Whether no further reading would be kept.
    pub fn is_full(&self) -> (r: bool)
        ensures
            r == (self.view().len() == SENSOR_CH_CAP),
    {
        proof {
            use_type_invariant(self);
        }
        self.items.len() == SENSOR_CH_CAP
    }

    /// The `i`-th reading kept.
    pub fn get(&self, i: usize) -> (m: &T)
        requires
            i < self.view().len(),
        ensures
            *m == self.view()[i as int],
    {
        &self.items[i]
    }

    /// The earliest reading kept, which the telemetry task forwards.
    pub fn first(&self) -> (m: Option<&T>)
        ensures
            self.view().len() == 0 ==> m is None,
            self.view().len() > 0 ==> m == Some(&self.view()[0]),
    {
        if self.items.len() == 0 {
            None
        } else {
            Some(&self.items[0])
        }
    }
}

#[verifier::external_type_specification]
#[verifier::external_body]
#[verifier::reject_recursive_types(T)]
pub struct ExDynSubscriber<'a, T: Clone>(DynSubscriber<'a, T>);

/// `embassy_sync::pubsub::Sub::try_next_message_pure` (reached through the
/// subscriber's `DerefMut`): the next message published on the channel that
/// this subscriber has not received, skipping lag notices, or `None` when
/// there is none now. What is pending depends on the other tasks, so
/// nothing is stated of the result.
#[verifier::external_body]
fn try_next_message<T: Clone>(sub: &mut DynSubscriber<'_, T>) -> Option<T> {
    sub.try_next_message_pure()
}

/// Takes the readings pending on `sub`, in the order they arrive, until
/// none is pending or [`SENSOR_CH_CAP`] have been taken; further ones stay
/// pending.
pub fn take_pending<T: Clone>(sub: &mut DynSubscriber<'_, T>) -> (b: Batch<T>)
    ensures
        b.view().len() <= SENSOR_CH_CAP,
{
    let mut b = Batch::new();
    let mut more = true;
    while more
        invariant
            b.view().len() <= SENSOR_CH_CAP,
            more ==> b.view().len() < SENSOR_CH_CAP,
        decreases 2 * (SENSOR_CH_CAP - b.view().len()) + (if more { 1int } else { 0int }),
    {
        let next = try_next_message(sub);
        more = b.receive(next);
    }
    b
}

/// Offering readings one by one to an empty batch keeps the first
/// [`SENSOR_CH_CAP`] of them, in order, and drops the rest.
pub proof fn lemma_batch_keeps_earliest<T>(ms: Seq<T>)
    ensures
        offer_all(ms) == ms.take(if ms.len() < SENSOR_CH_CAP { ms.len() as int } else { SENSOR_CH_CAP as int }),
    decreases ms.len(),
{
    if ms.len() == 0 {
        assert(ms.take(0) =~= Seq::<T>::empty());
    } else {
        let init = ms.drop_last();
        lemma_batch_keeps_earliest(init);
        if init.len() < SENSOR_CH_CAP {
            assert(init.take(init.len() as int).push(ms.last()) =~= ms.take(ms.len() as int));
        } else {
            assert(init.take(SENSOR_CH_CAP as int) =~= ms.take(SENSOR_CH_CAP as int));
        }
    }
}

/// A batch never holds more than [`SENSOR_CH_CAP`] readings, however many
/// are offered.
pub proof fn lemma_batch_bounded<T>(ms: Seq<T>)
    ensures
        offer_all(ms).len() <= SENSOR_CH_CAP,
{
    lemma_batch_keeps_earliest(ms);
}

} // verus!
