//! A channel with two lanes: an unbounded high-priority lane, and a
//! low-priority lane that is bounded or not. The receiver hands out any
//! waiting high-priority message before a low-priority one; a low-priority
//! message taken just before a high-priority one arrived waits in a
//! one-message slot and comes next.
//!
//! The lanes are flume channels, shared with other threads; what they hold
//! at a given moment is theirs to say. The receiver's own bookkeeping, the
//! slot, is what the contracts here speak of.

use crate::queue::{lane_send, unbounded_lane};
use flume::{Receiver as LaneReceiver, Sender as LaneSender};
use vstd::prelude::*;

verus! {

/// The capacity of the low-priority lane.
#[derive(Clone, Copy, Debug)]
pub enum QueueCapacity {
    Bounded(usize),
    Unbounded,
}

/// Why a send failed.
#[derive(Clone, Copy, Debug, PartialEq, Eq, Structural)]
pub enum SendError {
    /// The receiver is gone.
    Disconnected,
    /// The lane is full.
    Full,
}

/// Why a send that does not wait failed; a full lane hands the message back.
#[derive(Debug)]
pub enum TrySendError<M> {
    Disconnected,
    Full(M),
}

/// Why nothing was received.
#[derive(Clone, Copy, Debug, PartialEq, Eq, Structural)]
pub enum RecvError {
    /// Nothing is waiting now.
    NoMessageAvailable,
    /// Every low-priority sender is gone and nothing is left.
    Disconnected,
}

impl SendError {
    /// The text of the error.
    pub open spec fn text(self) -> Seq<char> {
        match self {
            SendError::Disconnected => "the channel is closed"@,
            SendError::Full => "the channel is full"@,
        }
    }

    pub fn message(&self) -> (r: &'static str)
        ensures
            r@ == self.text(),
    {
        match self {
            SendError::Disconnected => "the channel is closed",
            SendError::Full => "the channel is full",
        }
    }
}

impl RecvError {
    /// The text of the error.
    pub open spec fn text(self) -> Seq<char> {
        match self {
            RecvError::NoMessageAvailable => "no message are currently available"@,
            RecvError::Disconnected => "all senders were dropped and no pending messages are in the channel"@,
        }
    }

    pub fn message(&self) -> (r: &'static str)
        ensures
            r@ == self.text(),
    {
        match self {
            RecvError::NoMessageAvailable => "no message are currently available",
            RecvError::Disconnected => "all senders were dropped and no pending messages are in the channel",
        }
    }
}

/// Relies on `flume::bounded`: a new channel that holds at most `cap`
/// messages.
#[verifier::external_body]
fn bounded_lane<T>(cap: usize) -> (LaneSender<T>, LaneReceiver<T>) {
    flume::bounded(cap)
}

/// Relies on `flume::Sender::try_send`: it does not wait; a full lane hands
/// the same message back.
#[verifier::external_body]
fn lane_try_send<T>(tx: &LaneSender<T>, msg: T) -> (r: Result<(), TrySendError<T>>)
    ensures
        r matches Err(TrySendError::Full(m)) ==> m == msg,
{
    match tx.try_send(msg) {
        Ok(()) => Ok(()),
        Err(flume::TrySendError::Full(m)) => Err(TrySendError::Full(m)),
        Err(flume::TrySendError::Disconnected(_)) => Err(TrySendError::Disconnected),
    }
}

/// Relies on `flume::Receiver::try_recv`: a waiting message, or whether the
/// lane is empty or empty with every sender gone.
#[verifier::external_body]
fn lane_try_recv<T>(rx: &LaneReceiver<T>) -> Result<T, RecvError> {
    match rx.try_recv() {
        Ok(m) => Ok(m),
        Err(flume::TryRecvError::Empty) => Err(RecvError::NoMessageAvailable),
        Err(flume::TryRecvError::Disconnected) => Err(RecvError::Disconnected),
    }
}

/// Relies on `flume::Sender::is_disconnected`: whether every receiver is gone.
#[verifier::external_body]
fn lane_receivers_gone<T>(tx: &LaneSender<T>) -> bool {
    tx.is_disconnected()
}

/// Relies on `flume::Receiver::is_disconnected`: whether every sender is gone.
#[verifier::external_body]
fn lane_senders_gone<T>(rx: &LaneReceiver<T>) -> bool {
    rx.is_disconnected()
}

/// Relies on `flume::Receiver::is_empty`: whether nothing waits now.
#[verifier::external_body]
fn lane_is_empty<T>(rx: &LaneReceiver<T>) -> bool {
    rx.is_empty()
}

/// Relies on `flume::Receiver::drain`: takes every message waiting now.
#[verifier::external_body]
fn lane_drain<T>(rx: &LaneReceiver<T>) -> Vec<T> {
    rx.drain().collect()
}

/// Relies on `flume::Receiver::drain`: the messages waiting now are taken
/// out and dropped. It opens no invariant of this crate, and does not
/// unwind: flume takes the lane's lock with `lock().unwrap()`, which panics
/// only when another thread panicked while holding it (assumed not to
/// happen), and the messages' own drops are assumed not to panic.
#[verifier::external_body]
fn lane_discard<T>(rx: &LaneReceiver<T>)
    opens_invariants none
    no_unwind
{
    rx.drain();
}

/// A slot for at most one value.
pub struct LockedOption<T> {
    opt: Option<T>,
}

impl<T> LockedOption<T> {
    pub closed spec fn view(&self) -> Option<T> {
        self.opt
    }

    pub fn none() -> (r: Self)
        ensures
            r.view() is None,
    {
        LockedOption { opt: None }
    }

    pub fn is_some(&self) -> (r: bool)
        ensures
            r == self.view() is Some,
    {
        self.opt.is_some()
    }

    pub fn is_none(&self) -> (r: bool)
        ensures
            r == self.view() is None,
    {
        !self.is_some()
    }

    /// Empties the slot and returns what it held.
    pub fn take(&mut self) -> (r: Option<T>)
        ensures
            r == old(self).view(),
            final(self).view() is None,
    {
        if self.opt.is_none() {
            return None;
        }
        self.opt.take()
    }

    /// Puts `val` in the slot.
    pub fn place(&mut self, val: T)
        ensures
            final(self).view() == Some(val),
    {
        self.opt = Some(val);
    }
}

/// Creates a channel with the ability to send high priority messages.
///
/// A high priority message is consumed before any low priority message
/// sent after it.
pub fn channel<T>(queue_capacity: QueueCapacity) -> (r: (Sender<T>, Receiver<T>))
    ensures
        r.1.pending() is None,
        r.0.high_handed().len() == 0,
        r.0.low_handed().len() == 0,
{
    let (high_priority_tx, high_priority_rx) = unbounded_lane();
    let (low_priority_tx, low_priority_rx) = match queue_capacity {
        QueueCapacity::Bounded(cap) => bounded_lane(cap),
        QueueCapacity::Unbounded => unbounded_lane(),
    };
    let receiver = Receiver {
        low_priority_rx,
        high_priority_rx,
        _high_priority_tx: high_priority_tx.clone(),
        pending_low_priority_message: LockedOption::none(),
    };
    let sender = Sender {
        low_priority_tx,
        high_priority_tx,
        high_handed: Ghost(Seq::empty()),
        low_handed: Ghost(Seq::empty()),
    };
    (sender, receiver)
}

/// The sending end of a priority channel. It records the messages it handed
/// to each lane through `send_high_priority` and `try_send_low_priority`.
#[verifier::reject_recursive_types(T)]
pub struct Sender<T> {
    low_priority_tx: LaneSender<T>,
    high_priority_tx: LaneSender<T>,
    high_handed: Ghost<Seq<T>>,
    low_handed: Ghost<Seq<T>>,
}

impl<T> Sender<T> {
    /// The messages handed to the high-priority lane, in order.
    pub closed spec fn high_handed(&self) -> Seq<T> {
        self.high_handed@
    }

    /// The messages handed to the low-priority lane, in order.
    pub closed spec fn low_handed(&self) -> Seq<T> {
        self.low_handed@
    }

    /// Whether the receiver is gone.
    pub fn is_disconnected(&self) -> bool {
        lane_receivers_gone(&self.low_priority_tx)
    }

    /// Hands `msg` to the low-priority lane without waiting; a full lane
    /// hands the message back.
    pub fn try_send_low_priority(&mut self, msg: T) -> (r: Result<(), TrySendError<T>>)
        ensures
            final(self).low_handed() == old(self).low_handed().push(msg),
            final(self).high_handed() == old(self).high_handed(),
            r matches Err(TrySendError::Full(m)) ==> m == msg,
    {
        let ghost m = msg;
        let r = lane_try_send(&self.low_priority_tx, msg);
        self.low_handed = Ghost(self.low_handed@.push(m));
        r
    }

    /// Hands `msg` to the high-priority lane, which has no bound; it fails
    /// only when the receiver is gone.
    pub fn send_high_priority(&mut self, msg: T) -> (r: Result<(), SendError>)
        ensures
            final(self).high_handed() == old(self).high_handed().push(msg),
            final(self).low_handed() == old(self).low_handed(),
            r is Err ==> r == Err::<(), SendError>(SendError::Disconnected),
    {
        let ghost m = msg;
        let sent = lane_send(&self.high_priority_tx, msg);
        self.high_handed = Ghost(self.high_handed@.push(m));
        match sent {
            Ok(()) => Ok(()),
            Err(_) => Err(SendError::Disconnected),
        }
    }

    /// The low-priority lane, for sends that wait for room.
    pub fn low_priority_lane(&self) -> &LaneSender<T> {
        &self.low_priority_tx
    }
}

/// The receiving end of a priority channel. It holds a sender of the
/// high-priority lane, so that lane never reports disconnection.
#[verifier::reject_recursive_types(T)]
pub struct Receiver<T> {
    low_priority_rx: LaneReceiver<T>,
    high_priority_rx: LaneReceiver<T>,
    _high_priority_tx: LaneSender<T>,
    pending_low_priority_message: LockedOption<T>,
}

impl<T> Receiver<T> {
    /// The low-priority message waiting in the slot, if any.
    pub closed spec fn pending(&self) -> Option<T> {
        self.pending_low_priority_message.view()
    }

    /// Whether both lanes and the slot are empty.
    pub fn is_empty(&self) -> (r: bool)
        ensures
            r ==> self.pending() is None,
    {
        lane_is_empty(&self.low_priority_rx) && self.pending_low_priority_message.is_none()
            && lane_is_empty(&self.high_priority_rx)
    }

    /// The outcome of a look at the high-priority lane. `first` is what the
    /// lane gave. When it gave nothing, `low_closed` says whether every
    /// low-priority sender is gone; only then is `retry` the outcome of a
    /// second look, for a message that came in meanwhile.
    pub fn high_outcome(
        first: Result<T, RecvError>,
        low_closed: bool,
        retry: Option<Result<T, RecvError>>,
    ) -> (r: Result<T, RecvError>)
        ensures
            match first {
                Ok(h) => r == Ok::<T, RecvError>(h),
                Err(_) => if !low_closed {
                    r == Err::<T, RecvError>(RecvError::NoMessageAvailable)
                } else {
                    match retry {
                        Some(Ok(h)) => r == Ok::<T, RecvError>(h),
                        _ => r == Err::<T, RecvError>(RecvError::Disconnected),
                    }
                },
            },
    {
        match first {
            Ok(h) => Ok(h),
            Err(_) => {
                if !low_closed {
                    Err(RecvError::NoMessageAvailable)
                } else {
                    match retry {
                        Some(Ok(h)) => Ok(h),
                        _ => Err(RecvError::Disconnected),
                    }
                }
            },
        }
    }

    /// What is ready without the low-priority lane, given what the
    /// high-priority lane gave: a high-priority message first, else the one
    /// in the slot, which is emptied.
    pub fn ready_with(&mut self, high: Result<T, RecvError>) -> (r: Option<T>)
        ensures
            match high {
                Ok(h) => r == Some(h) && final(self).pending() == old(self).pending(),
                Err(_) => r == old(self).pending() && final(self).pending() is None,
            },
    {
        match high {
            Ok(h) => Some(h),
            Err(_) => self.pending_low_priority_message.take(),
        }
    }

    /// A low-priority message `low` was taken with the slot empty, and `high`
    /// is what the high-priority lane gave next. A high-priority message is
    /// returned first and `low` waits in the slot; otherwise `low` is
    /// returned.
    pub fn settle_with(&mut self, low: T, high: Result<T, RecvError>) -> (r: T)
        requires
            old(self).pending() is None,
        ensures
            match high {
                Ok(h) => r == h && final(self).pending() == Some(low),
                Err(_) => r == low && final(self).pending() is None,
            },
    {
        match high {
            Ok(h) => {
                self.pending_low_priority_message.place(low);
                h
            },
            Err(_) => low,
        }
    }

    /// Every low-priority sender is gone and `high` is what the
    /// high-priority lane gave: a last high-priority message is still
    /// returned, else `Disconnected`.
    pub fn closed_with(high: Result<T, RecvError>) -> (r: Result<T, RecvError>)
        ensures
            match high {
                Ok(h) => r == Ok::<T, RecvError>(h),
                Err(_) => r == Err::<T, RecvError>(RecvError::Disconnected),
            },
    {
        match high {
            Ok(h) => Ok(h),
            Err(_) => Err(RecvError::Disconnected),
        }
    }

    /// The outcome of a receive after nothing was ready, given what the
    /// low-priority lane gave (`low`) and, when it gave a message or
    /// reported every sender gone, what the high-priority lane gave next
    /// (`high_after`).
    pub fn after_low_with(
        &mut self,
        low: Result<T, RecvError>,
        high_after: Option<Result<T, RecvError>>,
    ) -> (r: Result<T, RecvError>)
        requires
            old(self).pending() is None,
        ensures
            match low {
                Ok(l) => match high_after {
                    Some(Ok(h)) => r == Ok::<T, RecvError>(h) && final(self).pending() == Some(l),
                    _ => r == Ok::<T, RecvError>(l) && final(self).pending() is None,
                },
                Err(RecvError::Disconnected) => final(self).pending() is None && match high_after {
                    Some(Ok(h)) => r == Ok::<T, RecvError>(h),
                    _ => r == Err::<T, RecvError>(RecvError::Disconnected),
                },
                Err(RecvError::NoMessageAvailable) => r == Err::<T, RecvError>(
                    RecvError::NoMessageAvailable,
                ) && final(self).pending() is None,
            },
    {
        match low {
            Ok(l) => match high_after {
                Some(high) => Ok(self.settle_with(l, high)),
                None => Ok(l),
            },
            Err(RecvError::Disconnected) => match high_after {
                Some(high) => Self::closed_with(high),
                None => Err(RecvError::Disconnected),
            },
            Err(RecvError::NoMessageAvailable) => Err(RecvError::NoMessageAvailable),
        }
    }

    /// A waiting high-priority message. With none waiting, reports
    /// `Disconnected` once every low-priority sender is gone (after a second
    /// look at the high-priority lane), else `NoMessageAvailable`. The slot
    /// is not touched.
    pub fn try_recv_high_priority_message(&self) -> (r: Result<T, RecvError>) {
        let first = lane_try_recv(&self.high_priority_rx);
        let low_closed = match &first {
            Ok(_) => false,
            Err(_) => lane_senders_gone(&self.low_priority_rx),
        };
        let retry = match &first {
            Err(_) if low_closed => Some(lane_try_recv(&self.high_priority_rx)),
            _ => None,
        };
        Self::high_outcome(first, low_closed, retry)
    }

    /// Receives without waiting: a high-priority message first, then the
    /// one in the slot, then a low-priority one. A low-priority message that
    /// meets a newly arrived high-priority one goes into the slot. The
    /// decisions are those of `ready_with` and `after_low_with`, on what the
    /// lanes give.
    ///
    /// A message in the slot is never lost: it is returned, or it stays
    /// while a high-priority message is returned. Nothing is reported
    /// missing while the slot is full.
    pub fn try_recv(&mut self) -> (r: Result<T, RecvError>)
        ensures
            old(self).pending() matches Some(p) ==> (r == Ok::<T, RecvError>(p) && final(self).pending() is None) || (r is Ok && final(self).pending() == old(self).pending()),
            old(self).pending() is None && final(self).pending() is Some ==> r is Ok,
            r is Err ==> old(self).pending() is None && final(self).pending() is None,
    {
        let high = lane_try_recv(&self.high_priority_rx);
        if let Some(msg) = self.ready_with(high) {
            return Ok(msg);
        }
        let low = lane_try_recv(&self.low_priority_rx);
        let high_after = match &low {
            Err(RecvError::NoMessageAvailable) => None,
            _ => Some(lane_try_recv(&self.high_priority_rx)),
        };
        self.after_low_with(low, high_after)
    }

    /// What is ready without waiting for a lane: a high-priority message,
    /// else the one in the slot (see `ready_with`).
    pub fn take_ready(&mut self) -> (r: Option<T>)
        ensures
            old(self).pending() matches Some(p) ==> (r == Some(p) && final(self).pending() is None)
                || (r is Some && final(self).pending() == old(self).pending()),
            old(self).pending() is None ==> final(self).pending() is None,
    {
        let high = self.try_recv_high_priority_message();
        self.ready_with(high)
    }

    /// A low-priority message `low` was just taken with the slot empty. If
    /// a high-priority message has arrived meanwhile, it is returned and
    /// `low` goes into the slot; otherwise `low` is returned (see
    /// `settle_with`).
    pub fn settle_low_priority(&mut self, low: T) -> (r: T)
        requires
            old(self).pending() is None,
        ensures
            r == low && final(self).pending() is None || final(self).pending() == Some(low),
    {
        let high = self.try_recv_high_priority_message();
        self.settle_with(low, high)
    }

    /// Every low-priority sender is gone: a last high-priority message is
    /// still returned, else `Disconnected` (see `closed_with`).
    pub fn settle_disconnected(&mut self) -> (r: Result<T, RecvError>)
        ensures
            r is Err ==> r == Err::<T, RecvError>(RecvError::Disconnected),
            final(self).pending() == old(self).pending(),
    {
        let high = lane_try_recv(&self.high_priority_rx);
        Self::closed_with(high)
    }

    /// Takes every low-priority message waiting now.
    pub fn drain_low_priority(&self) -> Vec<T> {
        lane_drain(&self.low_priority_rx)
    }

    /// The high-priority lane, for receives that wait.
    pub fn high_priority_lane(&self) -> &LaneReceiver<T> {
        &self.high_priority_rx
    }

    /// The low-priority lane, for receives that wait.
    pub fn low_priority_lane(&self) -> &LaneReceiver<T> {
        &self.low_priority_rx
    }
}

impl<T> Drop for Receiver<T> {
    /// Releases the messages still in both lanes, even while senders live.
    fn drop(&mut self)
        opens_invariants none
        no_unwind
    {
        lane_discard(&self.high_priority_rx);
        lane_discard(&self.low_priority_rx);
    }
}

} // verus!
