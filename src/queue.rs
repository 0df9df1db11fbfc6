//! The outbound queues that hand decoded frames to the application: one per
//! connection and one for errors, all unbounded.

use crate::error::{is_other, other, Error};
use crate::operation::WebSocketChannelType;
use crate::response::WsResponseMessage;
use flume::{Receiver as LaneReceiver, SendError as LaneSendError, Sender as LaneSender};
use vstd::prelude::*;

verus! {

#[verifier::external_type_specification]
#[verifier::external_body]
#[verifier::reject_recursive_types(T)]
pub struct ExFlumeSender<T>(LaneSender<T>);

#[verifier::external_type_specification]
#[verifier::external_body]
#[verifier::reject_recursive_types(T)]
pub struct ExFlumeReceiver<T>(LaneReceiver<T>);

#[verifier::external_type_specification]
#[verifier::external_body]
#[verifier::reject_recursive_types(T)]
pub struct ExFlumeSendError<T>(LaneSendError<T>);

/// Relies on `Clone for flume::Sender`: another handle to the same channel.
pub assume_specification<T>[ <LaneSender<T> as core::clone::Clone>::clone ](
    tx: &LaneSender<T>,
) -> LaneSender<T>;

/// Relies on `flume::unbounded`: a new channel without a bound.
#[verifier::external_body]
pub(crate) fn unbounded_lane<T>() -> (LaneSender<T>, LaneReceiver<T>) {
    flume::unbounded()
}

/// Relies on `flume::Sender::send`: it fails only once every receiver is
/// gone; on an unbounded channel it never waits.
#[verifier::external_body]
pub(crate) fn lane_send<T>(tx: &LaneSender<T>, msg: T) -> Result<(), LaneSendError<T>> {
    tx.send(msg)
}

/// Relies on `flume::Sender::len`: the messages queued at the moment.
#[verifier::external_body]
fn lane_len<T>(tx: &LaneSender<T>) -> usize {
    tx.len()
}

/// The receiving ends of the outbound queues, handed to the application.
pub struct MessageQueueReceivers {
    pub public_receiver: LaneReceiver<WsResponseMessage>,
    pub private_receiver: LaneReceiver<WsResponseMessage>,
    pub business_receiver: LaneReceiver<WsResponseMessage>,
    pub error_receiver: LaneReceiver<WsResponseMessage>,
}

/// How many messages wait in each queue.
#[derive(Clone, Copy, Debug)]
pub struct MessageQueueState {
    pub public_queue_size: usize,
    pub private_queue_size: usize,
    pub business_queue_size: usize,
    pub error_queue_size: usize,
}

/// The sending end of one outbound queue, with a record of every message
/// handed to its channel, in order, whether or not a receiver was left to
/// take it.
#[derive(Clone)]
pub struct OutboundQueue {
    sender: LaneSender<WsResponseMessage>,
    handed: Ghost<Seq<WsResponseMessage>>,
}

impl OutboundQueue {
    /// The messages handed to this queue so far.
    pub closed spec fn handed(&self) -> Seq<WsResponseMessage> {
        self.handed@
    }

    /// The channel this queue sends on.
    pub closed spec fn lane(&self) -> LaneSender<WsResponseMessage> {
        self.sender
    }

    /// A queue sending on `sender`, with nothing handed yet.
    pub fn new(sender: LaneSender<WsResponseMessage>) -> (r: Self)
        ensures
            r.handed().len() == 0,
            r.lane() == sender,
    {
        OutboundQueue { sender, handed: Ghost(Seq::empty()) }
    }

    /// Hands `message` to the channel. Fails when every receiver is gone.
    pub fn send(&mut self, message: WsResponseMessage) -> (r: Result<(), Error>)
        ensures
            final(self).lane() == old(self).lane(),
            final(self).handed() == old(self).handed().push(message),
            r matches Err(e) ==> is_other(e, "sending on a closed channel"@),
    {
        let ghost m = message;
        let sent = lane_send(&self.sender, message);
        self.handed = Ghost(self.handed@.push(m));
        match sent {
            Ok(()) => Ok(()),
            Err(_) => Err(other("sending on a closed channel")),
        }
    }

    /// The channel this queue sends on.
    pub fn sender(&self) -> (r: &LaneSender<WsResponseMessage>)
        ensures
            *r == self.lane(),
    {
        &self.sender
    }

    /// The number of messages waiting in the channel.
    pub fn len(&self) -> usize {
        lane_len(&self.sender)
    }
}

/// The sending ends of the outbound queues.
#[derive(Clone)]
pub struct MessageQueueManager {
    pub public_queue: OutboundQueue,
    pub private_queue: OutboundQueue,
    pub business_queue: OutboundQueue,
    pub error_queue: OutboundQueue,
}

/// `after` is `before` with `m` handed to the queue of `kind` and nothing
/// else changed.
pub open spec fn handed_one(
    before: MessageQueueManager,
    after: MessageQueueManager,
    kind: WebSocketChannelType,
    m: WsResponseMessage,
) -> bool {
    &&& after.handed(kind) == before.handed(kind).push(m)
    &&& forall|k: WebSocketChannelType| k != kind ==> #[trigger] after.handed(k) == before.handed(k)
    &&& forall|k: WebSocketChannelType| #[trigger] after.sender(k) == before.sender(k)
}

/// The outcome of queueing `m` on `kind`: it was handed to that queue's
/// channel and nothing else changed; the only failure is that the
/// application had dropped the queue.
pub open spec fn queue_outcome(
    before: MessageQueueManager,
    after: MessageQueueManager,
    kind: WebSocketChannelType,
    m: WsResponseMessage,
    r: Result<(), Error>,
) -> bool {
    &&& handed_one(before, after, kind, m)
    &&& (r matches Err(e) ==> is_other(e, "sending on a closed channel"@))
}

impl MessageQueueManager {
    /// Four new queues: the senders, and the receivers for the application.
    pub fn new() -> (r: (Self, MessageQueueReceivers))
        ensures
            forall|k: WebSocketChannelType| #[trigger] r.0.handed(k).len() == 0,
    {
        let (public_sender, public_receiver) = unbounded_lane();
        let (private_sender, private_receiver) = unbounded_lane();
        let (business_sender, business_receiver) = unbounded_lane();
        let (error_sender, error_receiver) = unbounded_lane();
        (
            MessageQueueManager {
                public_queue: OutboundQueue::new(public_sender),
                private_queue: OutboundQueue::new(private_sender),
                business_queue: OutboundQueue::new(business_sender),
                error_queue: OutboundQueue::new(error_sender),
            },
            MessageQueueReceivers {
                public_receiver,
                private_receiver,
                business_receiver,
                error_receiver,
            },
        )
    }

    /// The queue of a kind of channel (`Error` has one of its own).
    pub open spec fn queue(&self, kind: WebSocketChannelType) -> OutboundQueue {
        match kind {
            WebSocketChannelType::Public => self.public_queue,
            WebSocketChannelType::Private => self.private_queue,
            WebSocketChannelType::Business => self.business_queue,
            WebSocketChannelType::Error => self.error_queue,
        }
    }

    /// The messages handed so far to the queue of a kind of channel.
    pub open spec fn handed(&self, kind: WebSocketChannelType) -> Seq<WsResponseMessage> {
        self.queue(kind).handed()
    }

    /// The channel of a kind's queue.
    pub open spec fn sender(&self, kind: WebSocketChannelType) -> LaneSender<WsResponseMessage> {
        self.queue(kind).lane()
    }

    pub fn get_sender(&self, channel_type: &WebSocketChannelType) -> (r: Result<
        &LaneSender<WsResponseMessage>,
        Error,
    >)
        ensures
            r == Ok::<&LaneSender<WsResponseMessage>, Error>(&self.sender(*channel_type)),
    {
        match channel_type {
            WebSocketChannelType::Public => Ok(self.public_queue.sender()),
            WebSocketChannelType::Private => Ok(self.private_queue.sender()),
            WebSocketChannelType::Business => Ok(self.business_queue.sender()),
            WebSocketChannelType::Error => Ok(self.error_queue.sender()),
        }
    }

    /// Queues `message` for the application on the queue of its kind
    /// (`Error` has a queue of its own). Fails when the application has
    /// dropped the receiving end.
    pub fn send_message(&mut self, channel_type: &WebSocketChannelType, message: WsResponseMessage) -> (r:
        Result<(), Error>)
        ensures
            queue_outcome(*old(self), *final(self), *channel_type, message, r),
    {
        match channel_type {
            WebSocketChannelType::Public => self.public_queue.send(message),
            WebSocketChannelType::Private => self.private_queue.send(message),
            WebSocketChannelType::Business => self.business_queue.send(message),
            WebSocketChannelType::Error => self.error_queue.send(message),
        }
    }

    /// The number of messages waiting in each queue.
    pub fn queue_sizes(&self) -> MessageQueueState {
        MessageQueueState {
            public_queue_size: self.public_queue.len(),
            private_queue_size: self.private_queue.len(),
            business_queue_size: self.business_queue.len(),
            error_queue_size: self.error_queue.len(),
        }
    }
}

} // verus!
