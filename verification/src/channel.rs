//! Per-client output streams that know when the client has gone away.
//!
//! A subscription owns one bounded output channel. The receiving side drains
//! it; tearing the channel down sends a one-shot disconnect signal, which ends
//! the subscription. A subscription is authorized once, streams while its
//! client is there, and ends either cancelled (the client went away) or with
//! its source closed (the chat shut down).

use crate::entities::message::Message;
use crate::entities::uuid::Uuid;
use crate::membership::rooms_read;
use crate::membership::CacheError;
use crate::membership::MembershipCache;
use vstd::prelude::*;

verus! {

/// How many items an output channel holds before it refuses more.
pub const OUTPUT_CHANNEL_CAPACITY: usize = 4;

/// The one-shot signal that says that a client has gone away.
#[derive(Clone, Copy, Debug, PartialEq, Eq, Structural)]
pub struct DisconnectSignal;

/// A bounded output channel with its disconnect signal. The signal is still
/// there until the channel is torn down; it is sent once, by the first
/// teardown.
#[derive(Debug)]
pub struct DisconnectChannel<T> {
    pub disconnect_tx: Option<DisconnectSignal>,
    pub grpc_rx: Vec<T>,
}

impl<T> DisconnectChannel<T> {
    /// Whether the channel can take one more item: it has not been torn down
    /// and is not full.
    pub open spec fn has_room(&self) -> bool {
        self.disconnect_tx is Some && self.grpc_rx@.len() < OUTPUT_CHANNEL_CAPACITY
    }

    /// An empty channel whose signal has not been sent.
    pub fn new() -> (channel: DisconnectChannel<T>)
        ensures
            channel.disconnect_tx is Some,
            channel.grpc_rx@.len() == 0,
    {
        DisconnectChannel { disconnect_tx: Some(DisconnectSignal), grpc_rx: Vec::new() }
    }

    /// Offers an item to the channel. A channel that is full or torn down
    /// hands the item back and stays as it was.
    pub fn try_send(&mut self, item: T) -> (refused: Option<T>)
        ensures
            final(self).disconnect_tx == old(self).disconnect_tx,
            old(self).has_room() ==> refused is None && final(self).grpc_rx@
                == old(self).grpc_rx@.push(item),
            !old(self).has_room() ==> refused == Some(item) && final(self).grpc_rx
                == old(self).grpc_rx,
    {
        if self.disconnect_tx.is_some() && self.grpc_rx.len() < OUTPUT_CHANNEL_CAPACITY {
            self.grpc_rx.push(item);
            None
        } else {
            Some(item)
        }
    }

    /// Takes the oldest waiting item, if there is one.
    pub fn poll_next(&mut self) -> (item: Option<T>)
        ensures
            final(self).disconnect_tx == old(self).disconnect_tx,
            old(self).grpc_rx@.len() == 0 ==> item is None && final(self).grpc_rx@
                == old(self).grpc_rx@,
            old(self).grpc_rx@.len() > 0 ==> item == Some(old(self).grpc_rx@[0])
                && final(self).grpc_rx@
                == old(self).grpc_rx@.subrange(1, old(self).grpc_rx@.len() as int),
    {
        if self.grpc_rx.len() == 0 {
            None
        } else {
            let item = self.grpc_rx.remove(0);
            Some(item)
        }
    }

    /// Tears the channel down. The first teardown hands out the disconnect
    /// signal; every later one hands out nothing.
    pub fn disconnect(&mut self) -> (signal: Option<DisconnectSignal>)
        ensures
            signal == old(self).disconnect_tx,
            final(self).disconnect_tx is None,
            final(self).grpc_rx == old(self).grpc_rx,
    {
        self.disconnect_tx.take()
    }
}

/// Where a subscription stands.
#[derive(Clone, Copy, Debug, PartialEq, Eq, Structural)]
pub enum StreamState {
    /// The caller's right to subscribe is being checked.
    Authorizing,
    /// Events are forwarded to the client.
    Streaming,
    /// The client went away.
    Cancelled,
    /// The chat shut down.
    SourceClosed,
}

impl StreamState {
    /// Whether nothing can follow this state.
    pub open spec fn is_terminal(&self) -> bool {
        *self == StreamState::Cancelled || *self == StreamState::SourceClosed
    }

    /// The state after the membership check: streaming if the caller is a
    /// member, cancelled if not. Only a subscription that is being
    /// authorized moves.
    pub fn authorized(self, member: bool) -> (next: StreamState)
        ensures
            next == (if self == StreamState::Authorizing {
                if member {
                    StreamState::Streaming
                } else {
                    StreamState::Cancelled
                }
            } else {
                self
            }),
    {
        match self {
            StreamState::Authorizing => if member {
                StreamState::Streaming
            } else {
                StreamState::Cancelled
            },
            _ => self,
        }
    }

    /// The state after the disconnect signal: a terminal state stays, every
    /// other becomes cancelled.
    pub fn cancelled(self) -> (next: StreamState)
        ensures
            next == (if self.is_terminal() {
                self
            } else {
                StreamState::Cancelled
            }),
    {
        match self {
            StreamState::Cancelled => StreamState::Cancelled,
            StreamState::SourceClosed => StreamState::SourceClosed,
            _ => StreamState::Cancelled,
        }
    }

    /// The state after the source has closed: a terminal state stays, every
    /// other ends with its source closed.
    pub fn source_closed(self) -> (next: StreamState)
        ensures
            next == (if self.is_terminal() {
                self
            } else {
                StreamState::SourceClosed
            }),
    {
        match self {
            StreamState::Cancelled => StreamState::Cancelled,
            StreamState::SourceClosed => StreamState::SourceClosed,
            _ => StreamState::SourceClosed,
        }
    }
}

/// What became of an item that was offered to a subscription.
#[derive(Clone, Copy, Debug, PartialEq, Eq, Structural)]
pub enum Delivery {
    /// The item is now waiting in the subscriber's output channel.
    Forwarded,
    /// The item is not for this subscriber.
    Skipped,
    /// The item was for this subscriber, but the output channel was full or
    /// torn down: it is lost for this subscriber only.
    Dropped,
    /// The subscription is not streaming.
    Ended,
}

/// A subscription to the messages of one room.
#[derive(Debug)]
pub struct RoomStream {
    pub id: u64,
    pub subscriber: Uuid,
    pub room: Uuid,
    pub state: StreamState,
    pub output: DisconnectChannel<Message>,
}

impl RoomStream {
    /// Whether a message is for this subscription: it is streaming, the
    /// message is of the subscribed room, and the subscriber is a member of
    /// that room now.
    pub open spec fn wants(&self, message: Message, rooms_now: Seq<Uuid>) -> bool {
        self.state == StreamState::Streaming && message.room_uuid == self.room
            && rooms_now.contains(message.room_uuid)
    }

    /// What an offer of a message does to a subscription: `self` is the
    /// subscription after the offer, `before` the one before it. The message
    /// is appended to the output if the subscription wants it and the channel
    /// has room; nothing else changes.
    pub open spec fn offered(&self, before: RoomStream, message: Message, rooms_now: Seq<Uuid>)
        -> bool {
        &&& self.id == before.id
        &&& self.subscriber == before.subscriber
        &&& self.room == before.room
        &&& self.state == before.state
        &&& self.output.disconnect_tx == before.output.disconnect_tx
        &&& self.output.grpc_rx@ == (if before.wants(message, rooms_now)
            && before.output.has_room() {
            before.output.grpc_rx@.push(message)
        } else {
            before.output.grpc_rx@
        })
    }

    /// A new subscription, not yet authorized, with an empty output.
    pub fn new(id: u64, subscriber: Uuid, room: Uuid) -> (stream: RoomStream)
        ensures
            stream.id == id,
            stream.subscriber == subscriber,
            stream.room == room,
            stream.state == StreamState::Authorizing,
            stream.output.disconnect_tx is Some,
            stream.output.grpc_rx@.len() == 0,
    {
        RoomStream {
            id,
            subscriber,
            room,
            state: StreamState::Authorizing,
            output: DisconnectChannel::new(),
        }
    }

    /// Offers a message to the subscription, together with what the read of
    /// its subscriber's rooms gave at this moment. A read that failed counts
    /// as no rooms: the message is then not for this subscriber.
    pub fn offer(&mut self, message: &Message, lookup: Result<Vec<Uuid>, CacheError>) -> (delivery:
        Delivery)
        ensures
            final(self).offered(*old(self), *message, rooms_read(lookup)),
            delivery == (if old(self).state != StreamState::Streaming {
                Delivery::Ended
            } else if !old(self).wants(*message, rooms_read(lookup)) {
                Delivery::Skipped
            } else if old(self).output.has_room() {
                Delivery::Forwarded
            } else {
                Delivery::Dropped
            }),
    {
        if self.state != StreamState::Streaming {
            return Delivery::Ended;
        }
        let rooms_now = MembershipCache::rooms_or_empty(lookup);
        if !(message.room_uuid == self.room && crate::membership::is_member(
            &rooms_now,
            message.room_uuid,
        )) {
            return Delivery::Skipped;
        }
        match self.output.try_send(message.clone()) {
            None => Delivery::Forwarded,
            Some(_) => Delivery::Dropped,
        }
    }

    /// The client went away: the channel is torn down and the subscription
    /// is cancelled, unless it had ended already.
    pub fn cancel(&mut self) -> (signal: Option<DisconnectSignal>)
        ensures
            signal == old(self).output.disconnect_tx,
            final(self).output.disconnect_tx is None,
            final(self).output.grpc_rx == old(self).output.grpc_rx,
            final(self).state == (if old(self).state.is_terminal() {
                old(self).state
            } else {
                StreamState::Cancelled
            }),
            final(self).id == old(self).id,
            final(self).subscriber == old(self).subscriber,
            final(self).room == old(self).room,
    {
        self.state = self.state.cancelled();
        self.output.disconnect()
    }
}

/// That a user was added to a room.
#[derive(Clone, Copy, Debug, PartialEq, Eq, Structural)]
pub struct MembershipChange {
    pub user_uuid: Uuid,
    pub room_uuid: Uuid,
}

/// A subscription to the events that concern one user.
#[derive(Debug)]
pub struct UserStream {
    pub id: u64,
    pub user: Uuid,
    pub state: StreamState,
    pub output: DisconnectChannel<MembershipChange>,
}

impl UserStream {
    /// Whether an event is for this subscription: it is streaming and the
    /// event concerns its user.
    pub open spec fn wants(&self, event: MembershipChange) -> bool {
        self.state == StreamState::Streaming && event.user_uuid == self.user
    }

    /// What an offer of an event does to a subscription: `self` is the
    /// subscription after the offer, `before` the one before it.
    pub open spec fn offered(&self, before: UserStream, event: MembershipChange) -> bool {
        &&& self.id == before.id
        &&& self.user == before.user
        &&& self.state == before.state
        &&& self.output.disconnect_tx == before.output.disconnect_tx
        &&& self.output.grpc_rx@ == (if before.wants(event) && before.output.has_room() {
            before.output.grpc_rx@.push(event)
        } else {
            before.output.grpc_rx@
        })
    }

    /// Whether this subscription is the other one as far as anyone can
    /// tell: the same identifier, user and state, the same signal, and the
    /// same items waiting.
    pub open spec fn same_as(&self, other: UserStream) -> bool {
        &&& self.id == other.id
        &&& self.user == other.user
        &&& self.state == other.state
        &&& self.output.disconnect_tx == other.output.disconnect_tx
        &&& self.output.grpc_rx@ == other.output.grpc_rx@
    }

    /// A new subscription, streaming at once, with an empty output.
    pub fn new(id: u64, user: Uuid) -> (stream: UserStream)
        ensures
            stream.id == id,
            stream.user == user,
            stream.state == StreamState::Streaming,
            stream.output.disconnect_tx is Some,
            stream.output.grpc_rx@.len() == 0,
    {
        UserStream { id, user, state: StreamState::Streaming, output: DisconnectChannel::new() }
    }

    /// Offers an event to the subscription.
    pub fn offer(&mut self, event: MembershipChange) -> (delivery: Delivery)
        ensures
            final(self).offered(*old(self), event),
            delivery == (if old(self).state != StreamState::Streaming {
                Delivery::Ended
            } else if !old(self).wants(event) {
                Delivery::Skipped
            } else if old(self).output.has_room() {
                Delivery::Forwarded
            } else {
                Delivery::Dropped
            }),
    {
        if self.state != StreamState::Streaming {
            return Delivery::Ended;
        }
        if event.user_uuid != self.user {
            return Delivery::Skipped;
        }
        match self.output.try_send(event) {
            None => Delivery::Forwarded,
            Some(_) => Delivery::Dropped,
        }
    }

    /// The client went away: the channel is torn down and the subscription
    /// is cancelled, unless it had ended already.
    pub fn cancel(&mut self) -> (signal: Option<DisconnectSignal>)
        ensures
            signal == old(self).output.disconnect_tx,
            final(self).output.disconnect_tx is None,
            final(self).output.grpc_rx == old(self).output.grpc_rx,
            final(self).state == (if old(self).state.is_terminal() {
                old(self).state
            } else {
                StreamState::Cancelled
            }),
            final(self).id == old(self).id,
            final(self).user == old(self).user,
    {
        self.state = self.state.cancelled();
        self.output.disconnect()
    }
}

impl RoomStream {
    /// The chat shut down: the subscription ends with its source closed,
    /// unless it had ended already. What waits in the output stays there.
    pub fn close_source(&mut self)
        ensures
            final(self).output == old(self).output,
            final(self).state == (if old(self).state.is_terminal() {
                old(self).state
            } else {
                StreamState::SourceClosed
            }),
            final(self).id == old(self).id,
            final(self).subscriber == old(self).subscriber,
            final(self).room == old(self).room,
    {
        self.state = self.state.source_closed();
    }
}

impl UserStream {
    /// The chat shut down: the subscription ends with its source closed,
    /// unless it had ended already. What waits in the output stays there.
    pub fn close_source(&mut self)
        ensures
            final(self).output == old(self).output,
            final(self).state == (if old(self).state.is_terminal() {
                old(self).state
            } else {
                StreamState::SourceClosed
            }),
            final(self).id == old(self).id,
            final(self).user == old(self).user,
    {
        self.state = self.state.source_closed();
    }
}

} // verus!
