//! The chat core: rooms, messages and subscriptions.

use crate::auth::originator_of;
use crate::auth::AuthenticatedRequest;
use crate::channel::MembershipChange;
use crate::channel::RoomStream;
use crate::channel::StreamState;
use crate::channel::UserStream;
use crate::channel::OUTPUT_CHANNEL_CAPACITY;
use crate::entities::message::requested_room;
use crate::entities::message::Message;
use crate::entities::relations::members_of;
use crate::entities::relations::rooms_of;
use crate::entities::relations::rows_for;
use crate::entities::relations::RoomUser;
use crate::entities::room::to_proto_uuids;
use crate::entities::room::Room;
use crate::entities::uuid::parsed_uuid;
use crate::entities::uuid::uuid_text;
use crate::entities::uuid::Uuid;
use crate::membership::MembershipCache;
use crate::persistence::messages_in;
use crate::persistence::Persistence;
use crate::proto;
use crate::proto::ClientsideMessage;
use crate::proto::ClientsideRoom;
use crate::proto::Identifier;
use crate::proto::MessageList;
use crate::proto::RoomList;
use crate::proto::RoomWithUserCreationRequest;
use crate::proto::ServersideMessage;
use crate::proto::ServersideRoom;
use crate::proto::ServersideRoomEvent;
use crate::proto::ServersideUserEvent;
use crate::proto::UserEvent;
use crate::proto::UserLookupRequest;
use crate::request::Request;
use crate::status::Code;
use crate::status::Status;
use itertools::Itertools;
use vstd::prelude::*;

verus! {

/// The chat core. It owns the membership cache and the subscriptions; the
/// durable tables are handed to each call.
#[derive(Debug)]
pub struct Chat {
    pub cache: MembershipCache,
    pub room_streams: Vec<RoomStream>,
    pub user_streams: Vec<UserStream>,
    pub next_stream: u64,
}

/// The identifier that a wire identifier names, if it is well formed.
pub open spec fn named_uuid(wire: proto::Uuid) -> Option<Uuid> {
    match parsed_uuid(wire.uuid@) {
        Some(value) => Some(Uuid { value }),
        None => None,
    }
}

/// The rooms of a table whose identity is in a list, in table order.
pub open spec fn rooms_among(rooms: Seq<Room>, listed: Seq<Uuid>) -> Seq<Room>
    decreases rooms.len(),
{
    if rooms.len() == 0 {
        Seq::empty()
    } else if listed.contains(rooms.last().uuid) {
        rooms_among(rooms.drop_last(), listed).push(rooms.last())
    } else {
        rooms_among(rooms.drop_last(), listed)
    }
}

impl ServersideRoom {
    /// Whether this wire room shows the given room with the given members.
    pub open spec fn describes(&self, room: Room, members: Seq<Uuid>) -> bool {
        &&& self.uuid matches Some(wire)
        &&& wire.uuid@ == uuid_text(room.uuid.value)
        &&& self.name == room.name
        &&& self.members@.len() == members.len()
        &&& forall|i: int|
            0 <= i < members.len() ==> (#[trigger] self.members@[i]).uuid@ == uuid_text(
                members[i].value,
            )
    }

    /// The wire form of a room with its members.
    pub fn describe(room: &Room, members: &Vec<Uuid>) -> (wire: ServersideRoom)
        ensures
            wire.describes(*room, members@),
    {
        ServersideRoom {
            uuid: Some(proto::Uuid::from(room.uuid)),
            name: room.name.clone(),
            members: to_proto_uuids(members),
        }
    }
}

impl Chat {
    /// Whether the subscriptions are what the chat keeps them to be: all of
    /// them streaming, each under an identifier of its own that was handed
    /// out before, none holding more than its channel takes.
    pub open spec fn streams_wf(&self) -> bool {
        &&& forall|k: int|
            0 <= k < self.room_streams@.len() ==> {
                &&& (#[trigger] self.room_streams@[k]).state == StreamState::Streaming
                &&& self.room_streams@[k].id < self.next_stream
                &&& self.room_streams@[k].output.grpc_rx@.len() <= OUTPUT_CHANNEL_CAPACITY
            }
        &&& forall|k: int, l: int|
            0 <= k < l < self.room_streams@.len() ==> (#[trigger] self.room_streams@[k]).id != (
            #[trigger] self.room_streams@[l]).id
        &&& forall|k: int|
            0 <= k < self.user_streams@.len() ==> {
                &&& (#[trigger] self.user_streams@[k]).state == StreamState::Streaming
                &&& self.user_streams@[k].id < self.next_stream
                &&& self.user_streams@[k].output.grpc_rx@.len() <= OUTPUT_CHANNEL_CAPACITY
            }
        &&& forall|k: int, l: int|
            0 <= k < l < self.user_streams@.len() ==> (#[trigger] self.user_streams@[k]).id != (
            #[trigger] self.user_streams@[l]).id
    }

    /// Whether the chat and the tables fit together: the tables keep their
    /// keys and references, the cache says of every user what the membership
    /// relation says, and the subscriptions are in order.
    pub open spec fn wf(&self, store: &Persistence) -> bool {
        &&& store.wf()
        &&& self.cache.mirrors(store.rooms_users@)
        &&& self.streams_wf()
    }

    /// A chat core over the given tables: the cache is flushed and rebuilt
    /// from the membership relation, nobody is subscribed, and the first
    /// subscription will get the identifier 0.
    pub fn new(store: &Persistence) -> (chat: Chat)
        requires
            store.wf(),
        ensures
            chat.wf(store),
            chat.room_streams@.len() == 0,
            chat.user_streams@.len() == 0,
            chat.next_stream == 0,
    {
        let mut cache = MembershipCache::new();
        cache.rebuild(store);
        Chat { cache, room_streams: Vec::new(), user_streams: Vec::new(), next_stream: 0 }
    }

    /// Whether the cache lists the room among the rooms of the user.
    pub fn check_room_membership(&self, user: &Uuid, room: &Uuid) -> (member: bool)
        ensures
            member == self.cache.rooms(*user).contains(*room),
    {
        self.cache.check_membership(*user, *room)
    }

    /// Looks a user up, by identifier or by name.
    pub fn lookup_user(
        &self,
        store: &Persistence,
        request: Request<UserLookupRequest>,
    ) -> (found: Result<proto::User, Status>)
        ensures
            match request.message.identifier {
                None => found matches Err(status) && status.code == Code::InvalidArgument,
                Some(Identifier::Uuid(wire)) => match named_uuid(wire) {
                    None => found matches Err(status) && status.code == Code::InvalidArgument,
                    Some(uuid) => if store.has_user(uuid) {
                        &&& found matches Ok(user)
                        &&& exists|i: int|
                            0 <= i < store.users@.len() && (#[trigger] store.users@[i]).uuid
                                == uuid && user.shows(store.users@[i])
                    } else {
                        found matches Err(status) && status.code == Code::NotFound
                    },
                },
                Some(Identifier::Username(name)) => if store.has_username(name@) {
                    &&& found matches Ok(user)
                    &&& exists|i: int|
                        0 <= i < store.users@.len() && (#[trigger] store.users@[i]).username@
                            == name@ && user.shows(store.users@[i])
                } else {
                    found matches Err(status) && status.code == Code::NotFound
                },
            },
    {
        let identifier = match request.into_inner().identifier {
            Some(identifier) => identifier,
            None => {
                return Err(Status::invalid_argument("Can't lookup user without an identifier"));
            },
        };
        let found_user = match identifier {
            Identifier::Uuid(proto_uuid) => {
                let uuid = match Uuid::try_from(proto_uuid) {
                    Ok(uuid) => uuid,
                    Err(_) => {
                        return Err(Status::invalid_argument("The provided UUID is invalid"));
                    },
                };
                store.find_user(uuid)
            },
            Identifier::Username(proto_uname) => store.find_user_by_name(proto_uname.as_str()),
        };
        match found_user {
            Some(user) => {
                Ok(proto::User::from(user.clone()))
            },
            None => Err(Status::not_found("No user with such username")),
        }
    }

    /// Shows a room with its members. A room that does not exist is not
    /// found.
    pub fn lookup_room(
        &self,
        store: &Persistence,
        request: Request<proto::Uuid>,
    ) -> (found: Result<ServersideRoom, Status>)
        ensures
            match (originator_of(request.metadata@), named_uuid(request.message)) {
                (None, _) => found matches Err(status) && status.code == Code::Unauthenticated,
                (Some(_), None) => found matches Err(status) && status.code
                    == Code::InvalidArgument,
                (Some(_), Some(room)) => if store.has_room(room) {
                    &&& found matches Ok(shown)
                    &&& exists|i: int|
                        0 <= i < store.rooms@.len() && (#[trigger] store.rooms@[i]).uuid == room
                            && shown.describes(
                            store.rooms@[i],
                            members_of(store.rooms_users@, room),
                        )
                } else {
                    found matches Err(status) && status.code == Code::NotFound
                },
            },
    {
        if request.get_originator_uuid().is_err() {
            return Err(Status::unauthenticated("The request names no caller"));
        }
        let requested_room = match Uuid::try_from(request.into_inner()) {
            Ok(uuid) => uuid,
            Err(_) => {
                return Err(Status::invalid_argument("Invalid room UUID"));
            },
        };
        let db_room = match store.find_room(requested_room) {
            Some(room) => room,
            None => {
                return Err(Status::not_found("No such room"));
            },
        };
        let members = db_room.get_members(&store.rooms_users);
        Ok(ServersideRoom::describe(db_room, &members))
    }

    /// The stored messages of a room, for a member of that room.
    pub fn list_messages(
        &self,
        store: &Persistence,
        request: Request<proto::Uuid>,
    ) -> (listed: Result<MessageList, Status>)
        ensures
            match (originator_of(request.metadata@), named_uuid(request.message)) {
                (None, _) => listed matches Err(status) && status.code == Code::Unauthenticated,
                (Some(_), None) => listed matches Err(status) && status.code
                    == Code::InvalidArgument,
                (Some(caller), Some(room)) => if self.cache.rooms(caller).contains(room) {
                    &&& listed matches Ok(list)
                    &&& list.messages@.len() == messages_in(store.messages@, room).len()
                    &&& forall|i: int|
                        0 <= i < list.messages@.len() ==> (#[trigger] list.messages@[i]).carries(
                            messages_in(store.messages@, room)[i],
                        )
                } else {
                    listed matches Err(status) && status.code == Code::PermissionDenied
                },
            },
    {
        let originator_uuid = match request.get_originator_uuid() {
            Ok(uuid) => uuid,
            Err(_) => {
                return Err(Status::unauthenticated("The request names no caller"));
            },
        };
        let requested_room_uuid = match Uuid::try_from(request.into_inner()) {
            Ok(uuid) => uuid,
            Err(_) => {
                return Err(Status::invalid_argument("Invalid room UUID"));
            },
        };
        if !self.check_room_membership(&originator_uuid, &requested_room_uuid) {
            return Err(Status::permission_denied("You are not a member of this room"));
        }
        let room_messages = store.load_messages(requested_room_uuid);
        let mut messages: Vec<ServersideMessage> = Vec::new();
        let mut i: usize = 0;
        while i < room_messages.len()
            invariant
                i <= room_messages.len(),
                messages@.len() == i,
                forall|j: int|
                    0 <= j < i ==> (#[trigger] messages@[j]).carries(room_messages@[j]),
            decreases room_messages.len() - i,
        {
            messages.push(ServersideMessage::from(room_messages[i].clone()));
            i = i + 1;
        }
        Ok(MessageList { messages })
    }

    /// The rooms that the cache lists for the caller, each with its members,
    /// in the order of the rooms table.
    pub fn list_rooms(&self, store: &Persistence, request: Request<()>) -> (listed: Result<
        RoomList,
        Status,
    >)
        ensures
            match originator_of(request.metadata@) {
                None => listed matches Err(status) && status.code == Code::Unauthenticated,
                Some(caller) => {
                    let visible = rooms_among(store.rooms@, self.cache.rooms(caller));
                    &&& listed matches Ok(list)
                    &&& list.rooms@.len() == visible.len()
                    &&& forall|i: int|
                        0 <= i < visible.len() ==> (#[trigger] list.rooms@[i]).describes(
                            visible[i],
                            members_of(store.rooms_users@, visible[i].uuid),
                        )
                },
            },
    {
        let originator = match request.get_originator_uuid() {
            Ok(uuid) => uuid,
            Err(_) => {
                return Err(Status::unauthenticated("The request names no caller"));
            },
        };
        let room_uuids = self.cache.get_rooms(originator);
        let mut rooms: Vec<ServersideRoom> = Vec::new();
        let mut i: usize = 0;
        while i < store.rooms.len()
            invariant
                i <= store.rooms.len(),
                rooms@.len() == rooms_among(store.rooms@.take(i as int), room_uuids@).len(),
                forall|j: int|
                    0 <= j < rooms@.len() ==> (#[trigger] rooms@[j]).describes(
                        rooms_among(store.rooms@.take(i as int), room_uuids@)[j],
                        members_of(
                            store.rooms_users@,
                            rooms_among(store.rooms@.take(i as int), room_uuids@)[j].uuid,
                        ),
                    ),
            decreases store.rooms.len() - i,
        {
            proof {
                assert(store.rooms@.take(i + 1).drop_last() =~= store.rooms@.take(i as int));
            }
            if crate::membership::is_member(&room_uuids, store.rooms[i].uuid) {
                let members = store.rooms[i].get_members(&store.rooms_users);
                rooms.push(ServersideRoom::describe(&store.rooms[i], &members));
            }
            i = i + 1;
        }
        proof {
            assert(store.rooms@.take(store.rooms.len() as int) =~= store.rooms@);
        }
        Ok(RoomList { rooms })
    }
}

impl Chat {
    /// What publishing a message does to the chat: `self` is the chat after
    /// it, `before` the one before. Every room subscription has been offered
    /// the message, with the rooms that the cache lists for its subscriber;
    /// nothing else has changed.
    pub open spec fn published(&self, before: Chat, message: Message) -> bool {
        &&& self.cache == before.cache
        &&& self.user_streams == before.user_streams
        &&& self.next_stream == before.next_stream
        &&& self.room_streams@.len() == before.room_streams@.len()
        &&& forall|k: int|
            0 <= k < before.room_streams@.len() ==> (#[trigger] self.room_streams@[k]).offered(
                before.room_streams@[k],
                message,
                before.cache.rooms(before.room_streams@[k].subscriber),
            )
    }

    /// The position of the room subscription with the given identifier.
    pub fn find_room_stream(&self, id: u64) -> (position: Option<usize>)
        ensures
            match position {
                Some(k) => k < self.room_streams@.len() && self.room_streams@[k as int].id == id,
                None => forall|k: int|
                    0 <= k < self.room_streams@.len() ==> (#[trigger] self.room_streams@[k]).id
                        != id,
            },
    {
        let mut k: usize = 0;
        while k < self.room_streams.len()
            invariant
                k <= self.room_streams.len(),
                forall|j: int| 0 <= j < k ==> (#[trigger] self.room_streams@[j]).id != id,
            decreases self.room_streams.len() - k,
        {
            if self.room_streams[k].id == id {
                return Some(k);
            }
            k = k + 1;
        }
        None
    }

    /// The position of the user subscription with the given identifier.
    pub fn find_user_stream(&self, id: u64) -> (position: Option<usize>)
        ensures
            match position {
                Some(k) => k < self.user_streams@.len() && self.user_streams@[k as int].id == id,
                None => forall|k: int|
                    0 <= k < self.user_streams@.len() ==> (#[trigger] self.user_streams@[k]).id
                        != id,
            },
    {
        let mut k: usize = 0;
        while k < self.user_streams.len()
            invariant
                k <= self.user_streams.len(),
                forall|j: int| 0 <= j < k ==> (#[trigger] self.user_streams@[j]).id != id,
            decreases self.user_streams.len() - k,
        {
            if self.user_streams[k].id == id {
                return Some(k);
            }
            k = k + 1;
        }
        None
    }

    /// How many room subscriptions are live.
    pub fn receiver_count(&self) -> (count: usize)
        ensures
            count == self.room_streams@.len(),
    {
        self.room_streams.len()
    }

    /// How many user subscriptions are live.
    pub fn user_receiver_count(&self) -> (count: usize)
        ensures
            count == self.user_streams@.len(),
    {
        self.user_streams.len()
    }

    /// Offers a message to every room subscription, once. For each
    /// subscription the membership of its subscriber is read from the cache
    /// at this moment. Gives the number of subscriptions that were offered
    /// the message; with nobody subscribed that is zero, and no error.
    pub fn publish(&mut self, message: &Message) -> (receivers: usize)
        requires
            old(self).streams_wf(),
        ensures
            final(self).streams_wf(),
            final(self).published(*old(self), *message),
            receivers == old(self).room_streams@.len(),
    {
        let mut k: usize = 0;
        while k < self.room_streams.len()
            invariant
                k <= self.room_streams.len(),
                self.cache == old(self).cache,
                self.user_streams == old(self).user_streams,
                self.next_stream == old(self).next_stream,
                self.room_streams@.len() == old(self).room_streams@.len(),
                old(self).streams_wf(),
                forall|j: int|
                    0 <= j < k ==> (#[trigger] self.room_streams@[j]).offered(
                        old(self).room_streams@[j],
                        *message,
                        old(self).cache.rooms(old(self).room_streams@[j].subscriber),
                    ),
                forall|j: int|
                    k <= j < self.room_streams@.len() ==> (#[trigger] self.room_streams@[j])
                        == old(self).room_streams@[j],
            decreases self.room_streams.len() - k,
        {
            let rooms_now = self.cache.get_rooms(self.room_streams[k].subscriber);
            let _ = self.room_streams[k].offer(message, Ok(rooms_now));
            k = k + 1;
        }
        self.room_streams.len()
    }

    /// The rule on sending: only a member of a room may send into
    /// it.
    pub fn authorize_send(&self, message: &Message) -> (allowed: Result<(), Status>)
        ensures
            self.cache.rooms(message.sender_uuid).contains(message.room_uuid) ==> allowed is Ok,
            !self.cache.rooms(message.sender_uuid).contains(message.room_uuid) ==> (
            allowed matches Err(status) && status.code == Code::PermissionDenied),
    {
        if self.check_room_membership(&message.sender_uuid, &message.room_uuid) {
            Ok(())
        } else {
            Err(Status::permission_denied("You're not a member of this room"))
        }
    }

    /// Stores a message and publishes it. A sender who is not a member of
    /// the room is refused, and nothing is stored or published. A message
    /// that the tables refuse is an internal error, and nothing is
    /// published. A stored message is published once.
    pub fn deliver(
        &mut self,
        store: &mut Persistence,
        message: Message,
    ) -> (sent: Result<(), Status>)
        requires
            old(self).wf(old(store)),
        ensures
            final(self).wf(final(store)),
            final(store).users == old(store).users,
            final(store).rooms == old(store).rooms,
            final(store).rooms_users == old(store).rooms_users,
            !old(self).cache.rooms(message.sender_uuid).contains(message.room_uuid) ==> {
                &&& sent matches Err(status)
                &&& status.code == Code::PermissionDenied
                &&& final(store).messages == old(store).messages
                &&& *final(self) == *old(self)
            },
            old(self).cache.rooms(message.sender_uuid).contains(message.room_uuid)
                && old(store).has_message(message.uuid) ==> {
                &&& sent matches Err(status)
                &&& status.code == Code::Internal
                &&& final(store).messages == old(store).messages
                &&& *final(self) == *old(self)
            },
            old(self).cache.rooms(message.sender_uuid).contains(message.room_uuid)
                && !old(store).has_message(message.uuid) ==> {
                &&& sent is Ok
                &&& final(store).messages@ == old(store).messages@.push(message)
                &&& final(self).published(*old(self), message)
            },
    {
        match self.authorize_send(&message) {
            Ok(()) => {},
            Err(status) => {
                return Err(status);
            },
        }
        let published = message.clone();
        match store.insert_message(message) {
            Ok(()) => {},
            Err(_) => {
                return Err(Status::internal("Could not send the message due to an internal error"));
            },
        }
        let _ = self.publish(&published);
        Ok(())
    }

    /// Sends the message of a request: the sender is the caller that the
    /// metadata names, the message gets a fresh identity and the current
    /// time, and is then stored and published. A member's message can fail
    /// only if its fresh identity is already stored, so with no message
    /// stored it succeeds.
    pub fn send_message(
        &mut self,
        store: &mut Persistence,
        request: Request<ClientsideMessage>,
    ) -> (sent: Result<(), Status>)
        requires
            old(self).wf(old(store)),
        ensures
            final(self).wf(final(store)),
            final(store).users == old(store).users,
            final(store).rooms == old(store).rooms,
            final(store).rooms_users == old(store).rooms_users,
            sent is Err ==> final(store).messages == old(store).messages && *final(self)
                == *old(self),
            match (originator_of(request.metadata@), requested_room(request.message)) {
                (Some(sender), Some(room)) => if old(self).cache.rooms(sender).contains(room) {
                    sent matches Err(status) ==> status.code == Code::Internal
                } else {
                    sent matches Err(status) && status.code == Code::PermissionDenied
                },
                _ => sent matches Err(status) && status.code == Code::InvalidArgument,
            },
            (originator_of(request.metadata@) matches Some(sender) && requested_room(
                request.message,
            ) matches Some(room) && old(self).cache.rooms(sender).contains(room) && old(
                store,
            ).messages@.len() == 0) ==> sent is Ok,
            sent is Ok ==> {
                &&& originator_of(request.metadata@) matches Some(sender)
                &&& requested_room(request.message) matches Some(room)
                &&& final(store).messages@.len() == old(store).messages@.len() + 1
                &&& final(store).messages@.drop_last() == old(store).messages@
                &&& final(store).messages@.last().sender_uuid == sender
                &&& final(store).messages@.last().room_uuid == room
                &&& final(store).messages@.last().text == request.message.text
                &&& final(self).published(*old(self), final(store).messages@.last())
            },
    {
        let message = match Message::try_from(request) {
            Ok(message) => message,
            Err(status) => {
                return Err(status);
            },
        };
        let sent = self.deliver(store, message);
        sent
    }

    /// Subscribes the caller to the messages of a room. Only a member of the
    /// room may subscribe. The new subscription streams at once and starts
    /// with an empty output: it sees what is published from now on.
    pub fn subscribe_to_room(
        &mut self,
        request: Request<proto::Uuid>,
    ) -> (subscribed: Result<u64, Status>)
        requires
            old(self).streams_wf(),
        ensures
            final(self).streams_wf(),
            final(self).cache == old(self).cache,
            final(self).user_streams == old(self).user_streams,
            subscribed is Err ==> *final(self) == *old(self),
            match (originator_of(request.metadata@), named_uuid(request.message)) {
                (None, _) => subscribed matches Err(status) && status.code
                    == Code::Unauthenticated,
                (Some(_), None) => subscribed matches Err(status) && status.code
                    == Code::InvalidArgument,
                (Some(subscriber), Some(room)) => if !old(self).cache.rooms(subscriber).contains(
                    room,
                ) {
                    subscribed matches Err(status) && status.code == Code::PermissionDenied
                } else if old(self).next_stream == u64::MAX {
                    subscribed matches Err(status) && status.code == Code::Internal
                } else {
                    &&& subscribed == Ok::<u64, Status>(old(self).next_stream)
                    &&& final(self).next_stream == old(self).next_stream + 1
                    &&& final(self).room_streams@.len() == old(self).room_streams@.len() + 1
                    &&& final(self).room_streams@.drop_last() == old(self).room_streams@
                    &&& final(self).room_streams@.last().id == old(self).next_stream
                    &&& final(self).room_streams@.last().subscriber == subscriber
                    &&& final(self).room_streams@.last().room == room
                    &&& final(self).room_streams@.last().state == StreamState::Streaming
                    &&& final(self).room_streams@.last().output.disconnect_tx is Some
                    &&& final(self).room_streams@.last().output.grpc_rx@.len() == 0
                },
            },
    {
        let subscriber = match request.get_originator_uuid() {
            Ok(uuid) => uuid,
            Err(_) => {
                return Err(Status::unauthenticated("The request names no caller"));
            },
        };
        let subscribed_room = match Uuid::try_from(request.into_inner()) {
            Ok(uuid) => uuid,
            Err(_) => {
                return Err(Status::invalid_argument("The room UUID is invalid"));
            },
        };
        let mut stream = RoomStream::new(self.next_stream, subscriber, subscribed_room);
        stream.state = stream.state.authorized(
            self.check_room_membership(&subscriber, &subscribed_room),
        );
        if stream.state != StreamState::Streaming {
            return Err(Status::permission_denied("You are not a member of this room"));
        }
        if self.next_stream == u64::MAX {
            return Err(Status::internal("No subscription identifier is left"));
        }
        let id = self.next_stream;
        self.next_stream = self.next_stream + 1;
        self.room_streams.push(stream);
        Ok(id)
    }

    /// Subscribes the caller to the events that concern the caller. The new
    /// subscription streams at once and starts with an empty output.
    pub fn subscribe_to_user(&mut self, request: Request<()>) -> (subscribed: Result<u64, Status>)
        requires
            old(self).streams_wf(),
        ensures
            final(self).streams_wf(),
            final(self).cache == old(self).cache,
            final(self).room_streams == old(self).room_streams,
            subscribed is Err ==> *final(self) == *old(self),
            match originator_of(request.metadata@) {
                None => subscribed matches Err(status) && status.code == Code::Unauthenticated,
                Some(user) => if old(self).next_stream == u64::MAX {
                    subscribed matches Err(status) && status.code == Code::Internal
                } else {
                    &&& subscribed == Ok::<u64, Status>(old(self).next_stream)
                    &&& final(self).next_stream == old(self).next_stream + 1
                    &&& final(self).user_streams@.len() == old(self).user_streams@.len() + 1
                    &&& final(self).user_streams@.drop_last() == old(self).user_streams@
                    &&& final(self).user_streams@.last().id == old(self).next_stream
                    &&& final(self).user_streams@.last().user == user
                    &&& final(self).user_streams@.last().state == StreamState::Streaming
                    &&& final(self).user_streams@.last().output.disconnect_tx is Some
                    &&& final(self).user_streams@.last().output.grpc_rx@.len() == 0
                },
            },
    {
        let user_uuid = match request.get_originator_uuid() {
            Ok(uuid) => uuid,
            Err(_) => {
                return Err(Status::unauthenticated("The request names no caller"));
            },
        };
        if self.next_stream == u64::MAX {
            return Err(Status::internal("No subscription identifier is left"));
        }
        let id = self.next_stream;
        self.next_stream = self.next_stream + 1;
        self.user_streams.push(UserStream::new(id, user_uuid));
        Ok(id)
    }
}

/// The identifiers of a list without their repetitions: of several equal
/// ones the first stays, and the order of what stays is kept.
pub open spec fn first_occurrences(uuids: Seq<Uuid>) -> Seq<Uuid>
    decreases uuids.len(),
{
    if uuids.len() == 0 {
        Seq::empty()
    } else if first_occurrences(uuids.drop_last()).contains(uuids.last()) {
        first_occurrences(uuids.drop_last())
    } else {
        first_occurrences(uuids.drop_last()).push(uuids.last())
    }
}

/// Nothing occurs twice among the first occurrences, and they hold exactly
/// what the list holds.
pub proof fn lemma_first_occurrences(uuids: Seq<Uuid>)
    ensures
        first_occurrences(uuids).no_duplicates(),
        forall|uuid: Uuid| #[trigger] first_occurrences(uuids).contains(uuid)
            <==> uuids.contains(uuid),
    decreases uuids.len(),
{
    if uuids.len() > 0 {
        let rest = uuids.drop_last();
        let kept = first_occurrences(rest);
        lemma_first_occurrences(rest);
        assert forall|uuid: Uuid| #[trigger] first_occurrences(uuids).contains(uuid)
            <==> uuids.contains(uuid) by {
            if uuids.contains(uuid) {
                let i = choose|i: int| 0 <= i < uuids.len() && uuids[i] == uuid;
                if i < rest.len() {
                    assert(rest[i] == uuid);
                }
            }
            if !kept.contains(uuids.last()) {
                let grown = kept.push(uuids.last());
                assert(grown[grown.len() - 1] == uuids.last());
                if kept.contains(uuid) {
                    let j = choose|j: int| 0 <= j < kept.len() && kept[j] == uuid;
                    assert(grown[j] == uuid);
                }
            }
        }
    }
}

/// `Itertools::unique`, on the values of the identifiers. Trusted: an
/// identifier that was already produced is left out, so of equal ones the
/// first stays, and what stays keeps its order.
#[verifier::external_body]
fn unique(uuids: Vec<Uuid>) -> (kept: Vec<Uuid>)
    ensures
        kept@ == first_occurrences(uuids@),
{
    uuids.into_iter().map(|uuid| uuid.value).unique().map(|value| Uuid { value }).collect()
}

/// Whether every one of the wire identifiers is well formed.
pub open spec fn all_well_formed(wire: Seq<proto::Uuid>) -> bool {
    forall|i: int| 0 <= i < wire.len() ==> parsed_uuid((#[trigger] wire[i]).uuid@) is Some
}

/// The identifiers that a list of well-formed wire identifiers names, in
/// their order.
pub open spec fn identifiers_of(wire: Seq<proto::Uuid>) -> Seq<Uuid> {
    Seq::new(wire.len(), |i: int| Uuid { value: parsed_uuid(wire[i].uuid@).unwrap() })
}

/// Reads a list of wire identifiers. Refused if one of them is not well
/// formed.
pub fn parse_members(
    wire: &Vec<proto::Uuid>,
) -> (parsed: Result<Vec<Uuid>, crate::entities::uuid::MalformedUuid>)
    ensures
        all_well_formed(wire@) ==> (parsed matches Ok(uuids) && uuids@ == identifiers_of(wire@)),
        !all_well_formed(wire@) ==> parsed is Err,
{
    let mut uuids: Vec<Uuid> = Vec::new();
    let mut i: usize = 0;
    while i < wire.len()
        invariant
            i <= wire.len(),
            all_well_formed(wire@.take(i as int)),
            uuids@ == identifiers_of(wire@.take(i as int)),
        decreases wire.len() - i,
    {
        match Uuid::parse_str(wire[i].uuid.as_str()) {
            Ok(uuid) => {
                uuids.push(uuid);
            },
            Err(error) => {
                return Err(error);
            },
        }
        i = i + 1;
    }
    proof {
        assert(wire@.take(wire.len() as int) =~= wire@);
    }
    Ok(uuids)
}

impl Chat {
    /// What the making of a room does: `self` and `store` are the chat and
    /// the tables after it, `before` and `tables` those before it. The room
    /// and one membership row for each member are written; each member's
    /// cached rooms end with the new room; each user subscription of a member
    /// has been offered the news; nothing else has changed.
    pub open spec fn room_established(
        &self,
        store: Persistence,
        before: Chat,
        tables: Persistence,
        uuid: Uuid,
        name: Seq<char>,
        members: Seq<Uuid>,
    ) -> bool {
        &&& store.users == tables.users
        &&& store.messages == tables.messages
        &&& store.rooms@.len() == tables.rooms@.len() + 1
        &&& store.rooms@.drop_last() == tables.rooms@
        &&& store.rooms@.last().uuid == uuid
        &&& store.rooms@.last().name@ == name
        &&& store.rooms_users@ == tables.rooms_users@ + rows_for(uuid, members)
        &&& forall|user: Uuid| #[trigger]
            self.cache.rooms(user) == (if members.contains(user) {
                before.cache.rooms(user).push(uuid)
            } else {
                before.cache.rooms(user)
            })
        &&& self.room_streams == before.room_streams
        &&& self.next_stream == before.next_stream
        &&& self.user_streams@.len() == before.user_streams@.len()
        &&& forall|k: int|
            0 <= k < before.user_streams@.len() ==> (if members.contains(
                before.user_streams@[k].user,
            ) {
                (#[trigger] self.user_streams@[k]).offered(
                    before.user_streams@[k],
                    MembershipChange { user_uuid: before.user_streams@[k].user, room_uuid: uuid },
                )
            } else {
                self.user_streams@[k].same_as(before.user_streams@[k])
            })
    }

    /// Offers an event to every user subscription, once.
    pub fn publish_user_event(&mut self, event: MembershipChange) -> (receivers: usize)
        ensures
            final(self).cache == old(self).cache,
            final(self).room_streams == old(self).room_streams,
            final(self).next_stream == old(self).next_stream,
            final(self).user_streams@.len() == old(self).user_streams@.len(),
            forall|k: int|
                0 <= k < old(self).user_streams@.len()
                    ==> (#[trigger] final(self).user_streams@[k]).offered(old(self).user_streams@[k], event),
            receivers == old(self).user_streams@.len(),
    {
        let mut k: usize = 0;
        while k < self.user_streams.len()
            invariant
                k <= self.user_streams.len(),
                self.cache == old(self).cache,
                self.room_streams == old(self).room_streams,
                self.next_stream == old(self).next_stream,
                self.user_streams@.len() == old(self).user_streams@.len(),
                forall|j: int|
                    0 <= j < k ==> (#[trigger] self.user_streams@[j]).offered(
                        old(self).user_streams@[j],
                        event,
                    ),
                forall|j: int|
                    k <= j < self.user_streams@.len() ==> (#[trigger] self.user_streams@[j])
                        == old(self).user_streams@[j],
            decreases self.user_streams.len() - k,
        {
            let _ = self.user_streams[k].offer(event);
            k = k + 1;
        }
        self.user_streams.len()
    }

    /// Makes a room under the given identity, with the given name and
    /// members. The members are taken without their repetitions. The room
    /// and its membership rows are written as one unit; if the tables refuse
    /// them, that is an internal error and nothing has changed. Then each
    /// member's new room is appended to the cache, and the news is published
    /// to the member.
    pub fn establish_room(
        &mut self,
        store: &mut Persistence,
        name: String,
        members: Vec<Uuid>,
        uuid: Uuid,
    ) -> (made: Result<Uuid, Status>)
        requires
            old(self).wf(old(store)),
        ensures
            final(self).wf(final(store)),
            old(store).has_room(uuid) || !old(store).all_registered(first_occurrences(members@))
                ==> {
                &&& made matches Err(status)
                &&& status.code == Code::Internal
                &&& *final(store) == *old(store)
                &&& *final(self) == *old(self)
            },
            !old(store).has_room(uuid) && old(store).all_registered(first_occurrences(members@))
                ==> {
                &&& made == Ok::<Uuid, Status>(uuid)
                &&& final(self).room_established(
                    *final(store),
                    *old(self),
                    *old(store),
                    uuid,
                    name@,
                    first_occurrences(members@),
                )
            },
    {
        let user_uuids = unique(members);
        proof {
            lemma_first_occurrences(members@);
        }
        let room = Room { uuid, name };
        match store.insert_room(room, &user_uuids) {
            Ok(()) => {},
            Err(_) => {
                return Err(Status::internal("Could not save the room in the database"));
            },
        }
        proof {
            assert(store.rooms@.drop_last() =~= old(store).rooms@);
        }
        let mut i: usize = 0;
        while i < user_uuids.len()
            invariant
                i <= user_uuids.len(),
                user_uuids@.no_duplicates(),
                old(self).streams_wf(),
                self.room_streams == old(self).room_streams,
                self.next_stream == old(self).next_stream,
                self.user_streams@.len() == old(self).user_streams@.len(),
                forall|user: Uuid| #[trigger]
                    self.cache.rooms(user) == (if user_uuids@.take(i as int).contains(user) {
                        old(self).cache.rooms(user).push(uuid)
                    } else {
                        old(self).cache.rooms(user)
                    }),
                forall|k: int|
                    0 <= k < old(self).user_streams@.len() ==> (if user_uuids@.take(
                        i as int,
                    ).contains(old(self).user_streams@[k].user) {
                        (#[trigger] self.user_streams@[k]).offered(
                            old(self).user_streams@[k],
                            MembershipChange {
                                user_uuid: old(self).user_streams@[k].user,
                                room_uuid: uuid,
                            },
                        )
                    } else {
                        self.user_streams@[k].same_as(old(self).user_streams@[k])
                    }),
            decreases user_uuids.len() - i,
        {
            let member = user_uuids[i];
            let ghost done = user_uuids@.take(i as int);
            let ghost grown = user_uuids@.take(i + 1);
            proof {
                assert forall|user: Uuid| grown.contains(user) <==> (done.contains(user) || user
                    == member) by {
                    assert(grown[grown.len() - 1] == member);
                }
            }
            self.cache.add_membership(member, uuid);
            let _ = self.publish_user_event(
                MembershipChange { user_uuid: member, room_uuid: uuid },
            );
            i = i + 1;
        }
        proof {
            assert(user_uuids@.take(user_uuids.len() as int) =~= user_uuids@);
            let kept = first_occurrences(members@);
            let rows = rows_for(uuid, kept);
            assert forall|user: Uuid| #[trigger]
                self.cache.rooms(user) == rooms_of(store.rooms_users@, user) by {
                crate::entities::relations::lemma_rooms_of_add(old(store).rooms_users@, rows, user);
                crate::entities::relations::lemma_rooms_of_rows(uuid, kept, user);
            }
        }
        Ok(uuid)
    }
}

/// The name of the private room of two users.
pub open spec fn private_room_name(originator: Seq<char>, interlocutor: Seq<char>) -> Seq<char> {
    "Private chat between "@ + originator + " and "@ + interlocutor
}

impl Chat {
    /// Makes the room that a request asks for, under a fresh identity. A
    /// member identifier that is not well formed is an invalid argument. If
    /// the tables refuse the room or its memberships, that is an internal
    /// error. Whenever the call fails, nothing has changed. A room of
    /// registered members can fail only if its fresh identity is taken, so
    /// with no room in the tables it succeeds.
    pub fn create_room(
        &mut self,
        store: &mut Persistence,
        request: Request<ClientsideRoom>,
    ) -> (made: Result<proto::Uuid, Status>)
        requires
            old(self).wf(old(store)),
        ensures
            final(self).wf(final(store)),
            made is Err ==> *final(store) == *old(store) && *final(self) == *old(self),
            !all_well_formed(request.message.members@) ==> (made matches Err(status)
                && status.code == Code::InvalidArgument),
            all_well_formed(request.message.members@) ==> (made matches Err(status)
                ==> status.code == Code::Internal),
            all_well_formed(request.message.members@) && !old(store).all_registered(
                first_occurrences(identifiers_of(request.message.members@)),
            ) ==> made is Err,
            (all_well_formed(request.message.members@) && old(store).all_registered(
                first_occurrences(identifiers_of(request.message.members@)),
            ) && old(store).rooms@.len() == 0) ==> made is Ok,
            made matches Ok(wire) ==> {
                &&& all_well_formed(request.message.members@)
                &&& named_uuid(wire) matches Some(uuid)
                &&& wire.uuid@ == uuid_text(uuid.value)
                &&& !old(store).has_room(uuid)
                &&& final(self).room_established(
                    *final(store),
                    *old(self),
                    *old(store),
                    uuid,
                    request.message.name@,
                    first_occurrences(identifiers_of(request.message.members@)),
                )
            },
    {
        let room = request.into_inner();
        let members = match parse_members(&room.members) {
            Ok(members) => members,
            Err(_) => {
                return Err(
                    Status::invalid_argument("Some member UUIDs could not be converted"),
                );
            },
        };
        match self.establish_room(store, room.name, members, Uuid::new_v4()) {
            Ok(uuid) => Ok(proto::Uuid::from(uuid)),
            Err(status) => Err(status),
        }
    }

    /// Makes the private room of the caller and one other user. Both must be
    /// registered, else there is no such user; the room is named after them.
    pub fn create_room_with_user(
        &mut self,
        store: &mut Persistence,
        request: Request<RoomWithUserCreationRequest>,
    ) -> (made: Result<proto::Uuid, Status>)
        requires
            old(self).wf(old(store)),
        ensures
            final(self).wf(final(store)),
            made is Err ==> *final(store) == *old(store) && *final(self) == *old(self),
            match (
                originator_of(request.metadata@),
                match request.message.user_uuid {
                    Some(wire) => named_uuid(wire),
                    None => None,
                },
            ) {
                (None, _) => made matches Err(status) && status.code == Code::Internal,
                (Some(_), None) => made matches Err(status) && status.code
                    == Code::InvalidArgument,
                (Some(originator), Some(interlocutor)) => {
                    &&& !old(store).has_user(originator) || !old(store).has_user(interlocutor)
                        ==> (made matches Err(status) && status.code == Code::NotFound)
                    &&& old(store).has_user(originator) && old(store).has_user(interlocutor)
                        ==> (made matches Err(status) ==> status.code == Code::Internal)
                    &&& old(store).has_user(originator) && old(store).has_user(interlocutor)
                        && old(store).rooms@.len() == 0 ==> made is Ok
                    &&& made matches Ok(wire) ==> {
                        &&& named_uuid(wire) matches Some(uuid)
                        &&& wire.uuid@ == uuid_text(uuid.value)
                        &&& !old(store).has_room(uuid)
                        &&& exists|i: int, j: int|
                            0 <= i < old(store).users@.len() && 0 <= j < old(store).users@.len()
                                && (#[trigger] old(store).users@[i]).uuid == originator && (
                            #[trigger] old(store).users@[j]).uuid == interlocutor
                                && final(self).room_established(
                                *final(store),
                                *old(self),
                                *old(store),
                                uuid,
                                private_room_name(
                                    old(store).users@[i].username@,
                                    old(store).users@[j].username@,
                                ),
                                first_occurrences(seq![interlocutor, originator]),
                            )
                    }
                },
            },
    {
        let originator_uuid = match request.get_originator_uuid() {
            Ok(uuid) => uuid,
            Err(error) => {
                return Err(Status::internal(error.message()));
            },
        };
        let possible_interlocutor_uuid = match request.into_inner().user_uuid {
            Some(wire) => match Uuid::try_from(wire) {
                Ok(uuid) => uuid,
                Err(_) => {
                    return Err(Status::invalid_argument("Invalid interlocutor UUID"));
                },
            },
            None => {
                return Err(Status::invalid_argument("Invalid interlocutor UUID"));
            },
        };
        let interlocutor = match store.find_user(possible_interlocutor_uuid) {
            Some(user) => user,
            None => {
                return Err(Status::not_found("No such user"));
            },
        };
        let originator = match store.find_user(originator_uuid) {
            Some(user) => user,
            None => {
                return Err(Status::not_found("No such user"));
            },
        };
        let mut room_name = String::from_str("Private chat between ");
        room_name.append(originator.username.as_str());
        room_name.append(" and ");
        room_name.append(interlocutor.username.as_str());
        let mut members: Vec<Uuid> = Vec::new();
        members.push(interlocutor.uuid);
        members.push(originator_uuid);
        proof {
            assert(members@ =~= seq![possible_interlocutor_uuid, originator_uuid]);
            let kept = first_occurrences(members@);
            lemma_first_occurrences(members@);
            assert forall|i: int| 0 <= i < kept.len() implies store.has_user(
                #[trigger] kept[i],
            ) by {
                assert(kept.contains(kept[i]));
                assert(members@.contains(kept[i]));
            }
        }
        match self.establish_room(store, room_name, members, Uuid::new_v4()) {
            Ok(uuid) => Ok(proto::Uuid::from(uuid)),
            Err(status) => Err(status),
        }
    }

    /// Hands out the oldest message that waits in a room subscription, as
    /// the event that announces it. Gives nothing if nothing waits, or if no
    /// subscription has the identifier.
    pub fn next_room_event(&mut self, id: u64) -> (event: Option<ServersideRoomEvent>)
        requires
            old(self).streams_wf(),
        ensures
            final(self).streams_wf(),
            final(self).cache == old(self).cache,
            final(self).user_streams == old(self).user_streams,
            final(self).next_stream == old(self).next_stream,
            final(self).room_streams@.len() == old(self).room_streams@.len(),
            forall|k: int|
                0 <= k < old(self).room_streams@.len()
                    && (#[trigger] old(self).room_streams@[k]).id != id
                    ==> final(self).room_streams@[k] == old(self).room_streams@[k],
            forall|k: int|
                0 <= k < old(self).room_streams@.len()
                    && (#[trigger] old(self).room_streams@[k]).id == id ==> {
                    let before = old(self).room_streams@[k];
                    let after = final(self).room_streams@[k];
                    &&& after.id == before.id
                    &&& after.subscriber == before.subscriber
                    &&& after.room == before.room
                    &&& after.state == before.state
                    &&& after.output.disconnect_tx == before.output.disconnect_tx
                    &&& if before.output.grpc_rx@.len() == 0 {
                        event is None && after.output.grpc_rx@ == before.output.grpc_rx@
                    } else {
                        &&& event matches Some(handed)
                        &&& handed.announces(before.room, before.output.grpc_rx@[0])
                        &&& after.output.grpc_rx@ == before.output.grpc_rx@.subrange(
                            1,
                            before.output.grpc_rx@.len() as int,
                        )
                    }
                },
            (forall|k: int|
                0 <= k < old(self).room_streams@.len()
                    ==> (#[trigger] old(self).room_streams@[k]).id != id) ==> event is None,
    {
        let k = match self.find_room_stream(id) {
            Some(k) => k,
            None => {
                return None;
            },
        };
        let room = self.room_streams[k].room;
        let polled = self.room_streams[k].output.poll_next();
        match polled {
            Some(message) => Some(ServersideRoomEvent::new_message(room, message)),
            None => None,
        }
    }

    /// Hands out the oldest event that waits in a user subscription. Gives
    /// nothing if nothing waits, or if no subscription has the identifier.
    pub fn next_user_event(&mut self, id: u64) -> (event: Option<ServersideUserEvent>)
        requires
            old(self).streams_wf(),
        ensures
            final(self).streams_wf(),
            final(self).cache == old(self).cache,
            final(self).room_streams == old(self).room_streams,
            final(self).next_stream == old(self).next_stream,
            final(self).user_streams@.len() == old(self).user_streams@.len(),
            forall|k: int|
                0 <= k < old(self).user_streams@.len()
                    && (#[trigger] old(self).user_streams@[k]).id != id
                    ==> final(self).user_streams@[k] == old(self).user_streams@[k],
            forall|k: int|
                0 <= k < old(self).user_streams@.len()
                    && (#[trigger] old(self).user_streams@[k]).id == id ==> {
                    let before = old(self).user_streams@[k];
                    let after = final(self).user_streams@[k];
                    &&& after.id == before.id
                    &&& after.user == before.user
                    &&& after.state == before.state
                    &&& after.output.disconnect_tx == before.output.disconnect_tx
                    &&& if before.output.grpc_rx@.len() == 0 {
                        event is None && after.output.grpc_rx@ == before.output.grpc_rx@
                    } else {
                        &&& event matches Some(handed)
                        &&& handed.tells(before.output.grpc_rx@[0])
                        &&& after.output.grpc_rx@ == before.output.grpc_rx@.subrange(
                            1,
                            before.output.grpc_rx@.len() as int,
                        )
                    }
                },
            (forall|k: int|
                0 <= k < old(self).user_streams@.len()
                    ==> (#[trigger] old(self).user_streams@[k]).id != id) ==> event is None,
    {
        let k = match self.find_user_stream(id) {
            Some(k) => k,
            None => {
                return None;
            },
        };
        let polled = self.user_streams[k].output.poll_next();
        match polled {
            Some(change) => Some(ServersideUserEvent::added_to_room(change)),
            None => None,
        }
    }

    /// The client of a room subscription went away: the subscription is
    /// cancelled and taken out of the chat, and is handed back as it ended.
    /// Every other subscription stays as it is. Gives nothing, and changes
    /// nothing, if no subscription has the identifier.
    pub fn disconnect_room_stream(&mut self, id: u64) -> (ended: Option<RoomStream>)
        requires
            old(self).streams_wf(),
        ensures
            final(self).streams_wf(),
            final(self).cache == old(self).cache,
            final(self).user_streams == old(self).user_streams,
            final(self).next_stream == old(self).next_stream,
            match ended {
                Some(stream) => exists|k: int|
                    {
                        &&& 0 <= k < old(self).room_streams@.len()
                        &&& (#[trigger] old(self).room_streams@[k]).id == id
                        &&& final(self).room_streams@ == old(self).room_streams@.remove(k)
                        &&& stream.id == id
                        &&& stream.subscriber == old(self).room_streams@[k].subscriber
                        &&& stream.room == old(self).room_streams@[k].room
                        &&& stream.state == StreamState::Cancelled
                        &&& stream.output.disconnect_tx is None
                        &&& stream.output.grpc_rx == old(self).room_streams@[k].output.grpc_rx
                    },
                None => *final(self) == *old(self) && forall|k: int|
                    0 <= k < old(self).room_streams@.len()
                        ==> (#[trigger] old(self).room_streams@[k]).id != id,
            },
    {
        let k = match self.find_room_stream(id) {
            Some(k) => k,
            None => {
                return None;
            },
        };
        let mut stream = self.room_streams.remove(k);
        let _ = stream.cancel();
        Some(stream)
    }

    /// The client of a user subscription went away: the subscription is
    /// cancelled and taken out of the chat, and is handed back as it ended.
    /// Every other subscription stays as it is. Gives nothing, and changes
    /// nothing, if no subscription has the identifier.
    pub fn disconnect_user_stream(&mut self, id: u64) -> (ended: Option<UserStream>)
        requires
            old(self).streams_wf(),
        ensures
            final(self).streams_wf(),
            final(self).cache == old(self).cache,
            final(self).room_streams == old(self).room_streams,
            final(self).next_stream == old(self).next_stream,
            match ended {
                Some(stream) => exists|k: int|
                    {
                        &&& 0 <= k < old(self).user_streams@.len()
                        &&& (#[trigger] old(self).user_streams@[k]).id == id
                        &&& final(self).user_streams@ == old(self).user_streams@.remove(k)
                        &&& stream.id == id
                        &&& stream.user == old(self).user_streams@[k].user
                        &&& stream.state == StreamState::Cancelled
                        &&& stream.output.disconnect_tx is None
                        &&& stream.output.grpc_rx == old(self).user_streams@[k].output.grpc_rx
                    },
                None => *final(self) == *old(self) && forall|k: int|
                    0 <= k < old(self).user_streams@.len()
                        ==> (#[trigger] old(self).user_streams@[k]).id != id,
            },
    {
        let k = match self.find_user_stream(id) {
            Some(k) => k,
            None => {
                return None;
            },
        };
        let mut stream = self.user_streams.remove(k);
        let _ = stream.cancel();
        Some(stream)
    }

    /// Shuts the chat's broadcasts down: every subscription ends with its
    /// source closed and is taken out of the chat. The room subscriptions
    /// are handed back as they ended, in their order.
    pub fn shutdown(&mut self) -> (ended: Vec<RoomStream>)
        requires
            old(self).streams_wf(),
        ensures
            final(self).streams_wf(),
            final(self).cache == old(self).cache,
            final(self).next_stream == old(self).next_stream,
            final(self).room_streams@.len() == 0,
            final(self).user_streams@.len() == 0,
            ended@.len() == old(self).room_streams@.len(),
            forall|k: int|
                0 <= k < ended@.len() ==> {
                    &&& (#[trigger] ended@[k]).state == StreamState::SourceClosed
                    &&& ended@[k].id == old(self).room_streams@[k].id
                    &&& ended@[k].subscriber == old(self).room_streams@[k].subscriber
                    &&& ended@[k].room == old(self).room_streams@[k].room
                    &&& ended@[k].output == old(self).room_streams@[k].output
                },
    {
        let mut ended: Vec<RoomStream> = Vec::new();
        std::mem::swap(&mut self.room_streams, &mut ended);
        self.user_streams.clear();
        let mut k: usize = 0;
        while k < ended.len()
            invariant
                k <= ended.len(),
                ended@.len() == old(self).room_streams@.len(),
                old(self).streams_wf(),
                forall|j: int|
                    0 <= j < k ==> {
                        &&& (#[trigger] ended@[j]).state == StreamState::SourceClosed
                        &&& ended@[j].id == old(self).room_streams@[j].id
                        &&& ended@[j].subscriber == old(self).room_streams@[j].subscriber
                        &&& ended@[j].room == old(self).room_streams@[j].room
                        &&& ended@[j].output == old(self).room_streams@[j].output
                    },
                forall|j: int|
                    k <= j < ended@.len() ==> (#[trigger] ended@[j]) == old(self).room_streams@[j],
            decreases ended.len() - k,
        {
            ended[k].close_source();
            k = k + 1;
        }
        ended
    }
}

impl ServersideUserEvent {
    /// Whether this event tells the given user of the given room: both in
    /// their canonical text.
    pub open spec fn tells(&self, change: MembershipChange) -> bool {
        &&& self.user_uuid matches Some(user)
        &&& user.uuid@ == uuid_text(change.user_uuid.value)
        &&& self.event matches Some(UserEvent::AddedToRoom(room))
        &&& room.uuid@ == uuid_text(change.room_uuid.value)
    }

    /// The event that tells a user that the user was added to a room.
    pub fn added_to_room(change: MembershipChange) -> (event: ServersideUserEvent)
        ensures
            event.tells(change),
    {
        ServersideUserEvent {
            user_uuid: Some(proto::Uuid::from(change.user_uuid)),
            event: Some(UserEvent::AddedToRoom(proto::Uuid::from(change.room_uuid))),
        }
    }
}

/// A room without a row in the relation has no members.
pub proof fn lemma_no_rows_no_members(relation: Seq<RoomUser>, room: Uuid)
    requires
        forall|i: int| 0 <= i < relation.len() ==> (#[trigger] relation[i]).room_uuid != room,
    ensures
        members_of(relation, room) == Seq::<Uuid>::empty(),
    decreases relation.len(),
{
    if relation.len() > 0 {
        lemma_no_rows_no_members(relation.drop_last(), room);
    }
}

/// After a room has been made for two users, the cache lists the room for
/// both of them, and the members of the room are exactly the two.
pub proof fn lemma_new_room_is_shared(
    chat: Chat,
    store: Persistence,
    before: Chat,
    tables: Persistence,
    uuid: Uuid,
    name: Seq<char>,
    first: Uuid,
    second: Uuid,
)
    requires
        before.wf(&tables),
        !tables.has_room(uuid),
        chat.room_established(
            store,
            before,
            tables,
            uuid,
            name,
            first_occurrences(seq![first, second]),
        ),
    ensures
        chat.cache.rooms(first).contains(uuid),
        chat.cache.rooms(second).contains(uuid),
        members_of(store.rooms_users@, uuid).to_set() == set![first, second],
{
    let listed = seq![first, second];
    let kept = first_occurrences(listed);
    lemma_first_occurrences(listed);
    let grown_first = before.cache.rooms(first).push(uuid);
    assert(grown_first[grown_first.len() - 1] == uuid);
    let grown_second = before.cache.rooms(second).push(uuid);
    assert(grown_second[grown_second.len() - 1] == uuid);
    lemma_no_rows_no_members(tables.rooms_users@, uuid);
    crate::entities::relations::lemma_members_of_add(
        tables.rooms_users@,
        rows_for(uuid, kept),
        uuid,
    );
    crate::entities::relations::lemma_members_of_rows(uuid, kept, uuid);
}

/// A published message reaches a subscription exactly once if the
/// subscription wants it and its channel has room, and not at all otherwise:
/// the number of times the message waits in the output goes up by one, or
/// stays.
pub proof fn lemma_published_once(after: Chat, before: Chat, message: Message, k: int)
    requires
        after.published(before, message),
        0 <= k < before.room_streams@.len(),
    ensures
        ({
            let stream = before.room_streams@[k];
            let waiting_before = stream.output.grpc_rx@.to_multiset().count(message);
            let waiting_after = after.room_streams@[k].output.grpc_rx@.to_multiset().count(
                message,
            );
            if stream.wants(message, before.cache.rooms(stream.subscriber))
                && stream.output.has_room() {
                waiting_after == waiting_before + 1
            } else {
                waiting_after == waiting_before
            }
        }),
{
    let stream = before.room_streams@[k];
    vstd::seq_lib::to_multiset_build(stream.output.grpc_rx@, message);
}

/// A subscription that starts after a message was published does not hold
/// that message: it starts with nothing.
pub proof fn lemma_nothing_before_subscription(stream: RoomStream, message: Message)
    requires
        stream.output.grpc_rx@.len() == 0,
    ensures
        !stream.output.grpc_rx@.contains(message),
{
}

/// When one subscription is taken out, the number of live subscriptions
/// drops by one, every other subscription is still there and is as it was,
/// and none is left under the identifier that went.
pub proof fn lemma_disconnect_spares_others(before: Chat, after: Chat, k: int)
    requires
        before.streams_wf(),
        0 <= k < before.room_streams@.len(),
        after.room_streams@ == before.room_streams@.remove(k),
    ensures
        after.room_streams@.len() == before.room_streams@.len() - 1,
        forall|j: int|
            0 <= j < before.room_streams@.len() && j != k ==> after.room_streams@.contains(
                #[trigger] before.room_streams@[j],
            ),
        forall|j: int|
            0 <= j < after.room_streams@.len() ==> (#[trigger] after.room_streams@[j]).id
                != before.room_streams@[k].id,
{
    let old_streams = before.room_streams@;
    let new_streams = after.room_streams@;
    assert forall|j: int| 0 <= j < old_streams.len() && j != k implies new_streams.contains(
        #[trigger] old_streams[j],
    ) by {
        if j < k {
            assert(new_streams[j] == old_streams[j]);
        } else {
            assert(new_streams[j - 1] == old_streams[j]);
        }
    }
}

/// The request that opens the prompt for an analysis of a room.
pub const ANALYSIS_PREAMBLE: &'static str = "\n            \
    Hey. Here are a bunch of messages from a chat room, along with the user's names.\n            \
    I want you to analyze the messages and figure out what topics were discussed, as\n            \
    well as look for pattterns in the messages and provide insignt into the users'\n            \
    mood and intentions. Provide additional information about the same things the users\n            \
    were talking about. Your response will be used as a mean of improving the users'\n            \
    experience, and also be a part of a real-time behavioral analysis. Stay concise,\n            \
    go straight to the point, no introductions. Here are the messages:\n        ";

impl Persistence {
    /// The name of the registered user of the given identity: the empty name
    /// if there is none.
    pub open spec fn username_of(&self, uuid: Uuid) -> Seq<char> {
        if self.has_user(uuid) {
            self.users@[choose|i: int|
                0 <= i < self.users@.len() && (#[trigger] self.users@[i]).uuid == uuid].username@
        } else {
            Seq::empty()
        }
    }
}

/// The transcript of a list of messages: for each message a line break, the
/// name of its sender, a colon and a space, and its text.
pub open spec fn transcript(messages: Seq<Message>, store: Persistence) -> Seq<char>
    decreases messages.len(),
{
    if messages.len() == 0 {
        Seq::empty()
    } else {
        transcript(messages.drop_last(), store) + seq!['\n'] + store.username_of(
            messages.last().sender_uuid,
        ) + seq![':', ' '] + messages.last().text@
    }
}

impl Chat {
    /// The prompt that asks for an analysis of a room: the preamble, then the
    /// transcript of the stored messages of that room. Only a member of the
    /// room may ask.
    pub fn analysis_prompt(
        &self,
        store: &Persistence,
        request: Request<proto::Uuid>,
    ) -> (asked: Result<String, Status>)
        requires
            store.wf(),
        ensures
            match (originator_of(request.metadata@), named_uuid(request.message)) {
                (None, _) => asked matches Err(status) && status.code == Code::Unauthenticated,
                (Some(_), None) => asked matches Err(status) && status.code
                    == Code::InvalidArgument,
                (Some(caller), Some(room)) => if self.cache.rooms(caller).contains(room) {
                    asked matches Ok(prompt) && prompt@ == ANALYSIS_PREAMBLE@ + transcript(
                        messages_in(store.messages@, room),
                        *store,
                    )
                } else {
                    asked matches Err(status) && status.code == Code::PermissionDenied
                },
            },
    {
        let req_originator = match request.get_originator_uuid() {
            Ok(uuid) => uuid,
            Err(_) => {
                return Err(Status::unauthenticated("The request names no caller"));
            },
        };
        let req_room_uuid = match Uuid::try_from(request.into_inner()) {
            Ok(uuid) => uuid,
            Err(_) => {
                return Err(Status::invalid_argument("Invalid room UUID"));
            },
        };
        if !self.check_room_membership(&req_originator, &req_room_uuid) {
            return Err(Status::permission_denied("You're not a member of this room"));
        }
        let messages = store.load_messages(req_room_uuid);
        let mut prompt = String::from_str(ANALYSIS_PREAMBLE);
        let mut i: usize = 0;
        while i < messages.len()
            invariant
                i <= messages.len(),
                store.wf(),
                prompt@ == ANALYSIS_PREAMBLE@ + transcript(messages@.take(i as int), *store),
            decreases messages.len() - i,
        {
            proof {
                reveal_strlit("\n");
                reveal_strlit(": ");
                assert(messages@.take(i + 1).drop_last() =~= messages@.take(i as int));
            }
            prompt.append("\n");
            if let Some(user) = store.find_user(messages[i].sender_uuid) {
                prompt.append(user.username.as_str());
            }
            prompt.append(": ");
            prompt.append(messages[i].text.as_str());
            i = i + 1;
        }
        proof {
            assert(messages@.take(messages.len() as int) =~= messages@);
        }
        Ok(prompt)
    }
}

} // verus!
