//! Messages: made when sent, never changed afterwards.

use crate::auth::originator_of;
use crate::auth::AuthenticatedRequest;
use crate::entities::uuid::parsed_uuid;
use crate::entities::uuid::uuid_text;
use crate::entities::uuid::Uuid;
use crate::entities::ConversionError;
use crate::proto::ClientsideMessage;
use crate::proto::RoomEvent;
use crate::proto::ServersideMessage;
use crate::proto::ServersideRoomEvent;
use crate::proto::Timestamp;
use crate::request::Request;
use crate::status::Code;
use crate::status::Status;
use vstd::prelude::*;
use vstd::std_specs::convert::FromSpecImpl;
use vstd::std_specs::convert::TryFromSpecImpl;

verus! {

/// `std::time::SystemTime::now`, turned into seconds and nanoseconds by
/// `prost_types::Timestamp::from`. Trusted: whatever the clock says, the
/// nanoseconds are a fraction of one second.
#[verifier::external_body]
fn current_time() -> (now: Timestamp)
    ensures
        0 <= now.nanos < 1_000_000_000,
{
    let now = prost_types::Timestamp::from(std::time::SystemTime::now());
    Timestamp { seconds: now.seconds, nanos: now.nanos }
}

/// A message of one sender in one room.
#[derive(Debug)]
pub struct Message {
    pub uuid: Uuid,
    pub sender_uuid: Uuid,
    pub room_uuid: Uuid,
    pub text: String,
    pub timestamp: Timestamp,
}

impl Clone for Message {
    fn clone(&self) -> (copy: Self)
        ensures
            copy == *self,
    {
        Message {
            uuid: self.uuid,
            sender_uuid: self.sender_uuid,
            room_uuid: self.room_uuid,
            text: self.text.clone(),
            timestamp: self.timestamp,
        }
    }
}

/// The room that a client's message is meant for, if it names one.
pub open spec fn requested_room(msg: ClientsideMessage) -> Option<Uuid> {
    match msg.room_uuid {
        Some(wire) => match parsed_uuid(wire.uuid@) {
            Some(value) => Some(Uuid { value }),
            None => None,
        },
        None => None,
    }
}

impl Message {
    /// A message under a fresh identity, stamped with the current time.
    pub fn new(text: &str, sender_uuid: Uuid, room_uuid: Uuid) -> (message: Message)
        ensures
            message.sender_uuid == sender_uuid,
            message.room_uuid == room_uuid,
            message.text@ == text@,
            crate::entities::uuid::is_version_4(message.uuid.value),
            0 <= message.timestamp.nanos < 1_000_000_000,
    {
        Message::with_identity(
            Uuid::new_v4(),
            current_time(),
            String::from_str(text),
            sender_uuid,
            room_uuid,
        )
    }

    /// The message of the given identity, time, text, sender and room.
    pub fn with_identity(
        uuid: Uuid,
        timestamp: Timestamp,
        text: String,
        sender_uuid: Uuid,
        room_uuid: Uuid,
    ) -> (message: Message)
        ensures
            message == (Message { uuid, sender_uuid, room_uuid, text, timestamp }),
    {
        Message { uuid, sender_uuid, room_uuid, text, timestamp }
    }

    /// The message that a client sent, under a fresh identity and stamped
    /// with the current time. A message that names no room is refused.
    pub fn from_clientside_message(
        msg: ClientsideMessage,
        sender_uuid: Uuid,
    ) -> (message: Result<Message, ConversionError>)
        ensures
            match requested_room(msg) {
                Some(room) => message matches Ok(made) && made.sender_uuid == sender_uuid
                    && made.room_uuid == room && made.text == msg.text,
                None => message == Err::<Message, ConversionError>(ConversionError::MissingField),
            },
    {
        Message::from_clientside_at(msg, sender_uuid, Uuid::new_v4(), current_time())
    }

    /// The message that a client sent, under the given identity and time.
    pub fn from_clientside_at(
        msg: ClientsideMessage,
        sender_uuid: Uuid,
        uuid: Uuid,
        timestamp: Timestamp,
    ) -> (message: Result<Message, ConversionError>)
        ensures
            message == (match requested_room(msg) {
                Some(room_uuid) => Ok::<Message, ConversionError>(
                    Message { uuid, sender_uuid, room_uuid, text: msg.text, timestamp },
                ),
                None => Err(ConversionError::MissingField),
            }),
    {
        let room_uuid = match msg.room_uuid {
            Some(wire) => match Uuid::try_from(wire) {
                Ok(room) => room,
                Err(_) => {
                    return Err(ConversionError::MissingField);
                },
            },
            None => {
                return Err(ConversionError::MissingField);
            },
        };
        Ok(Message { uuid, sender_uuid, room_uuid, text: msg.text, timestamp })
    }

    /// The message as a line of a transcript: the sender, a colon and a
    /// space, the text.
    pub fn to_text(&self) -> (line: String)
        ensures
            line@ == uuid_text(self.sender_uuid.value) + seq![':', ' '] + self.text@,
    {
        let mut line = self.sender_uuid.to_text();
        proof {
            reveal_strlit(": ");
        }
        line.append(": ");
        line.append(self.text.as_str());
        line
    }

    /// The message that a wire message stands for. One that lacks a field, or
    /// holds an identifier that is not well formed, is refused.
    pub fn from_serverside_message(
        wire: &ServersideMessage,
    ) -> (message: Result<Message, ConversionError>)
        ensures
            match decoded(*wire) {
                Some((uuid, sender_uuid, room_uuid, timestamp)) => message matches Ok(made)
                    && made.uuid == uuid && made.sender_uuid == sender_uuid && made.room_uuid
                    == room_uuid && made.timestamp == timestamp && made.text == wire.text,
                None => message == Err::<Message, ConversionError>(ConversionError::MissingField),
            },
    {
        let uuid = match &wire.uuid {
            Some(text) => match Uuid::parse_str(text.uuid.as_str()) {
                Ok(uuid) => uuid,
                Err(_) => {
                    return Err(ConversionError::MissingField);
                },
            },
            None => {
                return Err(ConversionError::MissingField);
            },
        };
        let sender_uuid = match &wire.sender_uuid {
            Some(text) => match Uuid::parse_str(text.uuid.as_str()) {
                Ok(uuid) => uuid,
                Err(_) => {
                    return Err(ConversionError::MissingField);
                },
            },
            None => {
                return Err(ConversionError::MissingField);
            },
        };
        let room_uuid = match &wire.room_uuid {
            Some(text) => match Uuid::parse_str(text.uuid.as_str()) {
                Ok(uuid) => uuid,
                Err(_) => {
                    return Err(ConversionError::MissingField);
                },
            },
            None => {
                return Err(ConversionError::MissingField);
            },
        };
        let timestamp = match wire.timestamp {
            Some(timestamp) => timestamp,
            None => {
                return Err(ConversionError::MissingField);
            },
        };
        Ok(Message { uuid, sender_uuid, room_uuid, text: wire.text.clone(), timestamp })
    }
}

/// The identity, sender, room and time that a wire message names, if it holds
/// all four and the identifiers are well formed.
pub open spec fn decoded(wire: ServersideMessage) -> Option<(Uuid, Uuid, Uuid, Timestamp)> {
    match (wire.uuid, wire.sender_uuid, wire.room_uuid, wire.timestamp) {
        (Some(uuid), Some(sender_uuid), Some(room_uuid), Some(timestamp)) => match (
            parsed_uuid(uuid.uuid@),
            parsed_uuid(sender_uuid.uuid@),
            parsed_uuid(room_uuid.uuid@),
        ) {
            (Some(uuid), Some(sender), Some(room)) => Some(
                (Uuid { value: uuid }, Uuid { value: sender }, Uuid { value: room }, timestamp),
            ),
            _ => None,
        },
        _ => None,
    }
}

impl ServersideMessage {
    /// Whether this wire message carries the given message: its three
    /// identifiers in their canonical text, its text and its time.
    pub open spec fn carries(&self, message: Message) -> bool {
        &&& self.uuid matches Some(uuid)
        &&& uuid.uuid@ == uuid_text(message.uuid.value)
        &&& parsed_uuid(uuid.uuid@) == Some(message.uuid.value)
        &&& self.sender_uuid matches Some(sender_uuid)
        &&& sender_uuid.uuid@ == uuid_text(message.sender_uuid.value)
        &&& parsed_uuid(sender_uuid.uuid@) == Some(message.sender_uuid.value)
        &&& self.room_uuid matches Some(room_uuid)
        &&& room_uuid.uuid@ == uuid_text(message.room_uuid.value)
        &&& parsed_uuid(room_uuid.uuid@) == Some(message.room_uuid.value)
        &&& self.text == message.text
        &&& self.timestamp == Some(message.timestamp)
    }
}

impl ServersideRoomEvent {
    /// Whether this event announces the given message in the given room.
    pub open spec fn announces(&self, room: Uuid, message: Message) -> bool {
        &&& self.room_uuid matches Some(room_uuid)
        &&& room_uuid.uuid@ == uuid_text(room.value)
        &&& parsed_uuid(room_uuid.uuid@) == Some(room.value)
        &&& self.event matches Some(RoomEvent::NewMessage(wire))
        &&& wire.carries(message)
    }

    /// The event that announces a new message to the subscribers of a room.
    pub fn new_message(room: Uuid, message: Message) -> (event: ServersideRoomEvent)
        ensures
            event.announces(room, message),
    {
        ServersideRoomEvent {
            room_uuid: Some(crate::proto::Uuid::from(room)),
            event: Some(RoomEvent::NewMessage(ServersideMessage::from(message))),
        }
    }
}

/// A message that went out as an event and is read back from it is the
/// message that was sent: the same identity, sender, room, text and time.
/// This holds of every text, the empty one too.
pub proof fn lemma_message_round_trip(message: Message, room: Uuid, event: ServersideRoomEvent)
    requires
        event.announces(room, message),
    ensures
        event.event matches Some(RoomEvent::NewMessage(wire)) && decoded(wire) == Some(
            (message.uuid, message.sender_uuid, message.room_uuid, message.timestamp),
        ) && wire.text == message.text,
{
}

impl From<Message> for ServersideMessage {
    fn from(msg: Message) -> (wire: ServersideMessage)
        ensures
            wire.carries(msg),
    {
        ServersideMessage {
            uuid: Some(crate::proto::Uuid::from(msg.uuid)),
            sender_uuid: Some(crate::proto::Uuid::from(msg.sender_uuid)),
            room_uuid: Some(crate::proto::Uuid::from(msg.room_uuid)),
            text: msg.text,
            timestamp: Some(msg.timestamp),
        }
    }
}

/// The wire form holds `String`s, which no specification can construct; what
/// `from` gives is therefore stated on `from` itself.
impl FromSpecImpl<Message> for ServersideMessage {
    open spec fn obeys_from_spec() -> bool {
        false
    }

    open spec fn from_spec(msg: Message) -> ServersideMessage {
        arbitrary()
    }
}

impl TryFrom<Request<ClientsideMessage>> for Message {
    type Error = Status;

    /// The message that a request asks to send: the sender is the caller
    /// that the metadata names. A request without a well-formed caller, or
    /// whose message names no room, is an invalid argument.
    fn try_from(request: Request<ClientsideMessage>) -> (message: Result<Message, Status>)
        ensures
            match (originator_of(request.metadata@), requested_room(request.message)) {
                (Some(sender), Some(room)) => message matches Ok(made) && made.sender_uuid
                    == sender && made.room_uuid == room && made.text == request.message.text,
                _ => message matches Err(status) && status.code == Code::InvalidArgument,
            },
    {
        let user_uuid = match request.get_originator_uuid() {
            Ok(uuid) => uuid,
            Err(_) => {
                return Err(
                    Status::invalid_argument(
                        "The sender's UUID is invalid or missing from request's metadata",
                    ),
                );
            },
        };
        let msg = request.into_inner();
        match Message::from_clientside_message(msg, user_uuid) {
            Ok(message) => Ok(message),
            Err(error) => Err(Status::invalid_argument(error.message())),
        }
    }
}

/// What `try_from` gives depends on the clock and on a random identity, so it
/// is stated on `try_from` itself.
impl TryFromSpecImpl<Request<ClientsideMessage>> for Message {
    open spec fn obeys_try_from_spec() -> bool {
        false
    }

    open spec fn try_from_spec(request: Request<ClientsideMessage>) -> Result<Message, Status> {
        arbitrary()
    }
}

} // verus!
