//! The wire forms of the entities, as they travel in requests, responses and
//! events. Identifiers and tokens are carried as text.

use vstd::prelude::*;

verus! {

/// A UUID in its textual wire form.
#[derive(Debug, PartialEq, Eq)]
pub struct Uuid {
    pub uuid: String,
}

impl Clone for Uuid {
    fn clone(&self) -> (copy: Self)
        ensures
            copy == *self,
    {
        Uuid { uuid: self.uuid.clone() }
    }
}

impl Default for Uuid {
    fn default() -> (empty: Self)
        ensures
            empty.uuid@ == Seq::<char>::empty(),
    {
        Uuid { uuid: String::new() }
    }
}

/// An authentication token in its textual wire form.
#[derive(Debug, PartialEq, Eq)]
pub struct AuthToken {
    pub token: String,
}

impl Clone for AuthToken {
    fn clone(&self) -> (copy: Self)
        ensures
            copy == *self,
    {
        AuthToken { token: self.token.clone() }
    }
}

impl Default for AuthToken {
    fn default() -> (empty: Self)
        ensures
            empty.token@ == Seq::<char>::empty(),
    {
        AuthToken { token: String::new() }
    }
}

/// The credential pair that a login gives and every protected call carries.
#[derive(Debug, PartialEq, Eq)]
pub struct AuthPair {
    pub user_uuid: Option<Uuid>,
    pub token: Option<AuthToken>,
}

impl Clone for AuthPair {
    fn clone(&self) -> (copy: Self)
        ensures
            copy == *self,
    {
        let user_uuid = match &self.user_uuid {
            Some(uuid) => Some(uuid.clone()),
            None => None,
        };
        let token = match &self.token {
            Some(token) => Some(token.clone()),
            None => None,
        };
        AuthPair { user_uuid, token }
    }
}

/// A name and a password, as given at registration and at login.
#[derive(Clone, Debug, PartialEq, Eq)]
pub struct UserCredentials {
    pub username: String,
    pub password: String,
}

/// What others may see of a user.
#[derive(Clone, Debug, PartialEq, Eq)]
pub struct User {
    pub uuid: Option<Uuid>,
    pub username: String,
}

/// A point in time: seconds and nanoseconds since the Unix epoch.
#[derive(Clone, Copy, Debug, PartialEq, Eq, Structural)]
pub struct Timestamp {
    pub seconds: i64,
    pub nanos: i32,
}

/// A message as a client sends it.
#[derive(Clone, Debug, PartialEq, Eq)]
pub struct ClientsideMessage {
    pub room_uuid: Option<Uuid>,
    pub text: String,
}

/// A message as the server hands it out.
#[derive(Debug, PartialEq, Eq)]
pub struct ServersideMessage {
    pub uuid: Option<Uuid>,
    pub sender_uuid: Option<Uuid>,
    pub room_uuid: Option<Uuid>,
    pub text: String,
    pub timestamp: Option<Timestamp>,
}

impl Clone for ServersideMessage {
    fn clone(&self) -> (copy: Self)
        ensures
            copy == *self,
    {
        let uuid = match &self.uuid {
            Some(uuid) => Some(uuid.clone()),
            None => None,
        };
        let sender_uuid = match &self.sender_uuid {
            Some(uuid) => Some(uuid.clone()),
            None => None,
        };
        let room_uuid = match &self.room_uuid {
            Some(uuid) => Some(uuid.clone()),
            None => None,
        };
        ServersideMessage {
            uuid,
            sender_uuid,
            room_uuid,
            text: self.text.clone(),
            timestamp: self.timestamp,
        }
    }
}

/// A room as a client asks for it.
#[derive(Clone, Debug, PartialEq, Eq)]
pub struct ClientsideRoom {
    pub name: String,
    pub members: Vec<Uuid>,
}

/// A room as the server hands it out.
#[derive(Clone, Debug, PartialEq, Eq)]
pub struct ServersideRoom {
    pub uuid: Option<Uuid>,
    pub name: String,
    pub members: Vec<Uuid>,
}

/// What can happen in a room.
#[derive(Clone, Debug, PartialEq, Eq)]
pub enum RoomEvent {
    NewMessage(ServersideMessage),
}

/// An event of one room, as a subscriber of that room receives it.
#[derive(Clone, Debug, PartialEq, Eq)]
pub struct ServersideRoomEvent {
    pub room_uuid: Option<Uuid>,
    pub event: Option<RoomEvent>,
}

/// What can happen to a user.
#[derive(Clone, Debug, PartialEq, Eq)]
pub enum UserEvent {
    AddedToRoom(Uuid),
}

/// An event that concerns one user.
#[derive(Debug, PartialEq, Eq)]
pub struct ServersideUserEvent {
    pub user_uuid: Option<Uuid>,
    pub event: Option<UserEvent>,
}

impl Clone for ServersideUserEvent {
    fn clone(&self) -> (copy: Self)
        ensures
            copy == *self,
    {
        let user_uuid = match &self.user_uuid {
            Some(uuid) => Some(uuid.clone()),
            None => None,
        };
        let event = match &self.event {
            Some(UserEvent::AddedToRoom(room)) => Some(UserEvent::AddedToRoom(room.clone())),
            None => None,
        };
        ServersideUserEvent { user_uuid, event }
    }
}

/// How a user is looked up: by identifier or by name.
#[derive(Clone, Debug, PartialEq, Eq)]
pub enum Identifier {
    Uuid(Uuid),
    Username(String),
}

#[derive(Clone, Debug, PartialEq, Eq)]
pub struct UserLookupRequest {
    pub identifier: Option<Identifier>,
}

#[derive(Clone, Debug, PartialEq, Eq)]
pub struct RoomWithUserCreationRequest {
    pub user_uuid: Option<Uuid>,
}

#[derive(Clone, Debug, PartialEq, Eq)]
pub struct MessageList {
    pub messages: Vec<ServersideMessage>,
}

#[derive(Clone, Debug, PartialEq, Eq)]
pub struct RoomList {
    pub rooms: Vec<ServersideRoom>,
}

/// A room as the room manager keeps it.
#[derive(Debug, PartialEq, Eq)]
pub struct Room {
    pub uuid: Option<Uuid>,
    pub visible_name: String,
    pub user_uuids: Vec<Uuid>,
}

impl Clone for Room {
    fn clone(&self) -> (copy: Self)
        ensures
            copy.uuid == self.uuid,
            copy.visible_name == self.visible_name,
            copy.user_uuids@ == self.user_uuids@,
    {
        let uuid = match &self.uuid {
            Some(uuid) => Some(uuid.clone()),
            None => None,
        };
        let mut user_uuids: Vec<Uuid> = Vec::new();
        let mut i: usize = 0;
        while i < self.user_uuids.len()
            invariant
                i <= self.user_uuids.len(),
                user_uuids@ == self.user_uuids@.take(i as int),
            decreases self.user_uuids.len() - i,
        {
            user_uuids.push(self.user_uuids[i].clone());
            i = i + 1;
        }
        Room { uuid, visible_name: self.visible_name.clone(), user_uuids }
    }
}

#[derive(Clone, Debug, PartialEq, Eq)]
pub struct RoomCreationRequest {
    pub visible_name: String,
    pub user_uuids: Vec<Uuid>,
}

#[derive(Clone, Debug, PartialEq, Eq)]
pub struct RoomDeletionRequest {
    pub room_uuid: Option<Uuid>,
}

/// How a deletion ended.
#[derive(Clone, Debug, PartialEq, Eq)]
pub enum DeletionOutcome {
    Deleted(String),
}

#[derive(Clone, Debug, PartialEq, Eq)]
pub struct DeletionResult {
    pub outcome: Option<DeletionOutcome>,
}

#[derive(Clone, Debug, PartialEq, Eq)]
pub struct HelloRequest {
    pub name: String,
}

#[derive(Clone, Debug, PartialEq, Eq)]
pub struct HelloResponse {
    pub message: String,
}

} // verus!
