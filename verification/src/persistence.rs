//! The durable tables: users, rooms, memberships and messages, with the keys
//! and references that the tables enforce.

use crate::entities::message::Message;
use crate::entities::relations::rooms_of;
use crate::entities::relations::rows_for;
use crate::entities::relations::RoomUser;
use crate::entities::room::Room;
use crate::entities::user::User;
use crate::entities::uuid::Uuid;
use vstd::prelude::*;

verus! {

/// Why the tables refused a write.
#[derive(Clone, Copy, Debug, PartialEq, Eq, Structural)]
pub enum StoreError {
    /// A row with the same key, or a user of the same name, is already there.
    UniqueViolation,
    /// A membership row names a user that is not registered.
    ForeignKeyViolation,
}

/// The four tables. Rows stay in the order in which they were written.
#[derive(Debug)]
pub struct Persistence {
    pub users: Vec<User>,
    pub rooms: Vec<Room>,
    pub rooms_users: Vec<RoomUser>,
    pub messages: Vec<Message>,
}

/// The messages of one room, in storage order.
pub open spec fn messages_in(messages: Seq<Message>, room: Uuid) -> Seq<Message>
    decreases messages.len(),
{
    if messages.len() == 0 {
        Seq::empty()
    } else if messages.last().room_uuid == room {
        messages_in(messages.drop_last(), room).push(messages.last())
    } else {
        messages_in(messages.drop_last(), room)
    }
}

/// The identifiers of the given users, in their order.
pub open spec fn uuids_of(users: Seq<User>) -> Seq<Uuid> {
    Seq::new(users.len(), |i: int| users[i].uuid)
}

/// The membership rows keep their references when nothing is taken from
/// the users and the rooms: if every user and every room is still at its
/// place under its identity, and the rows are the same, then every row
/// still names a registered user and an existing room.
proof fn lemma_references_kept(before: Persistence, after: Persistence)
    requires
        before.wf(),
        after.rooms_users@ == before.rooms_users@,
        before.users@.len() <= after.users@.len(),
        forall|k: int|
            0 <= k < before.users@.len() ==> (#[trigger] after.users@[k]).uuid
                == before.users@[k].uuid,
        before.rooms@.len() <= after.rooms@.len(),
        forall|r: int|
            0 <= r < before.rooms@.len() ==> (#[trigger] after.rooms@[r]).uuid
                == before.rooms@[r].uuid,
    ensures
        forall|i: int|
            0 <= i < after.rooms_users@.len() ==> after.has_user(
                (#[trigger] after.rooms_users@[i]).user_uuid,
            ) && after.has_room(after.rooms_users@[i].room_uuid),
{
    assert forall|i: int| 0 <= i < after.rooms_users@.len() implies after.has_user(
        (#[trigger] after.rooms_users@[i]).user_uuid,
    ) && after.has_room(after.rooms_users@[i].room_uuid) by {
        let row = before.rooms_users@[i];
        let k = choose|k: int|
            0 <= k < before.users@.len() && (#[trigger] before.users@[k]).uuid == row.user_uuid;
        assert(after.users@[k].uuid == row.user_uuid);
        let r = choose|r: int|
            0 <= r < before.rooms@.len() && (#[trigger] before.rooms@[r]).uuid == row.room_uuid;
        assert(after.rooms@[r].uuid == row.room_uuid);
    }
}

impl Persistence {
    /// Whether a user of this identity is registered.
    pub open spec fn has_user(&self, uuid: Uuid) -> bool {
        exists|i: int| 0 <= i < self.users@.len() && (#[trigger] self.users@[i]).uuid == uuid
    }

    /// Whether a user of this name is registered.
    pub open spec fn has_username(&self, name: Seq<char>) -> bool {
        exists|i: int| 0 <= i < self.users@.len() && (#[trigger] self.users@[i]).username@ == name
    }

    /// Whether a user of this name and password hash is registered.
    pub open spec fn has_credentials(&self, name: Seq<char>, password: Seq<char>) -> bool {
        exists|i: int|
            0 <= i < self.users@.len() && (#[trigger] self.users@[i]).username@ == name
                && self.users@[i].password@ == password
    }

    /// Whether a room of this identity exists.
    pub open spec fn has_room(&self, uuid: Uuid) -> bool {
        exists|i: int| 0 <= i < self.rooms@.len() && (#[trigger] self.rooms@[i]).uuid == uuid
    }

    /// Whether a message of this identity is stored.
    pub open spec fn has_message(&self, uuid: Uuid) -> bool {
        exists|i: int| 0 <= i < self.messages@.len() && (#[trigger] self.messages@[i]).uuid == uuid
    }

    /// Whether every one of the given identifiers is a registered user.
    pub open spec fn all_registered(&self, uuids: Seq<Uuid>) -> bool {
        forall|i: int| 0 <= i < uuids.len() ==> self.has_user(#[trigger] uuids[i])
    }

    /// The keys and references of the tables: identities and user names are
    /// unique, no membership row occurs twice, and every membership row
    /// names a registered user and an existing room.
    pub open spec fn wf(&self) -> bool {
        &&& forall|i: int, j: int|
            0 <= i < j < self.users@.len() ==> (#[trigger] self.users@[i]).uuid != (
            #[trigger] self.users@[j]).uuid
        &&& forall|i: int, j: int|
            0 <= i < j < self.users@.len() ==> (#[trigger] self.users@[i]).username@ != (
            #[trigger] self.users@[j]).username@
        &&& forall|i: int, j: int|
            0 <= i < j < self.rooms@.len() ==> (#[trigger] self.rooms@[i]).uuid != (
            #[trigger] self.rooms@[j]).uuid
        &&& forall|i: int, j: int|
            0 <= i < j < self.messages@.len() ==> (#[trigger] self.messages@[i]).uuid != (
            #[trigger] self.messages@[j]).uuid
        &&& self.rooms_users@.no_duplicates()
        &&& forall|i: int|
            0 <= i < self.rooms_users@.len() ==> self.has_user(
                (#[trigger] self.rooms_users@[i]).user_uuid,
            ) && self.has_room(self.rooms_users@[i].room_uuid)
    }

    /// Empty tables.
    pub fn new() -> (store: Persistence)
        ensures
            store.wf(),
            store.users@.len() == 0,
            store.rooms@.len() == 0,
            store.rooms_users@.len() == 0,
            store.messages@.len() == 0,
    {
        Persistence {
            users: Vec::new(),
            rooms: Vec::new(),
            rooms_users: Vec::new(),
            messages: Vec::new(),
        }
    }

    /// The registered user of the given identity.
    pub fn find_user(&self, uuid: Uuid) -> (found: Option<&User>)
        ensures
            found is Some <==> self.has_user(uuid),
            found matches Some(user) ==> user.uuid == uuid && self.users@.contains(*user),
    {
        let mut i: usize = 0;
        while i < self.users.len()
            invariant
                i <= self.users.len(),
                forall|j: int| 0 <= j < i ==> (#[trigger] self.users@[j]).uuid != uuid,
            decreases self.users.len() - i,
        {
            if self.users[i].uuid == uuid {
                return Some(&self.users[i]);
            }
            i = i + 1;
        }
        None
    }

    /// The registered user of the given name.
    pub fn find_user_by_name(&self, name: &str) -> (found: Option<&User>)
        ensures
            found is Some <==> self.has_username(name@),
            found matches Some(user) ==> user.username@ == name@ && self.users@.contains(*user),
    {
        let wanted = String::from_str(name);
        let mut i: usize = 0;
        while i < self.users.len()
            invariant
                i <= self.users.len(),
                wanted@ == name@,
                forall|j: int| 0 <= j < i ==> (#[trigger] self.users@[j]).username@ != name@,
            decreases self.users.len() - i,
        {
            if self.users[i].username == wanted {
                return Some(&self.users[i]);
            }
            i = i + 1;
        }
        None
    }

    /// The place in the users table of the user of the given name and
    /// password hash.
    pub fn position_by_credentials(&self, name: &str, password: &str) -> (found: Option<usize>)
        ensures
            found is Some <==> self.has_credentials(name@, password@),
            found matches Some(i) ==> i < self.users@.len() && self.users@[i as int].username@
                == name@ && self.users@[i as int].password@ == password@,
    {
        let wanted_name = String::from_str(name);
        let wanted_password = String::from_str(password);
        let mut i: usize = 0;
        while i < self.users.len()
            invariant
                i <= self.users.len(),
                wanted_name@ == name@,
                wanted_password@ == password@,
                forall|j: int|
                    0 <= j < i ==> !((#[trigger] self.users@[j]).username@ == name@
                        && self.users@[j].password@ == password@),
            decreases self.users.len() - i,
        {
            if self.users[i].username == wanted_name && self.users[i].password == wanted_password {
                return Some(i);
            }
            i = i + 1;
        }
        None
    }

    /// Gives the user at a place in the users table a new token. Nothing
    /// else changes.
    pub fn set_token(&mut self, position: usize, token: crate::entities::token::AuthToken)
        requires
            old(self).wf(),
            position < old(self).users@.len(),
        ensures
            final(self).wf(),
            final(self).rooms == old(self).rooms,
            final(self).rooms_users == old(self).rooms_users,
            final(self).messages == old(self).messages,
            final(self).users@.len() == old(self).users@.len(),
            forall|i: int|
                0 <= i < old(self).users@.len() && i != position ==> final(self).users@[i]
                    == old(self).users@[i],
            final(self).users@[position as int].uuid == old(self).users@[position as int].uuid,
            final(self).users@[position as int].username
                == old(self).users@[position as int].username,
            final(self).users@[position as int].password
                == old(self).users@[position as int].password,
            final(self).users@[position as int].auth_token == token,
    {
        self.users[position].auth_token = token;
        proof {
            lemma_references_kept(*old(self), *self);
        }
    }

    /// Registers a user. Refused, with the tables unchanged, if the identity
    /// or the name is taken.
    pub fn insert_user(&mut self, user: User) -> (inserted: Result<(), StoreError>)
        requires
            old(self).wf(),
        ensures
            final(self).wf(),
            final(self).rooms == old(self).rooms,
            final(self).rooms_users == old(self).rooms_users,
            final(self).messages == old(self).messages,
            old(self).has_user(user.uuid) || old(self).has_username(user.username@) ==> inserted
                == Err::<(), StoreError>(StoreError::UniqueViolation) && final(self).users
                    == old(self).users,
            !old(self).has_user(user.uuid) && !old(self).has_username(user.username@) ==> inserted
                is Ok && final(self).users@ == old(self).users@.push(user),
    {
        if self.find_user(user.uuid).is_some() {
            return Err(StoreError::UniqueViolation);
        }
        if self.find_user_by_name(user.username.as_str()).is_some() {
            return Err(StoreError::UniqueViolation);
        }
        self.users.push(user);
        proof {
            lemma_references_kept(*old(self), *self);
        }
        Ok(())
    }

    /// The room of the given identity.
    pub fn find_room(&self, uuid: Uuid) -> (found: Option<&Room>)
        ensures
            found is Some <==> self.has_room(uuid),
            found matches Some(room) ==> room.uuid == uuid && self.rooms@.contains(*room),
    {
        let mut i: usize = 0;
        while i < self.rooms.len()
            invariant
                i <= self.rooms.len(),
                forall|j: int| 0 <= j < i ==> (#[trigger] self.rooms@[j]).uuid != uuid,
            decreases self.rooms.len() - i,
        {
            if self.rooms[i].uuid == uuid {
                return Some(&self.rooms[i]);
            }
            i = i + 1;
        }
        None
    }

    /// Whether a message of the given identity is stored.
    pub fn contains_message(&self, uuid: Uuid) -> (found: bool)
        ensures
            found == self.has_message(uuid),
    {
        let mut i: usize = 0;
        while i < self.messages.len()
            invariant
                i <= self.messages.len(),
                forall|j: int| 0 <= j < i ==> (#[trigger] self.messages@[j]).uuid != uuid,
            decreases self.messages.len() - i,
        {
            if self.messages[i].uuid == uuid {
                return true;
            }
            i = i + 1;
        }
        false
    }

    /// Whether all of the given identifiers are registered users.
    pub fn registered(&self, uuids: &Vec<Uuid>) -> (all: bool)
        ensures
            all == self.all_registered(uuids@),
    {
        let mut i: usize = 0;
        while i < uuids.len()
            invariant
                i <= uuids.len(),
                forall|j: int| 0 <= j < i ==> self.has_user(#[trigger] uuids@[j]),
            decreases uuids.len() - i,
        {
            if self.find_user(uuids[i]).is_none() {
                return false;
            }
            i = i + 1;
        }
        true
    }

    /// Writes a room and the membership rows of its members as one unit:
    /// either all of it is written or nothing is. Refused if the room's
    /// identity is taken, if a member is listed twice, or if a member is not
    /// a registered user.
    pub fn insert_room(
        &mut self,
        room: Room,
        members: &Vec<Uuid>,
    ) -> (inserted: Result<(), StoreError>)
        requires
            old(self).wf(),
        ensures
            final(self).wf(),
            final(self).users == old(self).users,
            final(self).messages == old(self).messages,
            inserted is Ok <==> !old(self).has_room(room.uuid) && members@.no_duplicates()
                && old(self).all_registered(members@),
            inserted is Ok ==> final(self).rooms@ == old(self).rooms@.push(room)
                && final(self).rooms_users@
                == old(self).rooms_users@ + rows_for(room.uuid, members@),
            inserted is Err ==> final(self).rooms == old(self).rooms && final(self).rooms_users
                == old(self).rooms_users,
            inserted matches Err(error) ==> error == (if old(self).has_room(room.uuid)
                || !members@.no_duplicates() {
                StoreError::UniqueViolation
            } else {
                StoreError::ForeignKeyViolation
            }),
    {
        if self.find_room(room.uuid).is_some() {
            return Err(StoreError::UniqueViolation);
        }
        if !all_distinct(members) {
            return Err(StoreError::UniqueViolation);
        }
        if !self.registered(members) {
            return Err(StoreError::ForeignKeyViolation);
        }
        let room_uuid = room.uuid;
        self.rooms.push(room);
        let ghost rooms_after = self.rooms@;
        let mut i: usize = 0;
        while i < members.len()
            invariant
                i <= members.len(),
                self.users == old(self).users,
                self.messages == old(self).messages,
                self.rooms@ == rooms_after,
                self.rooms_users@ == old(self).rooms_users@ + rows_for(
                    room_uuid,
                    members@.take(i as int),
                ),
            decreases members.len() - i,
        {
            self.rooms_users.push(RoomUser { room_uuid, user_uuid: members[i] });
            i = i + 1;
        }
        proof {
            let before = old(self).rooms_users@;
            let after = self.rooms_users@;
            assert(self.rooms@[self.rooms@.len() - 1].uuid == room_uuid);
            assert forall|k: int| 0 <= k < after.len() implies self.has_user(
                (#[trigger] after[k]).user_uuid,
            ) && self.has_room(after[k].room_uuid) by {
                if k < before.len() {
                    let r = choose|r: int|
                        0 <= r < old(self).rooms@.len() && (#[trigger] old(self).rooms@[r]).uuid
                            == before[k].room_uuid;
                    assert(self.rooms@[r].uuid == before[k].room_uuid);
                }
            }
        }
        Ok(())
    }

    /// Stores a message. Refused, with the tables unchanged, if its identity
    /// is taken.
    pub fn insert_message(&mut self, message: Message) -> (inserted: Result<(), StoreError>)
        requires
            old(self).wf(),
        ensures
            final(self).wf(),
            final(self).users == old(self).users,
            final(self).rooms == old(self).rooms,
            final(self).rooms_users == old(self).rooms_users,
            old(self).has_message(message.uuid) ==> inserted == Err::<(), StoreError>(
                StoreError::UniqueViolation,
            ) && final(self).messages == old(self).messages,
            !old(self).has_message(message.uuid) ==> inserted is Ok && final(self).messages@
                == old(self).messages@.push(message),
    {
        if self.contains_message(message.uuid) {
            return Err(StoreError::UniqueViolation);
        }
        self.messages.push(message);
        proof {
            lemma_references_kept(*old(self), *self);
        }
        Ok(())
    }

    /// The messages of one room, in storage order.
    pub fn load_messages(&self, room: Uuid) -> (found: Vec<Message>)
        ensures
            found@ == messages_in(self.messages@, room),
    {
        let mut found: Vec<Message> = Vec::new();
        let mut i: usize = 0;
        while i < self.messages.len()
            invariant
                i <= self.messages.len(),
                found@ == messages_in(self.messages@.take(i as int), room),
            decreases self.messages.len() - i,
        {
            proof {
                assert(self.messages@.take(i + 1).drop_last() =~= self.messages@.take(i as int));
            }
            if self.messages[i].room_uuid == room {
                found.push(self.messages[i].clone());
            }
            i = i + 1;
        }
        proof {
            assert(self.messages@.take(self.messages.len() as int) =~= self.messages@);
        }
        found
    }

    /// The rooms of one user, in the order of the membership rows.
    pub fn load_rooms_of(&self, user: Uuid) -> (found: Vec<Uuid>)
        ensures
            found@ == rooms_of(self.rooms_users@, user),
    {
        let mut found: Vec<Uuid> = Vec::new();
        let mut i: usize = 0;
        while i < self.rooms_users.len()
            invariant
                i <= self.rooms_users.len(),
                found@ == rooms_of(self.rooms_users@.take(i as int), user),
            decreases self.rooms_users.len() - i,
        {
            proof {
                assert(self.rooms_users@.take(i + 1).drop_last() =~= self.rooms_users@.take(
                    i as int,
                ));
            }
            if self.rooms_users[i].user_uuid == user {
                found.push(self.rooms_users[i].room_uuid);
            }
            i = i + 1;
        }
        proof {
            assert(self.rooms_users@.take(self.rooms_users.len() as int) =~= self.rooms_users@);
        }
        found
    }

    /// The identifiers of all registered users, in the order of registration.
    pub fn user_uuids(&self) -> (uuids: Vec<Uuid>)
        ensures
            uuids@ == uuids_of(self.users@),
    {
        let mut uuids: Vec<Uuid> = Vec::new();
        let mut i: usize = 0;
        while i < self.users.len()
            invariant
                i <= self.users.len(),
                uuids@ == uuids_of(self.users@.take(i as int)),
            decreases self.users.len() - i,
        {
            uuids.push(self.users[i].uuid);
            i = i + 1;
        }
        uuids
    }
}

/// Whether no identifier occurs twice in the list.
pub fn all_distinct(uuids: &Vec<Uuid>) -> (distinct: bool)
    ensures
        distinct == uuids@.no_duplicates(),
{
    let mut i: usize = 0;
    while i < uuids.len()
        invariant
            i <= uuids.len(),
            forall|a: int, b: int| 0 <= a < b < i ==> uuids@[a] != uuids@[b],
        decreases uuids.len() - i,
    {
        let mut j: usize = 0;
        while j < i
            invariant
                j <= i,
                i < uuids.len(),
                forall|a: int| 0 <= a < j ==> uuids@[a] != uuids@[i as int],
            decreases i - j,
        {
            if uuids[j] == uuids[i] {
                return false;
            }
            j = j + 1;
        }
        i = i + 1;
    }
    true
}

} // verus!
