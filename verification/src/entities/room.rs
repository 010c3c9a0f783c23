//! Rooms: named groups of users who may exchange messages.

use crate::entities::relations::members_of;
use crate::entities::relations::RoomUser;
use crate::entities::uuid::uuid_text;
use crate::entities::uuid::Uuid;
use crate::proto::ServersideRoom;
use vstd::prelude::*;

verus! {

/// A room. It does not change once it is made.
#[derive(Debug)]
pub struct Room {
    pub uuid: Uuid,
    pub name: String,
}

impl Clone for Room {
    fn clone(&self) -> (copy: Self)
        ensures
            copy == *self,
    {
        Room { uuid: self.uuid, name: self.name.clone() }
    }
}

impl Room {
    /// A room of the given name under a fresh identity.
    pub fn new(name: &str) -> (room: Room)
        ensures
            room.name@ == name@,
            crate::entities::uuid::is_version_4(room.uuid.value),
    {
        Room::with_identity(Uuid::new_v4(), name)
    }

    /// The room of the given identity and name.
    pub fn with_identity(uuid: Uuid, name: &str) -> (room: Room)
        ensures
            room.uuid == uuid,
            room.name@ == name@,
    {
        Room { uuid, name: String::from_str(name) }
    }

    /// The members of this room, as the given membership relation lists
    /// them.
    pub fn get_members(&self, relation: &Vec<RoomUser>) -> (members: Vec<Uuid>)
        ensures
            members@ == members_of(relation@, self.uuid),
    {
        let mut members: Vec<Uuid> = Vec::new();
        let mut i: usize = 0;
        while i < relation.len()
            invariant
                i <= relation.len(),
                members@ == members_of(relation@.take(i as int), self.uuid),
            decreases relation.len() - i,
        {
            proof {
                assert(relation@.take(i + 1).drop_last() =~= relation@.take(i as int));
            }
            if relation[i].room_uuid == self.uuid {
                members.push(relation[i].user_uuid);
            }
            i = i + 1;
        }
        proof {
            assert(relation@.take(relation.len() as int) =~= relation@);
        }
        members
    }
}

impl ServersideRoom {
    /// The text that shows a room in a list: its name, then the text of its
    /// identifier in brackets (nothing between the brackets if it has none).
    pub fn to_text(&self) -> (text: String)
        ensures
            text@ == self.name@ + seq![' ', '('] + (match self.uuid {
                Some(wire) => wire.uuid@,
                None => Seq::<char>::empty(),
            }) + seq![')'],
    {
        let mut text = self.name.clone();
        proof {
            reveal_strlit(" (");
            reveal_strlit(")");
        }
        text.append(" (");
        match &self.uuid {
            Some(wire) => {
                text.append(wire.uuid.as_str());
            },
            None => {
            },
        }
        text.append(")");
        text
    }
}

/// The wire forms of a list of identifiers, in their order.
pub fn to_proto_uuids(uuids: &Vec<Uuid>) -> (wire: Vec<crate::proto::Uuid>)
    ensures
        wire@.len() == uuids@.len(),
        forall|i: int| 0 <= i < uuids@.len() ==> (#[trigger] wire@[i]).uuid@
            == uuid_text(uuids@[i].value),
{
    let mut wire: Vec<crate::proto::Uuid> = Vec::new();
    let mut i: usize = 0;
    while i < uuids.len()
        invariant
            i <= uuids.len(),
            wire@.len() == i,
            forall|j: int| 0 <= j < i ==> (#[trigger] wire@[j]).uuid@ == uuid_text(uuids@[j].value),
        decreases uuids.len() - i,
    {
        wire.push(crate::proto::Uuid::from(uuids[i]));
        i = i + 1;
    }
    wire
}

} // verus!
