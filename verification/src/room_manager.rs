//! A plain list of rooms that can be made, listed and deleted.

use crate::entities::uuid::uuid_text;
use crate::entities::uuid::Uuid;
use crate::proto;
use crate::proto::DeletionOutcome;
use crate::proto::DeletionResult;
use crate::proto::Room;
use crate::proto::RoomCreationRequest;
use crate::proto::RoomDeletionRequest;
use crate::request::Request;
use crate::status::Code;
use crate::status::Status;
use vstd::prelude::*;

verus! {

/// The rooms, in no order that anyone may rely on after a deletion.
#[derive(Debug)]
pub struct RoomManager {
    pub rooms: Vec<Room>,
}

/// The identifier text that a deletion request names: the empty text if it
/// names none.
pub open spec fn named_room(request: RoomDeletionRequest) -> Seq<char> {
    match request.room_uuid {
        Some(wire) => wire.uuid@,
        None => Seq::empty(),
    }
}

/// Whether a room is kept under the given identifier text.
pub open spec fn kept_under(room: Room, text: Seq<char>) -> bool {
    room.uuid matches Some(wire) && wire.uuid@ == text
}

impl Default for RoomManager {
    fn default() -> (manager: RoomManager)
        ensures
            manager.rooms@.len() == 0,
    {
        RoomManager { rooms: Vec::new() }
    }
}

impl RoomManager {
    /// Keeps a new room under the given identity.
    pub fn keep(&mut self, uuid: Uuid, room: RoomCreationRequest) -> (wire: proto::Uuid)
        ensures
            wire.uuid@ == uuid_text(uuid.value),
            final(self).rooms@.len() == old(self).rooms@.len() + 1,
            final(self).rooms@.drop_last() == old(self).rooms@,
            kept_under(final(self).rooms@.last(), uuid_text(uuid.value)),
            final(self).rooms@.last().visible_name == room.visible_name,
            final(self).rooms@.last().user_uuids == room.user_uuids,
    {
        self.rooms.push(
            Room {
                uuid: Some(proto::Uuid::from(uuid)),
                visible_name: room.visible_name,
                user_uuids: room.user_uuids,
            },
        );
        proto::Uuid::from(uuid)
    }

    /// Makes a room under a fresh identity and gives that identity.
    pub fn create_room(
        &mut self,
        request: Request<RoomCreationRequest>,
    ) -> (made: Result<proto::Uuid, Status>)
        ensures
            made matches Ok(wire) && kept_under(final(self).rooms@.last(), wire.uuid@),
            final(self).rooms@.len() == old(self).rooms@.len() + 1,
            final(self).rooms@.drop_last() == old(self).rooms@,
            final(self).rooms@.last().visible_name == request.message.visible_name,
            final(self).rooms@.last().user_uuids == request.message.user_uuids,
    {
        Ok(self.keep(Uuid::new_v4(), request.into_inner()))
    }

    /// Deletes the first room that is kept under the identifier that the
    /// request names; the last room takes its place. A request that names no
    /// room of the list finds nothing and changes nothing.
    pub fn delete_room(
        &mut self,
        request: Request<RoomDeletionRequest>,
    ) -> (deleted: Result<DeletionResult, Status>)
        ensures
            match deleted {
                Ok(result) => exists|i: int|
                    {
                        &&& 0 <= i < old(self).rooms@.len()
                        &&& kept_under(#[trigger] old(self).rooms@[i], named_room(request.message))
                        &&& forall|j: int|
                            0 <= j < i ==> !kept_under(
                                #[trigger] old(self).rooms@[j],
                                named_room(request.message),
                            )
                        &&& final(self).rooms@ == old(self).rooms@.update(
                            i,
                            old(self).rooms@.last(),
                        ).drop_last()
                        &&& result.outcome matches Some(DeletionOutcome::Deleted(text))
                        &&& text@ == named_room(request.message)
                    },
                Err(status) => {
                    &&& status.code == Code::NotFound
                    &&& status.message@ == named_room(request.message)
                    &&& final(self).rooms == old(self).rooms
                    &&& forall|j: int|
                        0 <= j < old(self).rooms@.len() ==> !kept_under(
                            #[trigger] old(self).rooms@[j],
                            named_room(request.message),
                        )
                },
            },
    {
        let proto_uuid = match request.into_inner().room_uuid {
            Some(wire) => wire,
            None => proto::Uuid::default(),
        };
        let mut i: usize = 0;
        while i < self.rooms.len()
            invariant
                i <= self.rooms.len(),
                self.rooms == old(self).rooms,
                proto_uuid.uuid@ == named_room(request.message),
                forall|j: int|
                    0 <= j < i ==> !kept_under(#[trigger] self.rooms@[j], proto_uuid.uuid@),
            decreases self.rooms.len() - i,
        {
            let found = match &self.rooms[i].uuid {
                Some(wire) => wire.uuid == proto_uuid.uuid,
                None => false,
            };
            if found {
                let _ = self.rooms.swap_remove(i);
                return Ok(DeletionResult { outcome: Some(DeletionOutcome::Deleted(proto_uuid.uuid)) });
            }
            i = i + 1;
        }
        Err(Status::not_found(proto_uuid.uuid.as_str()))
    }

    /// All rooms, as they are kept.
    pub fn get_rooms(&self, request: Request<()>) -> (listed: Result<Vec<Room>, Status>)
        ensures
            listed matches Ok(rooms) && rooms@.len() == self.rooms@.len() && forall|i: int|
                0 <= i < rooms@.len() ==> {
                    &&& (#[trigger] rooms@[i]).uuid == self.rooms@[i].uuid
                    &&& rooms@[i].visible_name == self.rooms@[i].visible_name
                    &&& rooms@[i].user_uuids@ == self.rooms@[i].user_uuids@
                },
    {
        let mut rooms: Vec<Room> = Vec::new();
        let mut i: usize = 0;
        while i < self.rooms.len()
            invariant
                i <= self.rooms.len(),
                rooms@.len() == i,
                forall|j: int|
                    0 <= j < i ==> {
                        &&& (#[trigger] rooms@[j]).uuid == self.rooms@[j].uuid
                        &&& rooms@[j].visible_name == self.rooms@[j].visible_name
                        &&& rooms@[j].user_uuids@ == self.rooms@[j].user_uuids@
                    },
            decreases self.rooms.len() - i,
        {
            rooms.push(self.rooms[i].clone());
            i = i + 1;
        }
        Ok(rooms)
    }
}

} // verus!
