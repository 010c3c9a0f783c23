//! The membership relation: which user belongs to which room.

use crate::entities::uuid::Uuid;
use vstd::prelude::*;

verus! {

/// One row of the membership relation. The two identifiers together are its
/// key.
#[derive(Clone, Copy, Debug, PartialEq, Eq, Structural)]
pub struct RoomUser {
    pub room_uuid: Uuid,
    pub user_uuid: Uuid,
}

/// The rooms of a user, in the order in which the relation lists them.
pub open spec fn rooms_of(relation: Seq<RoomUser>, user: Uuid) -> Seq<Uuid>
    decreases relation.len(),
{
    if relation.len() == 0 {
        Seq::empty()
    } else if relation.last().user_uuid == user {
        rooms_of(relation.drop_last(), user).push(relation.last().room_uuid)
    } else {
        rooms_of(relation.drop_last(), user)
    }
}

/// The members of a room, in the order in which the relation lists them.
pub open spec fn members_of(relation: Seq<RoomUser>, room: Uuid) -> Seq<Uuid>
    decreases relation.len(),
{
    if relation.len() == 0 {
        Seq::empty()
    } else if relation.last().room_uuid == room {
        members_of(relation.drop_last(), room).push(relation.last().user_uuid)
    } else {
        members_of(relation.drop_last(), room)
    }
}

/// The rows that make the given users members of one room, one row per user
/// and in their order.
pub open spec fn rows_for(room: Uuid, users: Seq<Uuid>) -> Seq<RoomUser> {
    Seq::new(users.len(), |i: int| RoomUser { room_uuid: room, user_uuid: users[i] })
}

/// Rows appended to a relation append to a user's rooms what they list of
/// that user.
pub proof fn lemma_rooms_of_add(relation: Seq<RoomUser>, added: Seq<RoomUser>, user: Uuid)
    ensures
        rooms_of(relation + added, user) == rooms_of(relation, user) + rooms_of(added, user),
    decreases added.len(),
{
    if added.len() > 0 {
        let whole = relation + added;
        assert(whole.drop_last() =~= relation + added.drop_last());
        lemma_rooms_of_add(relation, added.drop_last(), user);
    }
}

/// Rows appended to a relation append to a room's members what they list of
/// that room.
pub proof fn lemma_members_of_add(relation: Seq<RoomUser>, added: Seq<RoomUser>, room: Uuid)
    ensures
        members_of(relation + added, room) == members_of(relation, room) + members_of(
            added,
            room,
        ),
    decreases added.len(),
{
    if added.len() > 0 {
        let whole = relation + added;
        assert(whole.drop_last() =~= relation + added.drop_last());
        lemma_members_of_add(relation, added.drop_last(), room);
    }
}

/// The rows made for one room list exactly the given users as its members,
/// and nothing for any other room.
pub proof fn lemma_members_of_rows(room: Uuid, users: Seq<Uuid>, other: Uuid)
    ensures
        members_of(rows_for(room, users), room) == users,
        other != room ==> members_of(rows_for(room, users), other) == Seq::<Uuid>::empty(),
    decreases users.len(),
{
    let rows = rows_for(room, users);
    if users.len() > 0 {
        assert(rows.drop_last() =~= rows_for(room, users.drop_last()));
        lemma_members_of_rows(room, users.drop_last(), other);
    }
}

/// The rows made for one room give that room to each of the given users, once
/// for each time the user is listed, and nothing to anyone else.
pub proof fn lemma_rooms_of_rows(room: Uuid, users: Seq<Uuid>, user: Uuid)
    ensures
        !users.contains(user) ==> rooms_of(rows_for(room, users), user) == Seq::<Uuid>::empty(),
        users.contains(user) && users.no_duplicates() ==> rooms_of(rows_for(room, users), user)
            == seq![room],
    decreases users.len(),
{
    let rows = rows_for(room, users);
    if users.len() > 0 {
        let rest = users.drop_last();
        assert(rows.drop_last() =~= rows_for(room, rest));
        lemma_rooms_of_rows(room, rest, user);
        if users.contains(user) {
            let i = choose|i: int| 0 <= i < users.len() && users[i] == user;
            if i < rest.len() {
                assert(rest[i] == user);
            }
        }
    }
}

} // verus!
