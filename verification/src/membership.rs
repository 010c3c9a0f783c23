//! The membership cache: a fast index from a user to the rooms the user
//! belongs to. It is derived from the membership relation and can be flushed
//! and rebuilt at any time.

use crate::entities::relations::rooms_of;
use crate::entities::relations::RoomUser;
use crate::entities::uuid::Uuid;
use crate::persistence::Persistence;
use std::collections::HashMap;
use vstd::prelude::*;

verus! {

/// The cache could not be read.
#[derive(Clone, Copy, Debug, PartialEq, Eq, Structural)]
pub enum CacheError {
    Unavailable,
}

/// The index itself: for each user an ordered list of rooms.
#[derive(Debug)]
pub struct MembershipCache {
    pub entries: HashMap<u128, Vec<Uuid>>,
}

/// A user without a row in the relation has no rooms.
pub proof fn lemma_no_rows_no_rooms(relation: Seq<RoomUser>, user: Uuid)
    requires
        forall|i: int| 0 <= i < relation.len() ==> (#[trigger] relation[i]).user_uuid != user,
    ensures
        rooms_of(relation, user) == Seq::<Uuid>::empty(),
    decreases relation.len(),
{
    if relation.len() > 0 {
        lemma_no_rows_no_rooms(relation.drop_last(), user);
    }
}

/// What a read of a user's rooms counts as: the rooms that were read, or, if
/// the read failed, no room at all. A failed read never makes anyone a
/// member.
pub open spec fn rooms_read(lookup: Result<Vec<Uuid>, CacheError>) -> Seq<Uuid> {
    match lookup {
        Ok(found) => found@,
        Err(_) => Seq::empty(),
    }
}

/// Whether a room is in a list of rooms.
pub fn is_member(rooms: &Vec<Uuid>, room: Uuid) -> (member: bool)
    ensures
        member == rooms@.contains(room),
{
    let mut i: usize = 0;
    while i < rooms.len()
        invariant
            i <= rooms.len(),
            forall|j: int| 0 <= j < i ==> rooms@[j] != room,
        decreases rooms.len() - i,
    {
        if rooms[i] == room {
            return true;
        }
        i = i + 1;
    }
    false
}

/// A copy of a list of identifiers.
pub fn copy_uuids(uuids: &Vec<Uuid>) -> (copy: Vec<Uuid>)
    ensures
        copy@ == uuids@,
{
    let mut copy: Vec<Uuid> = Vec::new();
    let mut i: usize = 0;
    while i < uuids.len()
        invariant
            i <= uuids.len(),
            copy@ == uuids@.take(i as int),
        decreases uuids.len() - i,
    {
        copy.push(uuids[i]);
        i = i + 1;
    }
    copy
}

impl MembershipCache {
    /// The rooms that the cache holds for a user: none for a user it does not
    /// know.
    pub open spec fn rooms(&self, user: Uuid) -> Seq<Uuid> {
        if self.entries@.contains_key(user.value) {
            self.entries@[user.value]@
        } else {
            Seq::empty()
        }
    }

    /// Whether the cache says of every user what the relation says.
    pub open spec fn mirrors(&self, relation: Seq<RoomUser>) -> bool {
        forall|user: Uuid| #[trigger] self.rooms(user) == rooms_of(relation, user)
    }

    /// An empty cache.
    pub fn new() -> (cache: MembershipCache)
        ensures
            forall|user: Uuid| #[trigger] cache.rooms(user) == Seq::<Uuid>::empty(),
    {
        MembershipCache { entries: HashMap::new() }
    }

    /// Forgets everything.
    pub fn flush(&mut self)
        ensures
            forall|user: Uuid| #[trigger] final(self).rooms(user) == Seq::<Uuid>::empty(),
    {
        self.entries.clear();
    }

    /// The rooms of a user, in the order in which they were added.
    pub fn get_rooms(&self, user: Uuid) -> (rooms: Vec<Uuid>)
        ensures
            rooms@ == self.rooms(user),
    {
        broadcast use vstd::std_specs::hash::group_hash_axioms;

        match self.entries.get(&user.value) {
            Some(rooms) => copy_uuids(rooms),
            None => Vec::new(),
        }
    }

    /// Appends a room to the rooms of a user.
    pub fn add_membership(&mut self, user: Uuid, room: Uuid)
        ensures
            final(self).rooms(user) == old(self).rooms(user).push(room),
            forall|other: Uuid| other != user ==> #[trigger] final(self).rooms(other)
                == old(self).rooms(other),
    {
        broadcast use vstd::std_specs::hash::group_hash_axioms;

        let mut rooms = match self.entries.remove(&user.value) {
            Some(rooms) => rooms,
            None => Vec::new(),
        };
        rooms.push(room);
        self.entries.insert(user.value, rooms);
    }

    /// Whether a room is among the rooms of a user. A user that the cache
    /// does not know is a member of nothing.
    pub fn check_membership(&self, user: Uuid, room: Uuid) -> (member: bool)
        ensures
            member == self.rooms(user).contains(room),
    {
        let rooms = self.get_rooms(user);
        is_member(&rooms, room)
    }

    /// What a read of the cache counts as: the rooms that were read, or, if
    /// the read failed, no room at all.
    pub fn rooms_or_empty(lookup: Result<Vec<Uuid>, CacheError>) -> (rooms: Vec<Uuid>)
        ensures
            rooms@ == rooms_read(lookup),
    {
        match lookup {
            Ok(found) => found,
            Err(_) => Vec::new(),
        }
    }

    /// Flushes the cache and fills it again from the tables: the rooms of
    /// every registered user, each user's rooms in the order of the
    /// membership rows.
    pub fn rebuild(&mut self, store: &Persistence)
        requires
            store.wf(),
        ensures
            final(self).mirrors(store.rooms_users@),
    {
        broadcast use vstd::std_specs::hash::group_hash_axioms;

        self.flush();
        let mut i: usize = 0;
        while i < store.users.len()
            invariant
                i <= store.users.len(),
                forall|user: Uuid| #[trigger]
                    self.rooms(user) == (if exists|j: int|
                        0 <= j < i && (#[trigger] store.users@[j]).uuid == user {
                        rooms_of(store.rooms_users@, user)
                    } else {
                        Seq::<Uuid>::empty()
                    }),
            decreases store.users.len() - i,
        {
            let user = store.users[i].uuid;
            let rooms = store.load_rooms_of(user);
            let ghost before = *self;
            self.entries.insert(user.value, rooms);
            proof {
                assert forall|other: Uuid| #[trigger]
                    self.rooms(other) == (if exists|j: int|
                        0 <= j < i + 1 && (#[trigger] store.users@[j]).uuid == other {
                        rooms_of(store.rooms_users@, other)
                    } else {
                        Seq::<Uuid>::empty()
                    }) by {
                    if other != user {
                        assert(self.rooms(other) == before.rooms(other));
                    }
                }
            }
            i = i + 1;
        }
        proof {
            assert forall|user: Uuid| #[trigger] self.rooms(user)
                == rooms_of(store.rooms_users@, user) by {
                if !store.has_user(user) {
                    lemma_no_rows_no_rooms(store.rooms_users@, user);
                }
            }
        }
    }
}

} // verus!
