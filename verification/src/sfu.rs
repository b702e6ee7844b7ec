//! Rooms of the selective forwarding unit and the registry that holds them.

use std::collections::HashMap;
use vstd::prelude::*;
use vstd::hash_map::StringHashMap;
use vstd::string::StringExecFns;
use vstd::std_specs::iter::IteratorSpec;

verus! {

broadcast use vstd::std_specs::hash::group_hash_axioms;

/// A room of the SFU: its id and its participants, by user id.
pub struct SfuRoom {
    pub room_id: String,
    pub participants: HashMap<u32, String>,
}

/// What a participants map holds after `user_id` left it: the username that
/// left, if the user was there.
pub open spec fn departed_name(participants: Map<u32, String>, user_id: u32) -> Option<String> {
    if participants.contains_key(user_id) {
        Some(participants[user_id])
    } else {
        None
    }
}

/// The participants of a room after `user_id` joined it as `username`.
pub open spec fn joined(participants: Map<u32, String>, user_id: u32, username: String) -> Map<u32, String> {
    participants.insert(user_id, username)
}

/// The participants of a room after `user_id` left it.
pub open spec fn left(participants: Map<u32, String>, user_id: u32) -> Map<u32, String> {
    participants.remove(user_id)
}

impl SfuRoom {
    /// An empty room with the given id.
    pub fn new(room_id: String) -> (room: Self)
        ensures
            room.room_id == room_id,
            room.participants@ == Map::<u32, String>::empty(),
    {
        SfuRoom { room_id, participants: HashMap::new() }
    }

    /// Records `username` for `user_id`, replacing any earlier name of that user.
    pub fn add_participant(&mut self, user_id: u32, username: String)
        ensures
            final(self).room_id == old(self).room_id,
            final(self).participants@ == joined(old(self).participants@, user_id, username),
    {
        self.participants.insert(user_id, username);
    }

    /// Removes `user_id` from the room and gives back its username, or `None`
    /// when the user was not in the room.
    pub fn remove_participant(&mut self, user_id: u32) -> (username: Option<String>)
        ensures
            final(self).room_id == old(self).room_id,
            final(self).participants@ == left(old(self).participants@, user_id),
            username == departed_name(old(self).participants@, user_id),
    {
        self.participants.remove(&user_id)
    }

    /// The user ids of the room's participants, each once.
    pub fn ids(&self) -> (ids: Vec<u32>)
        ensures
            ids@.to_set() == self.participants@.dom(),
            ids@.no_duplicates(),
    {
        let mut ids: Vec<u32> = Vec::new();
        let ghost listed = vstd::std_specs::hash::spec_keys_iter(&self.participants).remaining();
        for id in it: self.participants.keys()
            invariant
                it.seq() == listed,
                ids@ == listed.take(it.index() as int).map_values(|r: &u32| *r),
        {
            ids.push(*id);
        }
        proof {
            assert(listed.take(listed.len() as int) =~= listed);
            assert(ids@ =~= listed.unref());
        }
        ids
    }

    /// A copy of the room with the same id and participants.
    pub fn duplicate(&self) -> (copy: Self)
        ensures
            copy.room_id == self.room_id,
            copy.participants@ == self.participants@,
    {
        SfuRoom { room_id: self.room_id.clone(), participants: self.participants.clone() }
    }
}


/// The participants of each room of a registry, by room id.
pub type RoomsView = Map<Seq<char>, Map<u32, String>>;

/// The registry after `username` joined `room_id` as `user_id`: the room is
/// created when it did not exist.
pub open spec fn rooms_after_add(
    rooms: RoomsView,
    room_id: Seq<char>,
    user_id: u32,
    username: String,
) -> RoomsView {
    let before = if rooms.contains_key(room_id) {
        rooms[room_id]
    } else {
        Map::<u32, String>::empty()
    };
    rooms.insert(room_id, joined(before, user_id, username))
}

/// The registry after `user_id` left `room_id`: a room that is left empty is
/// dropped, and an unknown room leaves the registry as it was.
pub open spec fn rooms_after_remove(rooms: RoomsView, room_id: Seq<char>, user_id: u32) -> RoomsView {
    if rooms.contains_key(room_id) {
        let remaining = left(rooms[room_id], user_id);
        if remaining.is_empty() {
            rooms.remove(room_id)
        } else {
            rooms.insert(room_id, remaining)
        }
    } else {
        rooms
    }
}

/// The username that leaves `room_id` when `user_id` is removed from it.
pub open spec fn name_removed(rooms: RoomsView, room_id: Seq<char>, user_id: u32) -> Option<String> {
    if rooms.contains_key(room_id) {
        departed_name(rooms[room_id], user_id)
    } else {
        None
    }
}

/// Every room of the registry has at least one participant.
pub open spec fn no_empty_rooms(rooms: RoomsView) -> bool {
    forall|k: Seq<char>| #[trigger] rooms.contains_key(k) ==> !rooms[k].is_empty()
}

/// The SFU's registry of rooms, keyed by room id.
pub struct RheomeshSfu {
    rooms: StringHashMap<SfuRoom>,
}

impl View for RheomeshSfu {
    type V = RoomsView;

    closed spec fn view(&self) -> RoomsView {
        self.rooms@.map_values(|room: SfuRoom| room.participants@)
    }
}

impl RheomeshSfu {
    /// Each stored room carries its own key as id and is not empty.
    #[verifier::type_invariant]
    closed spec fn rooms_consistent(self) -> bool {
        forall|k: Seq<char>| #[trigger] self.rooms@.contains_key(k) ==> {
            &&& self.rooms@[k].room_id@ == k
            &&& !self.rooms@[k].participants@.is_empty()
            &&& self.rooms@[k].participants@.dom().finite()
        }
    }

    /// The id carried by the room stored under `key`.
    pub closed spec fn room_id_of(self, key: Seq<char>) -> Seq<char> {
        self.rooms@[key].room_id@
    }

    /// Every stored room has at least one and finitely many participants,
    /// and carries its key as its id.
    pub open spec fn well_formed(self) -> bool {
        &&& no_empty_rooms(self@)
        &&& forall|k: Seq<char>| #[trigger] self@.contains_key(k) ==> {
            &&& self@[k].dom().finite()
            &&& self.room_id_of(k) == k
        }
    }

    /// A registry without rooms.
    pub fn new() -> (sfu: Self)
        ensures
            sfu@ == RoomsView::empty(),
            sfu.well_formed(),
    {
        let sfu = RheomeshSfu { rooms: StringHashMap::new() };
        assert(sfu@ =~= RoomsView::empty());
        sfu
    }

    /// Adds `user_id` with `username` to the room `room_id`, creating the room
    /// when it does not exist yet.
    pub fn add_participant(&mut self, room_id: &str, user_id: u32, username: String)
        ensures
            final(self)@ == rooms_after_add(old(self)@, room_id@, user_id, username),
            final(self).well_formed(),
    {
        proof {
            use_type_invariant(&*self);
        }
        let mut room = match self.rooms.get(room_id) {
            Some(existing) => existing.duplicate(),
            None => SfuRoom::new(String::from_str(room_id)),
        };
        room.add_participant(user_id, username);
        let mut rooms = StringHashMap::new();
        std::mem::swap(&mut rooms, &mut self.rooms);
        rooms.insert(String::from_str(room_id), room);
        self.rooms = rooms;
        assert(self@ =~= rooms_after_add(old(self)@, room_id@, user_id, username));
    }

    /// Removes `user_id` from the room `room_id` and gives back its username;
    /// a room left without participants is dropped.
    pub fn remove_participant(&mut self, room_id: &str, user_id: u32) -> (username: Option<String>)
        ensures
            username == name_removed(old(self)@, room_id@, user_id),
            final(self)@ == rooms_after_remove(old(self)@, room_id@, user_id),
            final(self).well_formed(),
    {
        proof {
            use_type_invariant(&*self);
        }
        match self.rooms.get(room_id) {
            Some(existing) => {
                let mut room = existing.duplicate();
                let username = room.remove_participant(user_id);
                let mut rooms = StringHashMap::new();
                std::mem::swap(&mut rooms, &mut self.rooms);
                if room.participants.is_empty() {
                    rooms.remove(room_id);
                } else {
                    rooms.insert(String::from_str(room_id), room);
                }
                self.rooms = rooms;
                assert(self@ =~= rooms_after_remove(old(self)@, room_id@, user_id));
                username
            },
            None => {
                assert(self@ =~= rooms_after_remove(old(self)@, room_id@, user_id));
                None
            },
        }
    }

    /// The room `room_id`, when the registry holds it.
    pub fn room(&self, room_id: &str) -> (room: Option<&SfuRoom>)
        ensures
            match room {
                Some(r) => {
                    &&& self@.contains_key(room_id@)
                    &&& r.participants@ == self@[room_id@]
                    &&& r.room_id@ == room_id@
                },
                None => !self@.contains_key(room_id@),
            },
    {
        proof {
            use_type_invariant(self);
        }
        self.rooms.get(room_id)
    }

    /// The user ids of the participants of room `room_id`, each once, or
    /// `None` when the registry holds no such room.
    pub fn participant_ids(&self, room_id: &str) -> (ids: Option<Vec<u32>>)
        ensures
            match ids {
                Some(ids) => {
                    &&& self@.contains_key(room_id@)
                    &&& ids@.to_set() == self@[room_id@].dom()
                    &&& ids@.no_duplicates()
                },
                None => !self@.contains_key(room_id@),
            },
    {
        match self.room(room_id) {
            Some(room) => Some(room.ids()),
            None => None,
        }
    }

    /// Every room of the registry has at least one and finitely many
    /// participants, and carries its key as its id.
    pub fn rooms_are_occupied(&self)
        ensures
            self.well_formed(),
    {
        proof {
            use_type_invariant(self);
        }
    }
}


/// Removing a participant right after adding it gives back the name it was
/// added with and leaves the room's other participants as they were.
pub proof fn lemma_room_remove_after_add(participants: Map<u32, String>, user_id: u32, username: String)
    ensures
        departed_name(participants.insert(user_id, username), user_id) == Some(username),
        participants.insert(user_id, username).remove(user_id) == participants.remove(user_id),
{
    assert(participants.insert(user_id, username).remove(user_id) =~= participants.remove(user_id));
}

/// In a registry whose rooms are all occupied, removing a participant that
/// was just added (and was not in that room before) gives back its username
/// and restores the registry exactly.
pub proof fn lemma_registry_remove_undoes_add(
    rooms: RoomsView,
    room_id: Seq<char>,
    user_id: u32,
    username: String,
)
    requires
        no_empty_rooms(rooms),
        !(rooms.contains_key(room_id) && rooms[room_id].contains_key(user_id)),
    ensures
        name_removed(rooms_after_add(rooms, room_id, user_id, username), room_id, user_id) == Some(
            username,
        ),
        rooms_after_remove(rooms_after_add(rooms, room_id, user_id, username), room_id, user_id)
            == rooms,
{
    let added = rooms_after_add(rooms, room_id, user_id, username);
    if rooms.contains_key(room_id) {
        let p = rooms[room_id];
        assert(added[room_id].remove(user_id) =~= p);
        assert(rooms.insert(room_id, p) =~= rooms);
    } else {
        let left = added[room_id].remove(user_id);
        assert(left =~= Map::<u32, String>::empty());
        assert(added.remove(room_id) =~= rooms);
    }
}

/// Adding the same participant twice leaves the registry as adding it once.
pub proof fn lemma_add_is_idempotent(rooms: RoomsView, room_id: Seq<char>, user_id: u32, username: String)
    ensures
        rooms_after_add(rooms_after_add(rooms, room_id, user_id, username), room_id, user_id, username)
            == rooms_after_add(rooms, room_id, user_id, username),
{
    let once = rooms_after_add(rooms, room_id, user_id, username);
    assert(once[room_id].insert(user_id, username) =~= once[room_id]);
    assert(rooms_after_add(once, room_id, user_id, username) =~= once);
}

/// Removing a user that is not in the room, or from a room that does not
/// exist, answers `None` and leaves a registry of occupied rooms unchanged.
pub proof fn lemma_remove_absent_is_noop(rooms: RoomsView, room_id: Seq<char>, user_id: u32)
    requires
        no_empty_rooms(rooms),
        !(rooms.contains_key(room_id) && rooms[room_id].contains_key(user_id)),
    ensures
        name_removed(rooms, room_id, user_id) == None::<String>,
        rooms_after_remove(rooms, room_id, user_id) == rooms,
{
    if rooms.contains_key(room_id) {
        let p = rooms[room_id];
        assert(p.remove(user_id) =~= p);
        assert(rooms.insert(room_id, p) =~= rooms);
    }
}

/// Joining or leaving one room never changes any other room.
pub proof fn lemma_other_rooms_untouched(
    rooms: RoomsView,
    room_id: Seq<char>,
    other: Seq<char>,
    user_id: u32,
    username: String,
)
    requires
        other != room_id,
    ensures
        rooms_after_add(rooms, room_id, user_id, username).contains_key(other) == rooms.contains_key(
            other,
        ),
        rooms_after_remove(rooms, room_id, user_id).contains_key(other) == rooms.contains_key(other),
        rooms.contains_key(other) ==> rooms_after_add(rooms, room_id, user_id, username)[other]
            == rooms[other],
        rooms.contains_key(other) ==> rooms_after_remove(rooms, room_id, user_id)[other]
            == rooms[other],
{
}

/// After a user is added to a room, the room holds exactly the name it was
/// added with, whether or not the user was there before (a new name replaces
/// the old one); the room's other participants keep their names; and
/// removing the user right afterwards gives back that latest name.
pub proof fn lemma_add_records_latest_name(
    rooms: RoomsView,
    room_id: Seq<char>,
    user_id: u32,
    username: String,
)
    ensures
        rooms_after_add(rooms, room_id, user_id, username).contains_key(room_id),
        rooms_after_add(rooms, room_id, user_id, username)[room_id].contains_key(user_id),
        rooms_after_add(rooms, room_id, user_id, username)[room_id][user_id] == username,
        name_removed(rooms_after_add(rooms, room_id, user_id, username), room_id, user_id) == Some(
            username,
        ),
        forall|other: u32|
            other != user_id ==> (#[trigger] rooms_after_add(
                rooms,
                room_id,
                user_id,
                username,
            )[room_id].contains_key(other) <==> (rooms.contains_key(room_id)
                && rooms[room_id].contains_key(other))),
        forall|other: u32|
            other != user_id && rooms.contains_key(room_id) && rooms[room_id].contains_key(other)
                ==> #[trigger] rooms_after_add(rooms, room_id, user_id, username)[room_id][other]
                == rooms[room_id][other],
{
}

/// A user who joins a room is recorded under exactly the name it joined
/// with, replacing any earlier one; every other participant keeps its name,
/// and nobody else is added.
pub proof fn lemma_joined_records_name(participants: Map<u32, String>, user_id: u32, username: String)
    ensures
        joined(participants, user_id, username).contains_key(user_id),
        joined(participants, user_id, username)[user_id] == username,
        forall|other: u32|
            other != user_id ==> (#[trigger] joined(participants, user_id, username).contains_key(other)
                <==> participants.contains_key(other)),
        forall|other: u32|
            other != user_id && participants.contains_key(other) ==> #[trigger] joined(
                participants,
                user_id,
                username,
            )[other] == participants[other],
{
}

/// A user who leaves a room is no longer in it, every other participant
/// stays with its name, and the name given back is the one the room held for
/// that user (`None` when it was not there).
pub proof fn lemma_left_takes_out_only_that_user(participants: Map<u32, String>, user_id: u32)
    ensures
        !left(participants, user_id).contains_key(user_id),
        forall|other: u32|
            other != user_id ==> (#[trigger] left(participants, user_id).contains_key(other)
                <==> participants.contains_key(other)),
        forall|other: u32|
            other != user_id && participants.contains_key(other) ==> #[trigger] left(
                participants,
                user_id,
            )[other] == participants[other],
        participants.contains_key(user_id) ==> departed_name(participants, user_id) == Some(
            participants[user_id],
        ),
        !participants.contains_key(user_id) ==> departed_name(participants, user_id) is None,
{
}

/// Removing a user from a room of a registry of occupied rooms gives back
/// the name the room held for it, takes out that user alone, drops the room
/// exactly when the user was its only participant, and leaves an unknown
/// room or a non-member's room as it was.
pub proof fn lemma_registry_remove(rooms: RoomsView, room_id: Seq<char>, user_id: u32)
    requires
        no_empty_rooms(rooms),
    ensures
        rooms.contains_key(room_id) && rooms[room_id].contains_key(user_id) ==> name_removed(
            rooms,
            room_id,
            user_id,
        ) == Some(rooms[room_id][user_id]),
        !(rooms.contains_key(room_id) && rooms[room_id].contains_key(user_id)) ==> name_removed(
            rooms,
            room_id,
            user_id,
        ) is None,
        rooms_after_remove(rooms, room_id, user_id).contains_key(room_id) ==> !rooms_after_remove(
            rooms,
            room_id,
            user_id,
        )[room_id].contains_key(user_id),
        forall|other: u32|
            other != user_id && rooms.contains_key(room_id) && rooms[room_id].contains_key(other) ==> {
                &&& rooms_after_remove(rooms, room_id, user_id).contains_key(room_id)
                &&& #[trigger] rooms_after_remove(rooms, room_id, user_id)[room_id].contains_key(other)
                &&& rooms_after_remove(rooms, room_id, user_id)[room_id][other] == rooms[room_id][other]
            },
        rooms_after_remove(rooms, room_id, user_id).contains_key(room_id) ==> forall|other: u32|
            #[trigger] rooms_after_remove(rooms, room_id, user_id)[room_id].contains_key(other)
                ==> rooms[room_id].contains_key(other),
        rooms.contains_key(room_id) ==> (!rooms_after_remove(rooms, room_id, user_id).contains_key(
            room_id,
        ) <==> rooms[room_id].dom() == Set::<u32>::empty().insert(user_id)),
        !(rooms.contains_key(room_id) && rooms[room_id].contains_key(user_id)) ==> rooms_after_remove(
            rooms,
            room_id,
            user_id,
        ) == rooms,
{
    if rooms.contains_key(room_id) {
        let p = rooms[room_id];
        let remaining = left(p, user_id);
        if remaining.is_empty() {
            assert(p.dom() =~= Set::<u32>::empty().insert(user_id)) by {
                assert forall|u: u32| p.dom().contains(u) implies u == user_id by {
                    if u != user_id {
                        assert(remaining.dom().contains(u));
                    }
                }
                assert(!p.is_empty());
            }
        } else {
            if p.dom() == Set::<u32>::empty().insert(user_id) {
                assert(remaining.dom() =~= Set::<u32>::empty());
            }
        }
        if !p.contains_key(user_id) {
            assert(remaining =~= p);
            assert(rooms.insert(room_id, p) =~= rooms);
        }
    }
}

} // verus!
