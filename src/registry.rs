//! The room registry: every live room, keyed by its room number.
use std::collections::HashMap;
use vstd::prelude::*;
use crate::room::{is_fresh_room, GameRoom};
use crate::room_id::{
    is_room_number, parse_room_id, parse_room_id_spec, room_id_text, MAX_ROOM_NUMBER,
    MIN_ROOM_NUMBER,
};

verus! {

broadcast use vstd::std_specs::hash::group_hash_axioms;

/// How many random room numbers are drawn before the free numbers are
/// searched in order.
pub const RANDOM_DRAWS: u32 = 256;

/// Relies on rand::thread_rng and Rng::gen_range over an inclusive range: a
/// uniformly drawn number within the range.
#[verifier::external_body]
fn draw_room_number() -> (r: u32)
    ensures
        is_room_number(r as int),
{
    rand::Rng::gen_range(&mut rand::thread_rng(), MIN_ROOM_NUMBER..=MAX_ROOM_NUMBER)
}

/// The live rooms of one shard: the room numbers `k` with
/// `k % shards == shard`. Shards of one count and distinct indices never hold
/// the same number, so each can be locked on its own.
pub struct RoomRegistry {
    rooms: HashMap<u32, GameRoom>,
    shard: u32,
    shards: u32,
}

/// What registry holds for a room id sent by a client: its number where the
/// text is a room id and a room of that number is live.
pub open spec fn lookup_spec(rooms: Map<u32, GameRoom>, room_id: Seq<char>) -> Option<u32> {
    match parse_room_id_spec(room_id) {
        Some(k) => if rooms.contains_key(k) {
            Some(k)
        } else {
            None
        },
        None => None,
    }
}

impl View for RoomRegistry {
    type V = Map<u32, GameRoom>;

    closed spec fn view(&self) -> Map<u32, GameRoom> {
        self.rooms@
    }
}

impl RoomRegistry {
    /// The index of this shard.
    pub closed spec fn shard_index(&self) -> u32 {
        self.shard
    }

    /// How many shards the rooms are spread over.
    pub closed spec fn shard_count(&self) -> u32 {
        self.shards
    }

    /// Whether room number `k` belongs to this shard.
    pub open spec fn in_shard(&self, k: u32) -> bool {
        k % self.shard_count() == self.shard_index()
    }

    /// Every room is keyed by its own number, which belongs to this shard,
    /// and is well formed.
    pub open spec fn wf(&self) -> bool {
        &&& 0 < self.shard_count()
        &&& self.shard_index() < self.shard_count()
        &&& forall|k: u32| #[trigger]
            self@.contains_key(k) ==> {
                &&& self.in_shard(k)
                &&& is_room_number(k as int)
                &&& self@[k].id@ == room_id_text(k as int)
                &&& self@[k].wf()
            }
    }

    /// An empty registry that holds every room number.
    pub fn new() -> (r: RoomRegistry)
        ensures
            r@ == Map::<u32, GameRoom>::empty(),
            r.wf(),
            r.shard_index() == 0,
            r.shard_count() == 1,
    {
        RoomRegistry { rooms: HashMap::new(), shard: 0, shards: 1 }
    }

    /// An empty shard `shard` of `shards`.
    pub fn new_shard(shard: u32, shards: u32) -> (r: RoomRegistry)
        requires
            shard < shards,
        ensures
            r@ == Map::<u32, GameRoom>::empty(),
            r.wf(),
            r.shard_index() == shard,
            r.shard_count() == shards,
    {
        RoomRegistry { rooms: HashMap::new(), shard, shards }
    }

    /// The index of this shard.
    pub fn shard(&self) -> (r: u32)
        ensures
            r == self.shard_index(),
    {
        self.shard
    }

    /// How many shards the rooms are spread over.
    pub fn shards(&self) -> (r: u32)
        ensures
            r == self.shard_count(),
    {
        self.shards
    }

    /// The number of live rooms.
    pub fn len(&self) -> (r: usize)
        ensures
            r == self@.len(),
    {
        self.rooms.len()
    }

    pub fn contains(&self, number: u32) -> (r: bool)
        ensures
            r == self@.contains_key(number),
    {
        self.rooms.contains_key(&number)
    }

    /// The room of the given number, to read.
    pub fn get(&self, number: u32) -> (r: Option<&GameRoom>)
        ensures
            match r {
                Some(room) => self@.contains_key(number) && *room == self@[number],
                None => !self@.contains_key(number),
            },
    {
        self.rooms.get(&number)
    }

    /// The number of the live room that a client's room id names, if any.
    pub fn find(&self, room_id: &str) -> (r: Option<u32>)
        ensures
            r == lookup_spec(self@, room_id@),
    {
        match parse_room_id(room_id) {
            Some(k) => if self.rooms.contains_key(&k) {
                Some(k)
            } else {
                None
            },
            None => None,
        }
    }

    /// Takes a room out for exclusive mutation; `put` brings it back.
    pub fn take(&mut self, number: u32) -> (r: Option<GameRoom>)
        ensures
            final(self).shard_index() == old(self).shard_index(),
            final(self).shard_count() == old(self).shard_count(),
            final(self)@ == old(self)@.remove(number),
            match r {
                Some(room) => old(self)@.contains_key(number) && room == old(self)@[number],
                None => !old(self)@.contains_key(number),
            },
            old(self).wf() ==> final(self).wf(),
    {
        self.rooms.remove(&number)
    }

    /// Stores a room under its number.
    pub fn put(&mut self, number: u32, room: GameRoom)
        requires
            old(self).wf(),
            is_room_number(number as int),
            room.id@ == room_id_text(number as int),
            room.wf(),
            old(self).in_shard(number),
        ensures
            final(self)@ == old(self)@.insert(number, room),
            final(self).shard_index() == old(self).shard_index(),
            final(self).shard_count() == old(self).shard_count(),
            final(self).wf(),
    {
        self.rooms.insert(number, room);
    }

    /// Removes the room of the given number.
    pub fn remove(&mut self, number: u32) -> (r: Option<GameRoom>)
        ensures
            final(self).shard_index() == old(self).shard_index(),
            final(self).shard_count() == old(self).shard_count(),
            final(self)@ == old(self)@.remove(number),
            match r {
                Some(room) => old(self)@.contains_key(number) && room == old(self)@[number],
                None => !old(self)@.contains_key(number),
            },
            old(self).wf() ==> final(self).wf(),
    {
        self.rooms.remove(&number)
    }

    /// A room number of this shard that no live room has: one drawn at
    /// random where a few draws find one, else the least free number; `None`
    /// only when every room number of the shard is taken.
    pub fn free_number(&self) -> (r: Option<u32>)
        requires
            self.wf(),
        ensures
            match r {
                Some(k) => is_room_number(k as int) && self.in_shard(k) && !self@.contains_key(k),
                None => forall|k: u32|
                    is_room_number(k as int) && self.in_shard(k) ==> #[trigger] self@.contains_key(k),
            },
    {
        let mut draws: u32 = 0;
        while draws < RANDOM_DRAWS
            invariant
                self.wf(),
                draws <= RANDOM_DRAWS,
            decreases RANDOM_DRAWS - draws,
        {
            let k = draw_room_number();
            if k % self.shards == self.shard && !self.rooms.contains_key(&k) {
                return Some(k);
            }
            draws = draws + 1;
        }
        let mut k: u32 = MIN_ROOM_NUMBER;
        while k <= MAX_ROOM_NUMBER
            invariant
                self.wf(),
                MIN_ROOM_NUMBER <= k <= MAX_ROOM_NUMBER + 1,
                forall|j: u32|
                    MIN_ROOM_NUMBER <= j < k && self.in_shard(j) ==> #[trigger] self@.contains_key(j),
            decreases MAX_ROOM_NUMBER + 1 - k,
        {
            if k % self.shards == self.shard && !self.rooms.contains_key(&k) {
                return Some(k);
            }
            k = k + 1;
        }
        None
    }

    /// Creates a room under a room number of this shard that no live room
    /// has, with the given player as its sole player and host. `None` only
    /// when every room number of the shard is taken, and then nothing changes.
    pub fn create_room(&mut self, host_id: String, display_name: String) -> (r: Option<u32>)
        requires
            old(self).wf(),
        ensures
            final(self).wf(),
            final(self).shard_index() == old(self).shard_index(),
            final(self).shard_count() == old(self).shard_count(),
            match r {
                Some(k) => {
                    &&& is_room_number(k as int)
                    &&& old(self).in_shard(k)
                    &&& !old(self)@.contains_key(k)
                    &&& final(self)@ == old(self)@.insert(k, final(self)@[k])
                    &&& final(self)@[k].id@ == room_id_text(k as int)
                    &&& is_fresh_room(final(self)@[k], host_id@, display_name@)
                },
                None => {
                    &&& final(self)@ == old(self)@
                    &&& forall|k: u32|
                        is_room_number(k as int) && old(self).in_shard(k) ==> #[trigger] old(
                            self,
                        )@.contains_key(k)
                },
            },
    {
        match self.free_number() {
            Some(k) => {
                let room = GameRoom::new(k, host_id, display_name);
                self.put(k, room);
                Some(k)
            },
            None => None,
        }
    }
}

} // verus!
