//! The relay's settings (`config.toml`): the address it listens on and, for each
//! room, the token that admits clients to it.

use vstd::prelude::*;

verus! {

/// One room and its shared secret.
#[derive(Debug)]
pub struct RoomConfig {
    pub id: String,
    pub token: String,
}

impl Clone for RoomConfig {
    fn clone(&self) -> (r: Self)
        ensures
            r == *self,
    {
        RoomConfig { id: self.id.clone(), token: self.token.clone() }
    }
}

/// The relay's settings.
#[derive(Debug)]
pub struct ServerConfig {
    /// The address to listen on, such as `127.0.0.1:8080`.
    pub bind: String,
    pub rooms: Vec<RoomConfig>,
}

/// The room-to-token table that a list of rooms describes; where a room is listed
/// more than once, the last entry counts.
pub open spec fn rooms_table(rooms: Seq<RoomConfig>) -> Map<Seq<char>, Seq<char>>
    decreases rooms.len(),
{
    if rooms.len() == 0 {
        Map::empty()
    } else {
        rooms_table(rooms.drop_last()).insert(rooms.last().id@, rooms.last().token@)
    }
}

/// No room is listed twice.
pub open spec fn distinct_ids(s: Seq<RoomConfig>) -> bool {
    forall|i: int, j: int| 0 <= i < s.len() && 0 <= j < s.len() && i != j ==> #[trigger] s[i].id@ != #[trigger] s[j].id@
}

/// Room `k` is listed.
pub open spec fn has_id(s: Seq<RoomConfig>, k: Seq<char>) -> bool {
    exists|i: int| 0 <= i < s.len() && #[trigger] s[i].id@ == k
}

/// Where room `k` is listed.
pub open spec fn id_index(s: Seq<RoomConfig>, k: Seq<char>) -> int {
    choose|i: int| 0 <= i < s.len() && #[trigger] s[i].id@ == k
}

/// The table of a list without repeated rooms.
pub open spec fn entries_table(s: Seq<RoomConfig>) -> Map<Seq<char>, Seq<char>> {
    Map::new(|k: Seq<char>| has_id(s, k), |k: Seq<char>| s[id_index(s, k)].token@)
}

proof fn lemma_id_index(s: Seq<RoomConfig>, i: int)
    requires
        distinct_ids(s),
        0 <= i < s.len(),
    ensures
        has_id(s, s[i].id@),
        id_index(s, s[i].id@) == i,
{
    let k = s[i].id@;
    assert(s[i].id@ == k);
    let j = id_index(s, k);
    assert(0 <= j < s.len() && s[j].id@ == k);
}

/// Which token admits to which room.
#[derive(Debug)]
pub struct AuthMap {
    entries: Vec<RoomConfig>,
}

impl View for AuthMap {
    type V = Map<Seq<char>, Seq<char>>;

    closed spec fn view(&self) -> Map<Seq<char>, Seq<char>> {
        entries_table(self.entries@)
    }
}

impl AuthMap {
    #[verifier::type_invariant]
    spec fn well_formed(self) -> bool {
        distinct_ids(self.entries@)
    }

    /// No room.
    pub fn new() -> (r: Self)
        ensures
            r@ == Map::<Seq<char>, Seq<char>>::empty(),
    {
        let r = AuthMap { entries: Vec::new() };
        assert(r@ =~= Map::<Seq<char>, Seq<char>>::empty());
        r
    }

    /// Admits `token` to room `id`, in place of any token the room had.
    pub fn insert(&mut self, id: String, token: String)
        ensures
            final(self)@ == old(self)@.insert(id@, token@),
    {
        proof { use_type_invariant(&*self); }
        let ghost old_entries = self.entries@;
        let n = self.entries.len();
        let found = self.find(&id);
        let ghost new_entry = RoomConfig { id, token };
        if let Some(i) = found {
            let mut entries: Vec<RoomConfig> = Vec::new();
            std::mem::swap(&mut entries, &mut self.entries);
            proof { lemma_id_index(old_entries, i as int); }
            entries.set(i, RoomConfig { id, token });
            assert(entries@ == old_entries.update(i as int, new_entry));
            assert(distinct_ids(entries@));
            proof {
                assert forall|k: Seq<char>| #[trigger] has_id(entries@, k) == has_id(old_entries, k) by {
                    if has_id(old_entries, k) {
                        let j = id_index(old_entries, k);
                        if j == i { assert(entries@[j].id@ == k); } else { assert(entries@[j].id@ == k); }
                    }
                    if has_id(entries@, k) {
                        let j = id_index(entries@, k);
                        if j == i { assert(old_entries[j].id@ == k); } else { assert(old_entries[j].id@ == k); }
                    }
                }
                assert forall|k: Seq<char>| has_id(entries@, k) implies
                    entries@[id_index(entries@, k)].token@ == old_entries.update(i as int, new_entry)[id_index(entries@, k)].token@ by {}
                assert forall|k: Seq<char>| has_id(old_entries, k) && k != id@ implies
                    #[trigger] id_index(entries@, k) == id_index(old_entries, k) by {
                    let j = id_index(old_entries, k);
                    lemma_id_index(old_entries, j);
                    lemma_id_index(entries@, j);
                }
                lemma_id_index(entries@, i as int);
                assert(entries_table(entries@) =~= entries_table(old_entries).insert(id@, token@));
            }
            self.entries = entries;
        } else {
            let mut entries: Vec<RoomConfig> = Vec::new();
            std::mem::swap(&mut entries, &mut self.entries);
            entries.push(RoomConfig { id, token });
            assert(entries@ == old_entries.push(new_entry));
            proof {
                assert(distinct_ids(entries@)) by {
                    assert forall|a: int, b: int| 0 <= a < entries@.len() && 0 <= b < entries@.len() && a != b
                        implies #[trigger] entries@[a].id@ != #[trigger] entries@[b].id@ by {
                        if a == n as int { assert(entries@[b].id@ == old_entries[b].id@); }
                        else if b == n as int { assert(entries@[a].id@ == old_entries[a].id@); }
                    }
                }
                assert forall|k: Seq<char>| #[trigger] has_id(entries@, k) == (has_id(old_entries, k) || k == id@) by {
                    if has_id(old_entries, k) {
                        let j = id_index(old_entries, k);
                        assert(entries@[j].id@ == k);
                    }
                    if k == id@ {
                        assert(entries@[n as int].id@ == k);
                    }
                    if has_id(entries@, k) && k != id@ {
                        let j = id_index(entries@, k);
                        assert(old_entries[j].id@ == k);
                    }
                }
                assert forall|k: Seq<char>| has_id(old_entries, k) && k != id@ implies
                    #[trigger] id_index(entries@, k) == id_index(old_entries, k) by {
                    let j = id_index(old_entries, k);
                    lemma_id_index(old_entries, j);
                    lemma_id_index(entries@, j);
                }
                lemma_id_index(entries@, n as int);
                assert(entries_table(entries@) =~= entries_table(old_entries).insert(id@, token@));
            }
            self.entries = entries;
        }
    }

    /// The token of room `room`, if the room is known.
    pub fn token_for(&self, room: &String) -> (r: Option<&String>)
        ensures
            match r {
                Some(t) => self@.contains_key(room@) && self@[room@] == t@,
                None => !self@.contains_key(room@),
            },
    {
        proof { use_type_invariant(self); }
        match self.find(room) {
            Some(i) => {
                proof { lemma_id_index(self.entries@, i as int); }
                Some(&self.entries[i].token)
            },
            None => None,
        }
    }

    fn find(&self, id: &String) -> (r: Option<usize>)
        ensures
            match r {
                Some(i) => i < self.entries@.len() && self.entries@[i as int].id@ == id@,
                None => !has_id(self.entries@, id@),
            },
    {
        let n = self.entries.len();
        let mut i: usize = 0;
        while i < n
            invariant
                n == self.entries@.len(),
                i <= n,
                forall|j: int| 0 <= j < i ==> self.entries@[j].id@ != id@,
            decreases n - i,
        {
            if self.entries[i].id == *id {
                return Some(i);
            }
            i = i + 1;
        }
        None
    }
}

impl ServerConfig {
    /// The room-to-token table of the configuration (a later entry for the same
    /// room replaces an earlier one).
    pub fn auth_map(&self) -> (r: AuthMap)
        ensures
            r@ == rooms_table(self.rooms@),
    {
        let mut m = AuthMap::new();
        let n = self.rooms.len();
        let mut i: usize = 0;
        while i < n
            invariant
                n == self.rooms@.len(),
                i <= n,
                m@ == rooms_table(self.rooms@.take(i as int)),
            decreases n - i,
        {
            assert(self.rooms@.take(i + 1).drop_last() =~= self.rooms@.take(i as int));
            let r = self.rooms[i].clone();
            m.insert(r.id, r.token);
            i = i + 1;
        }
        assert(self.rooms@.take(n as int) =~= self.rooms@);
        m
    }
}

} // verus!
