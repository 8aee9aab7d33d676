//! The relay's rooms: who is connected to each room, and the last clip sent in
//! it, which a client receives when it joins so that a copy made while it was
//! away is not lost.

use vstd::prelude::*;
use crate::wire::{WireMessage, WireView};

verus! {

/// The relay's number for a connection.
pub type ClientId = u64;

/// A client connected to a room. (The channel that carries messages to it is held
/// outside the library, under the same id.)
#[derive(Debug, Clone, Copy, PartialEq, Eq, Structural)]
pub struct ClientHandle {
    pub id: ClientId,
}

/// One room: its clients in the order they joined, and its last clip.
#[derive(Debug)]
pub struct RoomState {
    pub clients: Vec<ClientHandle>,
    /// Always a `Clip` when present.
    pub last: Option<WireMessage>,
}

/// An optional message as an optional view.
pub open spec fn opt_wire(o: Option<WireMessage>) -> Option<WireView> {
    match o {
        Some(m) => Some(m@),
        None => None,
    }
}

/// A room as plain values.
pub struct RoomView {
    pub clients: Seq<ClientHandle>,
    pub last: Option<WireView>,
}

impl View for RoomState {
    type V = RoomView;

    open spec fn view(&self) -> RoomView {
        RoomView { clients: self.clients@, last: opt_wire(self.last) }
    }
}

/// A room that has not been used yet.
pub open spec fn empty_room() -> RoomView {
    RoomView { clients: Seq::empty(), last: None }
}

/// The state of room `k`, or an empty room if it was never used.
pub open spec fn room_or_empty(m: Map<Seq<char>, RoomView>, k: Seq<char>) -> RoomView {
    if m.contains_key(k) { m[k] } else { empty_room() }
}

/// The clients of a list other than `from`, in order.
pub open spec fn others(clients: Seq<ClientHandle>, from: ClientId) -> Seq<ClientHandle> {
    clients.filter(|c: ClientHandle| c.id != from)
}

/// Only clips are remembered.
pub open spec fn last_is_clip(r: RoomView) -> bool {
    r.last matches Some(m) ==> m is Clip
}

/// Every room remembers clips only.
pub open spec fn only_clips_kept(m: Map<Seq<char>, RoomView>) -> bool {
    forall|k: Seq<char>| m.contains_key(k) ==> last_is_clip(#[trigger] m[k])
}

/// Rooms after `client` joined `room`.
pub open spec fn joined(m: Map<Seq<char>, RoomView>, room: Seq<char>, client: ClientHandle) -> Map<Seq<char>, RoomView> {
    let r = room_or_empty(m, room);
    m.insert(room, RoomView { clients: r.clients.push(client), last: r.last })
}

/// Rooms after client `id` left `room`.
pub open spec fn left(m: Map<Seq<char>, RoomView>, room: Seq<char>, id: ClientId) -> Map<Seq<char>, RoomView> {
    if m.contains_key(room) {
        m.insert(room, RoomView { clients: others(m[room].clients, id), last: m[room].last })
    } else {
        m
    }
}

/// Rooms after message `msg` was relayed in `room`: a clip becomes the room's last
/// clip; an unknown room stays unknown.
pub open spec fn relayed(m: Map<Seq<char>, RoomView>, room: Seq<char>, msg: WireView) -> Map<Seq<char>, RoomView> {
    if m.contains_key(room) {
        m.insert(room, RoomView {
            clients: m[room].clients,
            last: if msg is Clip { Some(msg) } else { m[room].last },
        })
    } else {
        m
    }
}

/// Who receives a message that `from` sent in `room`: everyone else in it.
pub open spec fn recipients(m: Map<Seq<char>, RoomView>, room: Seq<char>, from: ClientId) -> Seq<ClientHandle> {
    if m.contains_key(room) { others(m[room].clients, from) } else { Seq::empty() }
}

/// A client that joins a room after a clip was relayed there receives that clip:
/// the relay remembers the last clip of each room for clients that were away.
pub proof fn lemma_joiner_receives_last_clip(
    m: Map<Seq<char>, RoomView>,
    room: Seq<char>,
    clip: WireView,
    client: ClientHandle,
)
    requires
        m.contains_key(room),
        clip is Clip,
    ensures
        room_or_empty(relayed(m, room, clip), room).last == Some(clip),
        joined(relayed(m, room, clip), room, client)[room].last == Some(clip),
{
}

/// A message is never sent back to its sender, and reaches every other client of
/// the room.
pub proof fn lemma_relay_reaches_others_only(m: Map<Seq<char>, RoomView>, room: Seq<char>, from: ClientId)
    requires
        m.contains_key(room),
    ensures
        forall|i: int| 0 <= i < recipients(m, room, from).len() ==> (#[trigger] recipients(m, room, from)[i]).id != from,
        forall|i: int| 0 <= i < m[room].clients.len() && (#[trigger] m[room].clients[i]).id != from
            ==> recipients(m, room, from).contains(m[room].clients[i]),
{
    broadcast use vstd::seq_lib::group_filter_ensures;
    let pred = |c: ClientHandle| c.id != from;
    assert forall|i: int| 0 <= i < recipients(m, room, from).len() implies (#[trigger] recipients(m, room, from)[i]).id != from by {
        assert(pred(m[room].clients.filter(pred)[i]));
    }
    assert forall|i: int| 0 <= i < m[room].clients.len() && (#[trigger] m[room].clients[i]).id != from
        implies recipients(m, room, from).contains(m[room].clients[i]) by {
        assert(pred(m[room].clients[i]));
        m[room].clients.lemma_filter_contains(pred, i);
    }
}

/// A client that has joined a room receives what any other client of the room
/// relays next.
pub proof fn lemma_joined_client_receives(
    m: Map<Seq<char>, RoomView>,
    room: Seq<char>,
    client: ClientHandle,
    from: ClientId,
)
    requires
        from != client.id,
    ensures
        recipients(joined(m, room, client), room, from).contains(client),
{
    let j = joined(m, room, client);
    let cs = j[room].clients;
    assert(cs[cs.len() - 1] == client);
    lemma_relay_reaches_others_only(j, room, from);
}

/// Rooms are isolated: what happens in one room leaves every other room as it was.
pub proof fn lemma_rooms_are_isolated(
    m: Map<Seq<char>, RoomView>,
    room: Seq<char>,
    other: Seq<char>,
    client: ClientHandle,
    msg: WireView,
)
    requires
        other != room,
    ensures
        joined(m, room, client).contains_key(other) == m.contains_key(other),
        left(m, room, client.id).contains_key(other) == m.contains_key(other),
        relayed(m, room, msg).contains_key(other) == m.contains_key(other),
        m.contains_key(other) ==> joined(m, room, client)[other] == m[other]
            && left(m, room, client.id)[other] == m[other]
            && relayed(m, room, msg)[other] == m[other],
{
}

/// Leaving keeps the room's last clip, even when the room becomes empty; and only
/// clips replace it.
pub proof fn lemma_last_clip_survives(m: Map<Seq<char>, RoomView>, room: Seq<char>, id: ClientId, msg: WireView)
    requires
        m.contains_key(room),
    ensures
        left(m, room, id)[room].last == m[room].last,
        !(msg is Clip) ==> relayed(m, room, msg)[room].last == m[room].last,
        relayed(m, room, msg)[room].clients == m[room].clients,
{
}

/// A room with its name.
#[derive(Debug)]
struct RoomEntry {
    id: String,
    state: RoomState,
}

spec fn distinct_rooms(s: Seq<RoomEntry>) -> bool {
    forall|i: int, j: int| 0 <= i < s.len() && 0 <= j < s.len() && i != j ==> #[trigger] s[i].id@ != #[trigger] s[j].id@
}

spec fn has_room(s: Seq<RoomEntry>, k: Seq<char>) -> bool {
    exists|i: int| 0 <= i < s.len() && #[trigger] s[i].id@ == k
}

spec fn room_index(s: Seq<RoomEntry>, k: Seq<char>) -> int {
    choose|i: int| 0 <= i < s.len() && #[trigger] s[i].id@ == k
}

spec fn rooms_map(s: Seq<RoomEntry>) -> Map<Seq<char>, RoomView> {
    Map::new(|k: Seq<char>| has_room(s, k), |k: Seq<char>| s[room_index(s, k)].state@)
}

proof fn lemma_room_index(s: Seq<RoomEntry>, i: int)
    requires
        distinct_rooms(s),
        0 <= i < s.len(),
    ensures
        has_room(s, s[i].id@),
        room_index(s, s[i].id@) == i,
{
    let k = s[i].id@;
    assert(s[i].id@ == k);
    let j = room_index(s, k);
    assert(0 <= j < s.len() && s[j].id@ == k);
}

/// Replacing the state of room `i` changes that room alone.
proof fn lemma_update_room(s: Seq<RoomEntry>, i: int, e: RoomEntry)
    requires
        distinct_rooms(s),
        0 <= i < s.len(),
        e.id@ == s[i].id@,
    ensures
        distinct_rooms(s.update(i, e)),
        rooms_map(s.update(i, e)) == rooms_map(s).insert(e.id@, e.state@),
{
    let t = s.update(i, e);
    assert(distinct_rooms(t)) by {
        assert forall|a: int, b: int| 0 <= a < t.len() && 0 <= b < t.len() && a != b
            implies #[trigger] t[a].id@ != #[trigger] t[b].id@ by {
            assert(t[a].id@ == s[a].id@);
            assert(t[b].id@ == s[b].id@);
        }
    }
    assert forall|k: Seq<char>| #[trigger] has_room(t, k) == has_room(s, k) by {
        if has_room(s, k) {
            let j = room_index(s, k);
            assert(t[j].id@ == k);
        }
        if has_room(t, k) {
            let j = room_index(t, k);
            assert(s[j].id@ == k);
        }
    }
    assert forall|k: Seq<char>| has_room(s, k) && k != e.id@ implies
        #[trigger] room_index(t, k) == room_index(s, k) by {
        let j = room_index(s, k);
        lemma_room_index(s, j);
        lemma_room_index(t, j);
    }
    lemma_room_index(t, i);
    lemma_room_index(s, i);
    assert(rooms_map(t) =~= rooms_map(s).insert(e.id@, e.state@));
}

/// Adding a room that was not there adds it alone.
proof fn lemma_push_room(s: Seq<RoomEntry>, e: RoomEntry)
    requires
        distinct_rooms(s),
        !has_room(s, e.id@),
    ensures
        distinct_rooms(s.push(e)),
        rooms_map(s.push(e)) == rooms_map(s).insert(e.id@, e.state@),
{
    let t = s.push(e);
    let n = s.len() as int;
    assert(distinct_rooms(t)) by {
        assert forall|a: int, b: int| 0 <= a < t.len() && 0 <= b < t.len() && a != b
            implies #[trigger] t[a].id@ != #[trigger] t[b].id@ by {
            if a == n {
                assert(t[b].id@ == s[b].id@);
            } else if b == n {
                assert(t[a].id@ == s[a].id@);
            } else {
                assert(t[a].id@ == s[a].id@);
                assert(t[b].id@ == s[b].id@);
            }
        }
    }
    assert forall|k: Seq<char>| #[trigger] has_room(t, k) == (has_room(s, k) || k == e.id@) by {
        if has_room(s, k) {
            let j = room_index(s, k);
            assert(t[j].id@ == k);
        }
        if k == e.id@ {
            assert(t[n].id@ == k);
        }
        if has_room(t, k) && k != e.id@ {
            let j = room_index(t, k);
            assert(s[j].id@ == k);
        }
    }
    assert forall|k: Seq<char>| has_room(s, k) && k != e.id@ implies
        #[trigger] room_index(t, k) == room_index(s, k) by {
        let j = room_index(s, k);
        lemma_room_index(s, j);
        lemma_room_index(t, j);
    }
    lemma_room_index(t, n);
    assert(rooms_map(t) =~= rooms_map(s).insert(e.id@, e.state@));
}

/// All rooms of the relay.
#[derive(Debug)]
pub struct Rooms {
    entries: Vec<RoomEntry>,
}

impl View for Rooms {
    type V = Map<Seq<char>, RoomView>;

    closed spec fn view(&self) -> Map<Seq<char>, RoomView> {
        rooms_map(self.entries@)
    }
}

impl Rooms {
    #[verifier::type_invariant]
    spec fn well_formed(self) -> bool {
        &&& distinct_rooms(self.entries@)
        &&& forall|i: int| 0 <= i < self.entries@.len() ==> last_is_clip(#[trigger] self.entries@[i].state@)
    }

    /// No room yet.
    pub fn new() -> (r: Self)
        ensures
            r@ == Map::<Seq<char>, RoomView>::empty(),
            only_clips_kept(r@),
    {
        let r = Rooms { entries: Vec::new() };
        assert(r@ =~= Map::<Seq<char>, RoomView>::empty());
        r
    }

    /// Adds `client` to `room` (creating the room on first use) and returns the
    /// room's last clip, which the new client should receive first.
    pub fn join(&mut self, room: &str, client: ClientHandle) -> (r: Option<WireMessage>)
        ensures
            final(self)@ == joined(old(self)@, room@, client),
            opt_wire(r) == room_or_empty(old(self)@, room@).last,
            only_clips_kept(final(self)@),
    {
        proof { use_type_invariant(&*self); }
        let key = String::from_str(room);
        let ghost old_entries = self.entries@;
        let mut entries: Vec<RoomEntry> = Vec::new();
        std::mem::swap(&mut entries, &mut self.entries);
        match find_in(&entries, &key) {
            Some(i) => {
                proof { lemma_room_index(old_entries, i as int); }
                let mut e = entries.remove(i);
                let last = clone_last(&e.state.last);
                e.state.clients.push(client);
                let ghost e_view = e;
                entries.insert(i, e);
                proof {
                    assert(entries@ =~= old_entries.update(i as int, e_view));
                    lemma_update_room(old_entries, i as int, e_view);
                    assert(rooms_map(entries@) == joined(rooms_map(old_entries), room@, client));
                }
                self.entries = entries;
                last
            },
            None => {
                let mut clients: Vec<ClientHandle> = Vec::new();
                clients.push(client);
                let e = RoomEntry { id: key, state: RoomState { clients, last: None } };
                let ghost e_view = e;
                entries.push(e);
                proof {
                    lemma_push_room(old_entries, e_view);
                    assert(e_view.state@.clients =~= Seq::<ClientHandle>::empty().push(client));
                    assert(rooms_map(entries@) == joined(rooms_map(old_entries), room@, client));
                }
                self.entries = entries;
                None
            },
        }
    }

    /// Removes client `client_id` from `room`. The room and its last clip stay, for
    /// clients that join later.
    pub fn leave(&mut self, room: &str, client_id: ClientId)
        ensures
            final(self)@ == left(old(self)@, room@, client_id),
            only_clips_kept(final(self)@),
    {
        proof { use_type_invariant(&*self); }
        let key = String::from_str(room);
        let ghost old_entries = self.entries@;
        let mut entries: Vec<RoomEntry> = Vec::new();
        std::mem::swap(&mut entries, &mut self.entries);
        match find_in(&entries, &key) {
            Some(i) => {
                proof { lemma_room_index(old_entries, i as int); }
                let mut e = entries.remove(i);
                let remaining = others_of(&e.state.clients, client_id);
                e.state.clients = remaining;
                let ghost e_view = e;
                entries.insert(i, e);
                proof {
                    assert(entries@ =~= old_entries.update(i as int, e_view));
                    lemma_update_room(old_entries, i as int, e_view);
                    assert(e_view.state.last == old_entries[i as int].state.last);
                    assert forall|j: int| 0 <= j < entries@.len() implies last_is_clip(#[trigger] entries@[j].state@) by {
                        if j != i as int {
                            assert(entries@[j] == old_entries[j]);
                        } else {
                            assert(last_is_clip(old_entries[j].state@));
                        }
                    }
                }
            },
            None => {},
        }
        self.entries = entries;
    }

    /// Relays `msg` from client `from` in `room`: a clip becomes the room's last
    /// clip, and the message goes to every other client of the room, who are
    /// returned in the order they joined. Nothing happens in an unknown room.
    pub fn broadcast(&mut self, room: &str, from: ClientId, msg: &WireMessage) -> (r: Vec<ClientHandle>)
        ensures
            final(self)@ == relayed(old(self)@, room@, msg@),
            r@ == recipients(old(self)@, room@, from),
            only_clips_kept(final(self)@),
    {
        proof { use_type_invariant(&*self); }
        let key = String::from_str(room);
        let ghost old_entries = self.entries@;
        let mut entries: Vec<RoomEntry> = Vec::new();
        std::mem::swap(&mut entries, &mut self.entries);
        let r = match find_in(&entries, &key) {
            Some(i) => {
                proof { lemma_room_index(old_entries, i as int); }
                let mut e = entries.remove(i);
                match msg {
                    WireMessage::Clip { .. } => {
                        e.state.last = Some(msg.clone());
                    },
                    _ => {},
                }
                let to = others_of(&e.state.clients, from);
                let ghost e_view = e;
                entries.insert(i, e);
                proof {
                    assert(entries@ =~= old_entries.update(i as int, e_view));
                    lemma_update_room(old_entries, i as int, e_view);
                    assert(last_is_clip(e_view.state@));
                    assert forall|j: int| 0 <= j < entries@.len() implies last_is_clip(#[trigger] entries@[j].state@) by {
                        if j != i as int {
                            assert(entries@[j] == old_entries[j]);
                        }
                    }
                }
                to
            },
            None => Vec::new(),
        };
        self.entries = entries;
        r
    }
}

fn find_in(entries: &Vec<RoomEntry>, room: &String) -> (r: Option<usize>)
    ensures
        match r {
            Some(i) => i < entries@.len() && entries@[i as int].id@ == room@,
            None => !has_room(entries@, room@),
        },
{
    let n = entries.len();
    let mut i: usize = 0;
    while i < n
        invariant
            n == entries@.len(),
            i <= n,
            forall|j: int| 0 <= j < i ==> entries@[j].id@ != room@,
        decreases n - i,
    {
        if entries[i].id == *room {
            return Some(i);
        }
        i = i + 1;
    }
    None
}

fn others_of(clients: &Vec<ClientHandle>, from: ClientId) -> (r: Vec<ClientHandle>)
    ensures
        r@ == others(clients@, from),
{
    let mut r: Vec<ClientHandle> = Vec::new();
    let n = clients.len();
    let mut i: usize = 0;
    while i < n
        invariant
            n == clients@.len(),
            i <= n,
            r@ == others(clients@.take(i as int), from),
        decreases n - i,
    {
        proof {
            reveal_with_fuel(Seq::<_>::filter, 1);
            assert(clients@.take(i + 1).drop_last() =~= clients@.take(i as int));
        }
        if clients[i].id != from {
            r.push(clients[i]);
        }
        i = i + 1;
    }
    assert(clients@.take(n as int) =~= clients@);
    r
}

fn clone_last(last: &Option<WireMessage>) -> (r: Option<WireMessage>)
    ensures
        r == *last,
{
    match last {
        Some(m) => Some(m.clone()),
        None => None,
    }
}

} // verus!
