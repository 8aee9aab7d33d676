//! The relay's decisions for one WebSocket connection: whether to admit it, and
//! what to do with each frame it sends. Accepting connections, the per-client
//! queues, JSON and timers are outside the library.

use vstd::prelude::*;
use crate::keepalive::{keepalive_tick, Keepalive, TickAction};
use crate::room::{joined, left, recipients, relayed, room_or_empty, opt_wire, only_clips_kept, ClientHandle, ClientId, RoomView, Rooms};
use crate::server_config::{has_id, rooms_table, AuthMap, RoomConfig, ServerConfig};
use crate::wire::{clip_fits, clip_within_limit, WireMessage};

verus! {

/// The query of a connection request: `/ws?room=...&token=...`.
#[derive(Debug)]
pub struct WsQuery {
    pub room: String,
    pub token: String,
}

/// Whether a connection request is admitted.
#[derive(Debug, Clone, Copy, PartialEq, Eq, Structural)]
pub enum AuthDecision {
    /// The room is not configured (answered with 401).
    UnknownRoom,
    /// The token is not the room's (answered with 401).
    BadToken,
    /// Upgrade to a WebSocket and join the room.
    Accept,
}

/// The decision for a request to join `room` with `token`.
pub open spec fn admission(table: Map<Seq<char>, Seq<char>>, room: Seq<char>, token: Seq<char>) -> AuthDecision {
    if !table.contains_key(room) {
        AuthDecision::UnknownRoom
    } else if table[room] != token {
        AuthDecision::BadToken
    } else {
        AuthDecision::Accept
    }
}

/// Admits a connection whose token is the one configured for its room.
pub fn authorize(auth: &AuthMap, q: &WsQuery) -> (r: AuthDecision)
    ensures
        r == admission(auth@, q.room@, q.token@),
{
    match auth.token_for(&q.room) {
        None => AuthDecision::UnknownRoom,
        Some(expected) => {
            if *expected != q.token {
                AuthDecision::BadToken
            } else {
                AuthDecision::Accept
            }
        },
    }
}

/// The body of the 401 answer to a refused request.
pub open spec fn refusal_text(d: AuthDecision) -> Option<Seq<char>> {
    match d {
        AuthDecision::UnknownRoom => Some("bilinmeyen oda"@),
        AuthDecision::BadToken => Some("geçersiz token"@),
        AuthDecision::Accept => None,
    }
}

impl AuthDecision {
    /// The body of the 401 answer, or `None` for an admitted request.
    pub fn refusal(&self) -> (r: Option<&'static str>)
        ensures
            match r {
                Some(t) => refusal_text(*self) == Some(t@),
                None => refusal_text(*self) is None,
            },
    {
        match self {
            AuthDecision::UnknownRoom => Some("bilinmeyen oda"),
            AuthDecision::BadToken => Some("geçersiz token"),
            AuthDecision::Accept => None,
        }
    }
}

/// The table of a room list knows exactly the listed rooms, and gives each the
/// token of its last entry.
pub proof fn lemma_rooms_table(rooms: Seq<RoomConfig>, k: Seq<char>)
    ensures
        rooms_table(rooms).contains_key(k) == has_id(rooms, k),
        rooms_table(rooms).contains_key(k) ==> exists|i: int| 0 <= i < rooms.len()
            && #[trigger] rooms[i].id@ == k
            && rooms_table(rooms)[k] == rooms[i].token@
            && forall|j: int| i < j < rooms.len() ==> #[trigger] rooms[j].id@ != k,
    decreases rooms.len(),
{
    if rooms.len() > 0 {
        let init = rooms.drop_last();
        lemma_rooms_table(init, k);
        let n = rooms.len() - 1;
        if rooms[n].id@ == k {
            assert(rooms[n].id@ == k);
        } else {
            if has_id(init, k) {
                let i = choose|i: int| 0 <= i < init.len() && #[trigger] init[i].id@ == k;
                assert(rooms[i].id@ == k);
            }
            if has_id(rooms, k) {
                let i = choose|i: int| 0 <= i < rooms.len() && #[trigger] rooms[i].id@ == k;
                assert(init[i].id@ == k);
            }
            if rooms_table(init).contains_key(k) {
                let i = choose|i: int| 0 <= i < init.len()
                    && #[trigger] init[i].id@ == k
                    && rooms_table(init)[k] == init[i].token@
                    && forall|j: int| i < j < init.len() ==> #[trigger] init[j].id@ != k;
                assert(rooms[i].id@ == k);
                assert forall|j: int| i < j < rooms.len() implies #[trigger] rooms[j].id@ != k by {
                    if j < n {
                        assert(init[j].id@ == rooms[j].id@);
                    }
                }
            }
        }
    }
}

/// A client is admitted exactly when its room is configured and the token it
/// presents is the one given to that room by the room's last entry in the
/// configuration.
pub proof fn lemma_admitted_iff_configured(rooms: Seq<RoomConfig>, room: Seq<char>, token: Seq<char>)
    ensures
        admission(rooms_table(rooms), room, token) == AuthDecision::Accept <==> exists|i: int| 0 <= i < rooms.len()
            && #[trigger] rooms[i].id@ == room
            && rooms[i].token@ == token
            && forall|j: int| i < j < rooms.len() ==> #[trigger] rooms[j].id@ != room,
        !has_id(rooms, room) ==> admission(rooms_table(rooms), room, token) == AuthDecision::UnknownRoom,
{
    lemma_rooms_table(rooms, room);
    if admission(rooms_table(rooms), room, token) != AuthDecision::Accept {
        if exists|i: int| 0 <= i < rooms.len()
            && #[trigger] rooms[i].id@ == room
            && rooms[i].token@ == token
            && forall|j: int| i < j < rooms.len() ==> #[trigger] rooms[j].id@ != room {
            let i = choose|i: int| 0 <= i < rooms.len()
                && #[trigger] rooms[i].id@ == room
                && rooms[i].token@ == token
                && forall|j: int| i < j < rooms.len() ==> #[trigger] rooms[j].id@ != room;
            assert(has_id(rooms, room));
            let i2 = choose|i: int| 0 <= i < rooms.len()
                && #[trigger] rooms[i].id@ == room
                && rooms_table(rooms)[room] == rooms[i].token@
                && forall|j: int| i < j < rooms.len() ==> #[trigger] rooms[j].id@ != room;
            if i < i2 {
                assert(rooms[i2].id@ != room);
            } else if i2 < i {
                assert(rooms[i].id@ != room);
            }
        }
    }
}

/// The relay's shared state: the admission table and the rooms.
#[derive(Debug)]
pub struct AppState {
    pub auth: AuthMap,
    pub rooms: Rooms,
}

impl AppState {
    /// The state at start-up: the configured tokens, no room in use.
    pub fn new(cfg: &ServerConfig) -> (r: Self)
        ensures
            r.auth@ == rooms_table(cfg.rooms@),
            r.rooms@ == Map::<Seq<char>, RoomView>::empty(),
    {
        AppState { auth: cfg.auth_map(), rooms: Rooms::new() }
    }
}

/// Something that happened on an admitted connection.
#[derive(Debug)]
pub enum ServerFrame {
    /// A text frame within the size limit that decoded to a wire message.
    Wire(WireMessage),
    /// A text frame within the size limit that did not decode.
    Unparsable,
    /// A binary frame.
    Binary,
    /// A WebSocket-level ping with its payload.
    WsPing(Vec<u8>),
    /// A WebSocket-level pong.
    WsPong,
    /// The client closed the connection.
    Close,
    /// Receiving failed.
    Failed,
    /// The connection ended.
    Ended,
    /// The ping timer fired.
    Tick,
}

/// Why a frame was dropped (each is logged).
#[derive(Debug, Clone, Copy, PartialEq, Eq, Structural)]
pub enum DropReason {
    /// Not JSON, or an unknown message `type`.
    BadJson,
    /// A clip whose text is over `MAX_CLIP_BYTES`.
    ClipTooLarge,
    /// Binary frames are not part of the protocol.
    Binary,
}

/// What to do about a frame.
#[derive(Debug)]
pub enum ServerStep {
    Nothing,
    Dropped(DropReason),
    /// Put `msg` on the queue of each of these clients.
    Broadcast { to: Vec<ClientHandle>, msg: WireMessage },
    /// Put this message on this connection's own queue.
    Queue(WireMessage),
    /// Answer a WebSocket ping with this payload.
    WsPong(Vec<u8>),
    /// End the connection (and leave the room).
    Stop,
}

/// One admitted connection: its room, its number, and its keepalive count.
#[derive(Debug)]
pub struct ServerSession {
    room: String,
    client: ClientId,
    keepalive: Keepalive,
}

impl ServerSession {
    /// The room of the connection.
    pub closed spec fn room(self) -> Seq<char> {
        self.room@
    }

    /// The connection's number.
    pub closed spec fn client(self) -> ClientId {
        self.client
    }

    /// Pings sent since the last `pong`.
    pub closed spec fn unanswered_pings(self) -> nat {
        self.keepalive.unanswered_pings()
    }

    /// Joins client `client` to `room`. Returns the session and the room's last
    /// clip, which goes first on the new client's queue.
    pub fn open(rooms: &mut Rooms, room: String, client: ClientId) -> (r: (Self, Option<WireMessage>))
        ensures
            r.0.room() == room@,
            r.0.client() == client,
            r.0.unanswered_pings() == 0,
            final(rooms)@ == joined(old(rooms)@, room@, ClientHandle { id: client }),
            opt_wire(r.1) == room_or_empty(old(rooms)@, room@).last,
            only_clips_kept(final(rooms)@),
    {
        let last = rooms.join(room.as_str(), ClientHandle { id: client });
        (ServerSession { room, client, keepalive: Keepalive::new() }, last)
    }

    /// The connection ended: the client leaves its room.
    pub fn close(self, rooms: &mut Rooms)
        ensures
            final(rooms)@ == left(old(rooms)@, self.room(), self.client()),
            only_clips_kept(final(rooms)@),
    {
        rooms.leave(self.room.as_str(), self.client);
    }

    /// Decides what to do about a frame: a clip within the limit is relayed to the
    /// room's other clients and becomes its last clip; a `ping` is answered with a
    /// `pong` on the connection's own queue; a `pong` clears the keepalive count;
    /// undecodable, oversized and binary frames are dropped; the end of the
    /// connection, or a client silent for too long, stops the session.
    pub fn on_frame(&mut self, rooms: &mut Rooms, frame: ServerFrame) -> (r: ServerStep)
        ensures
            final(self).room() == old(self).room(),
            final(self).client() == old(self).client(),
            match frame {
                ServerFrame::Wire(m) => match m {
                    WireMessage::Clip { .. } => {
                        &&& final(self).unanswered_pings() == old(self).unanswered_pings()
                        &&& clip_fits(m) ==> {
                            &&& final(rooms)@ == relayed(old(rooms)@, old(self).room(), m@)
                            &&& r matches ServerStep::Broadcast { to, msg }
                            &&& to@ == recipients(old(rooms)@, old(self).room(), old(self).client())
                            &&& msg == m
                        }
                        &&& !clip_fits(m) ==> r == ServerStep::Dropped(DropReason::ClipTooLarge)
                            && final(rooms)@ == old(rooms)@
                    },
                    WireMessage::Ping => r == ServerStep::Queue(WireMessage::Pong)
                        && final(rooms)@ == old(rooms)@
                        && final(self).unanswered_pings() == old(self).unanswered_pings(),
                    WireMessage::Pong => r == ServerStep::Nothing
                        && final(rooms)@ == old(rooms)@
                        && final(self).unanswered_pings() == 0,
                },
                ServerFrame::Unparsable => r == ServerStep::Dropped(DropReason::BadJson)
                    && final(rooms)@ == old(rooms)@
                    && final(self).unanswered_pings() == old(self).unanswered_pings(),
                ServerFrame::Binary => r == ServerStep::Dropped(DropReason::Binary)
                    && final(rooms)@ == old(rooms)@
                    && final(self).unanswered_pings() == old(self).unanswered_pings(),
                ServerFrame::WsPing(p) => r == ServerStep::WsPong(p)
                    && final(rooms)@ == old(rooms)@
                    && final(self).unanswered_pings() == old(self).unanswered_pings(),
                ServerFrame::WsPong => r == ServerStep::Nothing
                    && final(rooms)@ == old(rooms)@
                    && final(self).unanswered_pings() == old(self).unanswered_pings(),
                ServerFrame::Close => r == ServerStep::Stop && final(rooms)@ == old(rooms)@,
                ServerFrame::Failed => r == ServerStep::Stop && final(rooms)@ == old(rooms)@,
                ServerFrame::Ended => r == ServerStep::Stop && final(rooms)@ == old(rooms)@,
                ServerFrame::Tick => {
                    &&& final(rooms)@ == old(rooms)@
                    &&& final(self).unanswered_pings() == keepalive_tick(old(self).unanswered_pings()).0
                    &&& keepalive_tick(old(self).unanswered_pings()).1 == TickAction::SendPing
                        ==> r == ServerStep::Queue(WireMessage::Ping)
                    &&& keepalive_tick(old(self).unanswered_pings()).1 == TickAction::TimedOut
                        ==> r == ServerStep::Stop
                },
            },
    {
        match frame {
            ServerFrame::Wire(m) => match m {
                WireMessage::Clip { .. } => {
                    if !clip_within_limit(&m) {
                        ServerStep::Dropped(DropReason::ClipTooLarge)
                    } else {
                        let to = rooms.broadcast(self.room.as_str(), self.client, &m);
                        ServerStep::Broadcast { to, msg: m }
                    }
                },
                WireMessage::Ping => ServerStep::Queue(WireMessage::Pong),
                WireMessage::Pong => {
                    self.keepalive.on_pong();
                    ServerStep::Nothing
                },
            },
            ServerFrame::Unparsable => ServerStep::Dropped(DropReason::BadJson),
            ServerFrame::Binary => ServerStep::Dropped(DropReason::Binary),
            ServerFrame::WsPing(p) => ServerStep::WsPong(p),
            ServerFrame::WsPong => ServerStep::Nothing,
            ServerFrame::Close => ServerStep::Stop,
            ServerFrame::Failed => ServerStep::Stop,
            ServerFrame::Ended => ServerStep::Stop,
            ServerFrame::Tick => match self.keepalive.on_tick() {
                TickAction::SendPing => ServerStep::Queue(WireMessage::Ping),
                TickAction::TimedOut => ServerStep::Stop,
            },
        }
    }
}

} // verus!
