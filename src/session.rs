//! The connection session: what each client request and the connection's
//! close do to the registry, and what is to be replied, published and
//! notified. The transport loop around it performs those effects.
use vstd::prelude::*;
use crate::realtime::{
    process_action, first_press_step, turn_of, winner_of, ActionOutcome, ClientRealtimeAction,
};
use crate::registry::{lookup_spec, RoomRegistry};
use crate::room::{
    is_fresh_room, same_descriptor, with_game, with_members, with_state, with_winner,
    without_player, GameInfo, GameRoom, Player, RoomState, same_text,
};
use crate::room_id::{append_text, is_room_id_text, is_room_number, lemma_room_id_round_trip, room_id_text};

verus! {

/// A request of a client.
#[derive(Debug)]
pub enum ClientMsg {
    CreateRoom { display_name: String },
    JoinRoom { room_id: String, display_name: String },
    SelectGame { game_id: String },
    StartGame,
    RealtimeAction { action: ClientRealtimeAction },
}

/// Why a request was refused.
#[derive(Debug, PartialEq, Eq)]
pub enum RequestError {
    /// The request needs a room and the connection has joined none.
    NotInRoom,
    /// No live room has the id that a join named.
    RoomNotFound(String),
    /// The connection's room is no longer live.
    RoomGone,
    OnlyHostCanSelect,
    OnlyHostCanStart,
    /// No game of the catalog has the requested id.
    GameNotFound,
    NoGameSelected,
    /// Every room id is taken.
    NoFreeRoomId,
}

/// The text that a client is sent for a refused request.
pub open spec fn error_message_spec(e: RequestError) -> Seq<char> {
    match e {
        RequestError::NotInRoom => "Not in a room"@,
        RequestError::RoomNotFound(id) => "Room '"@ + id@ + "' not found"@,
        RequestError::RoomGone => "Room not found"@,
        RequestError::OnlyHostCanSelect => "Only the host can select a game"@,
        RequestError::OnlyHostCanStart => "Only the host can start the game"@,
        RequestError::GameNotFound => "Game not found"@,
        RequestError::NoGameSelected => "No game selected"@,
        RequestError::NoFreeRoomId => "No free room id"@,
    }
}

impl RequestError {
    /// The text that a client is sent for this refusal.
    pub fn message(&self) -> (r: String)
        ensures
            r@ == error_message_spec(*self),
    {
        match self {
            RequestError::NotInRoom => "Not in a room".to_string(),
            RequestError::RoomNotFound(id) => append_text(
                append_text("Room '".to_string(), id.as_str()),
                "' not found",
            ),
            RequestError::RoomGone => "Room not found".to_string(),
            RequestError::OnlyHostCanSelect => "Only the host can select a game".to_string(),
            RequestError::OnlyHostCanStart => "Only the host can start the game".to_string(),
            RequestError::GameNotFound => "Game not found".to_string(),
            RequestError::NoGameSelected => "No game selected".to_string(),
            RequestError::NoFreeRoomId => "No free room id".to_string(),
        }
    }
}

/// The direct reply to a request.
#[derive(Debug)]
pub enum Reply {
    /// A snapshot of the connection's room as it stands after the request.
    RoomUpdate,
    Error(RequestError),
    /// No reply: the request lost a race or was not the player's to make.
    Silent,
}

/// A fire-and-forget call to a game service.
#[derive(Debug)]
pub enum Notice {
    /// `POST {endpoint}/game/init` with the room's id, players and settings.
    GameInit { endpoint: String, room: u32 },
    /// `POST {endpoint}/game/event` announcing the first-press winner.
    FirstPressWinner { endpoint: String, room: u32, winner: String },
}

/// What the transport is to do after a request.
#[derive(Debug)]
pub struct Outcome {
    pub reply: Reply,
    /// Publish a snapshot of the connection's room to its subscribers.
    pub publish: bool,
    /// Subscribe the connection to its room's broadcasts.
    pub subscribe: bool,
    pub notice: Option<Notice>,
}

/// Where a connection is in its life.
#[derive(Clone, Copy, Debug, PartialEq, Eq, Structural)]
pub enum SessionState {
    /// Identity assigned, no room joined.
    Connecting,
    Joined(u32),
    Closed,
}

/// One client connection.
#[derive(Debug)]
pub struct Session {
    pub player_id: String,
    pub state: SessionState,
}

/// What closing a connection did to its room.
pub enum Departure {
    /// The connection was in no live room.
    NoRoom,
    /// Others remain in the room of this number: publish its snapshot.
    Stayed(u32),
    /// The connection was the last player: the room has left the registry,
    /// and its final snapshot is to be published on its own channel.
    Emptied(GameRoom),
}

/// Relies on uuid::Uuid::new_v4 and its hyphenated text form: a fresh random
/// identity.
#[verifier::external_body]
fn fresh_identity() -> (r: String) {
    uuid::Uuid::new_v4().to_string()
}

pub open spec fn error_outcome(e: RequestError) -> Outcome {
    Outcome { reply: Reply::Error(e), publish: false, subscribe: false, notice: None }
}

pub open spec fn silent_outcome() -> Outcome {
    Outcome { reply: Reply::Silent, publish: false, subscribe: false, notice: None }
}

pub open spec fn update_outcome(subscribe: bool, notice: Option<Notice>) -> Outcome {
    Outcome { reply: Reply::RoomUpdate, publish: true, subscribe, notice }
}

pub open spec fn current_room(s: SessionState) -> Option<u32> {
    match s {
        SessionState::Joined(k) => Some(k),
        _ => None,
    }
}

/// The index of the first game of the catalog with identity `id`.
pub open spec fn catalog_index(catalog: Seq<GameInfo>, id: Seq<char>) -> Option<int>
    decreases catalog.len(),
{
    if catalog.len() == 0 {
        None
    } else if catalog[0].id@ == id {
        Some(0)
    } else {
        match catalog_index(catalog.drop_first(), id) {
            Some(i) => Some(i + 1),
            None => None,
        }
    }
}

proof fn lemma_catalog_index_in_range(catalog: Seq<GameInfo>, id: Seq<char>)
    ensures
        catalog_index(catalog, id) matches Some(i) ==> 0 <= i < catalog.len() && catalog[i].id@
            == id,
    decreases catalog.len(),
{
    if catalog.len() > 0 {
        lemma_catalog_index_in_range(catalog.drop_first(), id);
    }
}

/// Room `b` is room `a` with player `id` named `name` appended.
pub open spec fn joined(a: GameRoom, b: GameRoom, id: Seq<char>, name: Seq<char>) -> bool {
    &&& b.players@.len() == a.players@.len() + 1
    &&& b.players@.drop_last() == a.players@
    &&& b.players@.last().id@ == id
    &&& b.players@.last().display_name@ == name
    &&& b == with_members(a, b.players, a.host_id)
}

/// The effect of a create request under the name `name`, on shard `shard`
/// of `shards`.
pub open spec fn create_effect(
    r0: Map<u32, GameRoom>,
    r1: Map<u32, GameRoom>,
    shard: u32,
    shards: u32,
    s0: Session,
    s1: Session,
    name: Seq<char>,
    out: Outcome,
) -> bool {
    if exists|k: u32|
        is_room_number(k as int) && k % shards == shard && !#[trigger] r0.contains_key(k) {
        match current_room(s1.state) {
            Some(k) => {
                &&& k % shards == shard
                &&& s1.player_id == s0.player_id
                &&& out == update_outcome(true, None)
                &&& !r0.contains_key(k)
                &&& r1 == r0.insert(k, r1[k])
                &&& is_room_id_text(r1[k].id@)
                &&& r1[k].id@ == room_id_text(k as int)
                &&& is_fresh_room(r1[k], s0.player_id@, name)
            },
            None => false,
        }
    } else {
        &&& s1 == s0
        &&& r1 == r0
        &&& out == error_outcome(RequestError::NoFreeRoomId)
    }
}

/// The effect of a join request for `room_id` under the name `name`.
pub open spec fn join_effect(
    r0: Map<u32, GameRoom>,
    r1: Map<u32, GameRoom>,
    s0: Session,
    s1: Session,
    room_id: String,
    name: Seq<char>,
    out: Outcome,
) -> bool {
    match lookup_spec(r0, room_id@) {
        None => {
            &&& r1 == r0
            &&& s1 == s0
            &&& out == error_outcome(RequestError::RoomNotFound(room_id))
        },
        Some(k) => {
            &&& r1 == r0.insert(k, r1[k])
            &&& joined(r0[k], r1[k], s0.player_id@, name)
            &&& s1 == Session { player_id: s0.player_id, state: SessionState::Joined(k) }
            &&& out == update_outcome(true, None)
        },
    }
}

/// The common refusals of a request on the connection's own room: no room
/// joined, or the room no longer live.
pub open spec fn room_refusal(r0: Map<u32, GameRoom>, s0: Session) -> Option<RequestError> {
    match current_room(s0.state) {
        None => Some(RequestError::NotInRoom),
        Some(k) => if !r0.contains_key(k) {
            Some(RequestError::RoomGone)
        } else {
            None
        },
    }
}

/// The effect of a game selection by the connection.
pub open spec fn select_effect(
    r0: Map<u32, GameRoom>,
    r1: Map<u32, GameRoom>,
    s0: Session,
    catalog: Seq<GameInfo>,
    game_id: Seq<char>,
    out: Outcome,
) -> bool {
    match room_refusal(r0, s0) {
        Some(e) => r1 == r0 && out == error_outcome(e),
        None => {
            let k = current_room(s0.state).unwrap();
            if r0[k].host_id@ != s0.player_id@ {
                r1 == r0 && out == error_outcome(RequestError::OnlyHostCanSelect)
            } else {
                match catalog_index(catalog, game_id) {
                    None => r1 == r0 && out == error_outcome(RequestError::GameNotFound),
                    Some(i) => {
                        &&& r1 == r0.insert(k, r1[k])
                        &&& r1[k] == with_game(r0[k], r1[k].selected_game)
                        &&& r1[k].selected_game matches Some(g) && same_descriptor(g, catalog[i])
                        &&& out == update_outcome(false, None)
                    },
                }
            }
        },
    }
}

/// The effect of a start request by the connection.
pub open spec fn start_effect(
    r0: Map<u32, GameRoom>,
    r1: Map<u32, GameRoom>,
    s0: Session,
    out: Outcome,
) -> bool {
    match room_refusal(r0, s0) {
        Some(e) => r1 == r0 && out == error_outcome(e),
        None => {
            let k = current_room(s0.state).unwrap();
            if r0[k].host_id@ != s0.player_id@ {
                r1 == r0 && out == error_outcome(RequestError::OnlyHostCanStart)
            } else {
                match r0[k].selected_game {
                    None => r1 == r0 && out == error_outcome(RequestError::NoGameSelected),
                    Some(g) => {
                        &&& r1 == r0.insert(k, r1[k])
                        &&& r1[k] == with_state(r0[k], RoomState::InGame)
                        &&& out == update_outcome(
                            false,
                            Some(Notice::GameInit { endpoint: g.api_endpoint, room: k }),
                        )
                    },
                }
            }
        },
    }
}

/// The effect of a realtime action by the connection.
pub open spec fn realtime_effect(
    r0: Map<u32, GameRoom>,
    r1: Map<u32, GameRoom>,
    s0: Session,
    action: ClientRealtimeAction,
    out: Outcome,
) -> bool {
    match room_refusal(r0, s0) {
        Some(e) => r1 == r0 && out == error_outcome(e),
        None => {
            let k = current_room(s0.state).unwrap();
            let a = r0[k];
            match action {
                ClientRealtimeAction::FirstPress => {
                    let (w, ok) = first_press_step(winner_of(a.realtime_state), s0.player_id@);
                    if ok {
                        &&& r1 == r0.insert(k, r1[k])
                        &&& winner_of(r1[k].realtime_state) == w
                        &&& r1[k] == with_winner(a, r1[k].realtime_state.first_press_winner)
                        &&& out == update_outcome(
                            false,
                            match a.selected_game {
                                Some(g) => Some(
                                    Notice::FirstPressWinner {
                                        endpoint: g.api_endpoint,
                                        room: k,
                                        winner: s0.player_id,
                                    },
                                ),
                                None => None,
                            },
                        )
                    } else {
                        r1 == r0 && out == silent_outcome()
                    }
                },
                ClientRealtimeAction::TurnAction { .. } => {
                    &&& r1 == r0
                    &&& out == if turn_of(a.realtime_state) == Some(s0.player_id@) {
                        update_outcome(false, None)
                    } else {
                        silent_outcome()
                    }
                },
            }
        },
    }
}

/// The effect of closing the connection.
pub open spec fn disconnect_effect(
    r0: Map<u32, GameRoom>,
    r1: Map<u32, GameRoom>,
    s0: Session,
    d: Departure,
) -> bool {
    match current_room(s0.state) {
        Some(k) if r0.contains_key(k) => {
            let a = r0[k];
            let rest = without_player(a.players@, s0.player_id@);
            if rest.len() == 0 {
                &&& r1 == r0.remove(k)
                &&& d matches Departure::Emptied(b) && b.players@.len() == 0 && b == with_members(
                    a,
                    b.players,
                    a.host_id,
                )
            } else {
                &&& r1 == r0.insert(k, r1[k])
                &&& d == Departure::Stayed(k)
                &&& r1[k].players@ == rest
                &&& r1[k].wf()
                &&& a.host_id@ == s0.player_id@ ==> r1[k].host_id@ == rest[0].id@
                &&& a.host_id@ != s0.player_id@ ==> r1[k].host_id == a.host_id
                &&& r1[k] == with_members(a, r1[k].players, r1[k].host_id)
            }
        },
        _ => r1 == r0 && d == Departure::NoRoom,
    }
}

/// What the room's broadcast channel handed the connection.
#[derive(Debug)]
pub enum HubEvent {
    /// The next message published on the room.
    Message(String),
    /// The connection fell behind the channel's backlog and missed messages.
    Lagged,
    /// The channel is gone.
    Closed,
}

/// What the connection does with a broadcast.
#[derive(Debug)]
pub enum HubAction {
    /// Send the message to the client as it is.
    Forward(String),
    /// Send a full snapshot of the room, so that the client converges again.
    Resync,
    /// Stop listening to the channel.
    Unsubscribe,
}

/// Decides what to do with a broadcast: a message is forwarded verbatim, a
/// subscriber that fell behind gets a full snapshot rather than a silent gap,
/// and a closed channel is dropped.
pub fn on_hub_event(e: HubEvent) -> (r: HubAction)
    ensures
        match e {
            HubEvent::Message(m) => r == HubAction::Forward(m),
            HubEvent::Lagged => r == HubAction::Resync,
            HubEvent::Closed => r == HubAction::Unsubscribe,
        },
{
    match e {
        HubEvent::Message(m) => HubAction::Forward(m),
        HubEvent::Lagged => HubAction::Resync,
        HubEvent::Closed => HubAction::Unsubscribe,
    }
}

/// Finds the first game of the catalog with the given identity.
fn find_game(catalog: &Vec<GameInfo>, game_id: &str) -> (r: Option<usize>)
    ensures
        match r {
            Some(i) => catalog_index(catalog@, game_id@) == Some(i as int) && i < catalog@.len(),
            None => catalog_index(catalog@, game_id@) is None,
        },
{
    proof {
        lemma_catalog_index_in_range(catalog@, game_id@);
        assert(catalog@.subrange(0, catalog@.len() as int) =~= catalog@);
    }
    let mut i: usize = 0;
    while i < catalog.len()
        invariant
            0 <= i <= catalog@.len(),
            catalog_index(catalog@, game_id@) == match catalog_index(
                catalog@.subrange(i as int, catalog@.len() as int),
                game_id@,
            ) {
                Some(j) => Some(j + i),
                None => None,
            },
        decreases catalog@.len() - i,
    {
        let ghost rest = catalog@.subrange(i as int, catalog@.len() as int);
        proof {
            assert(rest.drop_first() =~= catalog@.subrange(i as int + 1, catalog@.len() as int));
            assert(rest[0] == catalog@[i as int]);
        }
        if same_text(catalog[i].id.as_str(), game_id) {
            return Some(i);
        }
        i = i + 1;
    }
    None
}


fn error_reply(e: RequestError) -> (r: Outcome)
    ensures
        r == error_outcome(e),
{
    Outcome { reply: Reply::Error(e), publish: false, subscribe: false, notice: None }
}

fn silent_reply() -> (r: Outcome)
    ensures
        r == silent_outcome(),
{
    Outcome { reply: Reply::Silent, publish: false, subscribe: false, notice: None }
}

fn update_reply(subscribe: bool, notice: Option<Notice>) -> (r: Outcome)
    ensures
        r == update_outcome(subscribe, notice),
{
    Outcome { reply: Reply::RoomUpdate, publish: true, subscribe, notice }
}

impl Session {
    /// A new connection with a fresh random identity, in no room.
    pub fn new() -> (r: Session)
        ensures
            r.state == SessionState::Connecting,
    {
        Session { player_id: fresh_identity(), state: SessionState::Connecting }
    }

    /// A new connection with the given identity, in no room.
    pub fn with_identity(player_id: String) -> (r: Session)
        ensures
            r.player_id == player_id,
            r.state == SessionState::Connecting,
    {
        Session { player_id, state: SessionState::Connecting }
    }

    /// The number of the room the connection has joined, if any.
    pub fn room(&self) -> (r: Option<u32>)
        ensures
            r == current_room(self.state),
    {
        match self.state {
            SessionState::Joined(k) => Some(k),
            _ => None,
        }
    }

    /// Creates a room with this connection's player as sole player and host,
    /// and joins it.
    pub fn create_room(&mut self, reg: &mut RoomRegistry, display_name: String) -> (r: Outcome)
        requires
            old(reg).wf(),
        ensures
            final(reg).wf(),
            create_effect(
                old(reg)@,
                final(reg)@,
                old(reg).shard_index(),
                old(reg).shard_count(),
                *old(self),
                *final(self),
                display_name@,
                r,
            ),
    {
        match reg.create_room(self.player_id.clone(), display_name) {
            Some(k) => {
                proof {
                    lemma_room_id_round_trip(k as int);
                }
                self.state = SessionState::Joined(k);
                update_reply(true, None)
            },
            None => error_reply(RequestError::NoFreeRoomId),
        }
    }

    /// Joins the live room that `room_id` names, as the last player.
    pub fn join_room(&mut self, reg: &mut RoomRegistry, room_id: String, display_name: String) -> (r:
        Outcome)
        requires
            old(reg).wf(),
        ensures
            final(reg).wf(),
            join_effect(
                old(reg)@,
                final(reg)@,
                *old(self),
                *final(self),
                room_id,
                display_name@,
                r,
            ),
    {
        match reg.find(room_id.as_str()) {
            Some(k) => {
                let mut room = reg.take(k).unwrap();
                let ghost a = room;
                room.players.push(Player { id: self.player_id.clone(), display_name });
                proof {
                    assert(room.players@.drop_last() =~= a.players@);
                    let h = choose|i: int|
                        0 <= i < a.players@.len() && (#[trigger] a.players@[i]).id@ == a.host_id@;
                    assert(room.players@[h] == a.players@[h]);
                }
                reg.put(k, room);
                self.state = SessionState::Joined(k);
                proof {
                    assert(reg@ =~= old(reg)@.insert(k, reg@[k]));
                }
                update_reply(true, None)
            },
            None => error_reply(RequestError::RoomNotFound(room_id)),
        }
    }

    /// Attaches the catalog's game `game_id` to the connection's room; the
    /// host's request only.
    pub fn select_game(&self, reg: &mut RoomRegistry, catalog: &Vec<GameInfo>, game_id: String) -> (r:
        Outcome)
        requires
            old(reg).wf(),
        ensures
            final(reg).wf(),
            select_effect(old(reg)@, final(reg)@, *self, catalog@, game_id@, r),
    {
        let k = match self.state {
            SessionState::Joined(k) => k,
            _ => return error_reply(RequestError::NotInRoom),
        };
        let mut room = match reg.take(k) {
            Some(room) => room,
            None => {
                proof {
                    assert(reg@ =~= old(reg)@);
                }
                return error_reply(RequestError::RoomGone);
            },
        };
        if !same_text(room.host_id.as_str(), self.player_id.as_str()) {
            reg.put(k, room);
            proof {
                assert(reg@ =~= old(reg)@);
            }
            return error_reply(RequestError::OnlyHostCanSelect);
        }
        match find_game(catalog, game_id.as_str()) {
            Some(i) => {
                room.selected_game = Some(catalog[i].copied());
                reg.put(k, room);
                proof {
                    assert(reg@ =~= old(reg)@.insert(k, reg@[k]));
                }
                update_reply(false, None)
            },
            None => {
                reg.put(k, room);
                proof {
                    assert(reg@ =~= old(reg)@);
                }
                error_reply(RequestError::GameNotFound)
            },
        }
    }

    /// Starts the selected game of the connection's room; the host's request
    /// only.
    pub fn start_game(&self, reg: &mut RoomRegistry) -> (r: Outcome)
        requires
            old(reg).wf(),
        ensures
            final(reg).wf(),
            start_effect(old(reg)@, final(reg)@, *self, r),
    {
        let k = match self.state {
            SessionState::Joined(k) => k,
            _ => return error_reply(RequestError::NotInRoom),
        };
        let mut room = match reg.take(k) {
            Some(room) => room,
            None => {
                proof {
                    assert(reg@ =~= old(reg)@);
                }
                return error_reply(RequestError::RoomGone);
            },
        };
        if !same_text(room.host_id.as_str(), self.player_id.as_str()) {
            reg.put(k, room);
            proof {
                assert(reg@ =~= old(reg)@);
            }
            return error_reply(RequestError::OnlyHostCanStart);
        }
        let endpoint = match &room.selected_game {
            Some(g) => g.api_endpoint.clone(),
            None => {
                reg.put(k, room);
                proof {
                    assert(reg@ =~= old(reg)@);
                }
                return error_reply(RequestError::NoGameSelected);
            },
        };
        room.state = RoomState::InGame;
        reg.put(k, room);
        proof {
            assert(reg@ =~= old(reg)@.insert(k, reg@[k]));
        }
        update_reply(false, Some(Notice::GameInit { endpoint, room: k }))
    }

    /// Hands a realtime action of the connection's player to the resolver.
    /// Only an accepted action is replied to and published.
    pub fn realtime_action(&self, reg: &mut RoomRegistry, action: ClientRealtimeAction) -> (r:
        Outcome)
        requires
            old(reg).wf(),
        ensures
            final(reg).wf(),
            realtime_effect(old(reg)@, final(reg)@, *self, action, r),
    {
        let k = match self.state {
            SessionState::Joined(k) => k,
            _ => return error_reply(RequestError::NotInRoom),
        };
        let mut room = match reg.take(k) {
            Some(room) => room,
            None => {
                proof {
                    assert(reg@ =~= old(reg)@);
                }
                return error_reply(RequestError::RoomGone);
            },
        };
        let decided = process_action(&mut room, action, self.player_id.as_str());
        let out = match decided {
            ActionOutcome::FirstPressWon => {
                let notice = match &room.selected_game {
                    Some(g) => Some(
                        Notice::FirstPressWinner {
                            endpoint: g.api_endpoint.clone(),
                            room: k,
                            winner: self.player_id.clone(),
                        },
                    ),
                    None => None,
                };
                update_reply(false, notice)
            },
            ActionOutcome::TurnTaken => update_reply(false, None),
            ActionOutcome::Ignored => silent_reply(),
        };
        reg.put(k, room);
        proof {
            if decided != ActionOutcome::FirstPressWon {
                assert(reg@ =~= old(reg)@);
            } else {
                assert(reg@ =~= old(reg)@.insert(k, reg@[k]));
            }
        }
        out
    }

    /// Handles one request of the client.
    pub fn handle_client_message(
        &mut self,
        reg: &mut RoomRegistry,
        catalog: &Vec<GameInfo>,
        msg: ClientMsg,
    ) -> (r: Outcome)
        requires
            old(reg).wf(),
        ensures
            final(reg).wf(),
            final(self).player_id == old(self).player_id,
            match msg {
                ClientMsg::CreateRoom { display_name } => create_effect(
                    old(reg)@,
                    final(reg)@,
                    old(reg).shard_index(),
                    old(reg).shard_count(),
                    *old(self),
                    *final(self),
                    display_name@,
                    r,
                ),
                ClientMsg::JoinRoom { room_id, display_name } => join_effect(
                    old(reg)@,
                    final(reg)@,
                    *old(self),
                    *final(self),
                    room_id,
                    display_name@,
                    r,
                ),
                ClientMsg::SelectGame { game_id } => {
                    &&& *final(self) == *old(self)
                    &&& select_effect(old(reg)@, final(reg)@, *old(self), catalog@, game_id@, r)
                },
                ClientMsg::StartGame => {
                    &&& *final(self) == *old(self)
                    &&& start_effect(old(reg)@, final(reg)@, *old(self), r)
                },
                ClientMsg::RealtimeAction { action } => {
                    &&& *final(self) == *old(self)
                    &&& realtime_effect(old(reg)@, final(reg)@, *old(self), action, r)
                },
            },
    {
        match msg {
            ClientMsg::CreateRoom { display_name } => self.create_room(reg, display_name),
            ClientMsg::JoinRoom { room_id, display_name } => self.join_room(
                reg,
                room_id,
                display_name,
            ),
            ClientMsg::SelectGame { game_id } => self.select_game(reg, catalog, game_id),
            ClientMsg::StartGame => self.start_game(reg),
            ClientMsg::RealtimeAction { action } => self.realtime_action(reg, action),
        }
    }

    /// Closes the connection: its player leaves its room, the earliest-joined
    /// remaining player becomes host where the host left, and a room left
    /// empty leaves the registry.
    pub fn disconnect(&mut self, reg: &mut RoomRegistry) -> (d: Departure)
        requires
            old(reg).wf(),
        ensures
            final(reg).wf(),
            final(self).player_id == old(self).player_id,
            final(self).state == SessionState::Closed,
            disconnect_effect(old(reg)@, final(reg)@, *old(self), d),
    {
        let current = self.state;
        self.state = SessionState::Closed;
        let k = match current {
            SessionState::Joined(k) => k,
            _ => return Departure::NoRoom,
        };
        let mut room = match reg.take(k) {
            Some(room) => room,
            None => {
                proof {
                    assert(reg@ =~= old(reg)@);
                }
                return Departure::NoRoom;
            },
        };
        let empty = room.remove_player(self.player_id.as_str());
        if empty {
            Departure::Emptied(room)
        } else {
            reg.put(k, room);
            proof {
                assert(reg@ =~= old(reg)@.insert(k, reg@[k]));
            }
            Departure::Stayed(k)
        }
    }
}

/// Once the last player has left a room, the room is gone: a join that
/// names its id finds no room, is refused and changes nothing.
pub proof fn lemma_emptied_room_cannot_be_joined(
    reg: RoomRegistry,
    r1: Map<u32, GameRoom>,
    s0: Session,
    d: Departure,
)
    requires
        reg.wf(),
        disconnect_effect(reg@, r1, s0, d),
        d is Emptied,
    ensures
        current_room(s0.state) matches Some(k) && lookup_spec(r1, room_id_text(k as int)) is None
            && forall|r2: Map<u32, GameRoom>, s1: Session, s2: Session, room_id: String, name: Seq<
            char>, out: Outcome|
            room_id@ == room_id_text(k as int) && #[trigger] join_effect(
                r1,
                r2,
                s1,
                s2,
                room_id,
                name,
                out,
            ) ==> r2 == r1 && s2 == s1 && out == error_outcome(RequestError::RoomNotFound(room_id)),
{
    let k = current_room(s0.state).unwrap();
    assert(reg@.contains_key(k));
    lemma_room_id_round_trip(k as int);
}

} // verus!
