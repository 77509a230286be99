//! The room data model: players, settings, the realtime sub-state and the
//! room itself, with the room's well-formedness and its membership changes.
use std::collections::HashMap;
use std::collections::VecDeque;
use vstd::prelude::*;
use crate::realtime::{QueuedRealtimeAction, Timer};
use crate::room_id::{room_id_string, room_id_text, is_room_number};

verus! {

/// A JSON value carried through the engine without being read.
#[verifier::external_type_specification]
#[verifier::external_body]
pub struct ExJsonValue(serde_json::Value);

/// The sending half of a room's broadcast channel.
#[verifier::external_type_specification]
#[verifier::external_body]
#[verifier::reject_recursive_types(T)]
pub struct ExBroadcastSender<T>(tokio::sync::broadcast::Sender<T>);

/// How many messages a room's broadcast channel holds for a subscriber that
/// has fallen behind.
pub const BROADCAST_BACKLOG: usize = 100;

/// Relies on serde_json::Value's Clone: a copy of the value.
#[verifier::external_body]
pub(crate) fn copy_json(v: &serde_json::Value) -> (r: serde_json::Value) {
    v.clone()
}

/// Relies on tokio::sync::broadcast::channel: a fresh channel with the given
/// backlog; the receiving half is dropped, subscribers come by `subscribe`.
#[verifier::external_body]
fn open_channel(capacity: usize) -> (r: tokio::sync::broadcast::Sender<String>)
    requires
        0 < capacity <= usize::MAX / 2,
{
    tokio::sync::broadcast::channel(capacity).0
}

/// Relies on chrono::Utc::now and DateTime::timestamp_millis: the current
/// time in milliseconds since the Unix epoch.
#[verifier::external_body]
pub(crate) fn now_millis() -> (r: i64) {
    chrono::Utc::now().timestamp_millis()
}

/// A participant of a room.
#[derive(Debug)]
pub struct Player {
    /// The identity of the player's connection.
    pub id: String,
    pub display_name: String,
}

impl Player {
    pub fn copied(&self) -> (r: Player)
        ensures
            r == *self,
    {
        Player { id: self.id.clone(), display_name: self.display_name.clone() }
    }
}

/// Whether some player of `ps` has identity `id`.
pub open spec fn has_player(ps: Seq<Player>, id: Seq<char>) -> bool {
    exists|i: int| 0 <= i < ps.len() && (#[trigger] ps[i]).id@ == id
}

/// `ps` with every player of identity `id` taken out, the others in order.
pub open spec fn without_player(ps: Seq<Player>, id: Seq<char>) -> Seq<Player>
    decreases ps.len(),
{
    if ps.len() == 0 {
        Seq::empty()
    } else {
        let rest = without_player(ps.drop_last(), id);
        if ps.last().id@ == id {
            rest
        } else {
            rest.push(ps.last())
        }
    }
}

/// Settings of a room.
#[derive(Debug)]
pub struct RoomSettings {
    pub max_players: u8,
    /// Minutes of idleness after which a room may be reclaimed.
    pub room_liberation_time: u64,
    /// The progression policy, one of a fixed set of policy names.
    pub progression_rule: String,
}

impl RoomSettings {
    pub fn copied(&self) -> (r: RoomSettings)
        ensures
            r == *self,
    {
        RoomSettings {
            max_players: self.max_players,
            room_liberation_time: self.room_liberation_time,
            progression_rule: self.progression_rule.clone(),
        }
    }
}

/// Where a room is in its life.
#[derive(Clone, Copy, Debug, PartialEq, Eq, Structural)]
pub enum RoomState {
    Waiting,
    InGame,
    Finished,
}

/// A game of the catalog that a room can play.
#[derive(Debug)]
pub struct GameInfo {
    pub id: String,
    pub title: String,
    pub description: String,
    pub min_players: u8,
    pub max_players: u8,
    pub recommended_players: u8,
    /// Base URL of the game service.
    pub api_endpoint: String,
    pub settings_schema: serde_json::Value,
}

impl GameInfo {
    /// A copy of the descriptor.
    pub fn copied(&self) -> (r: GameInfo)
        ensures
            r.id == self.id,
            r.title == self.title,
            r.description == self.description,
            r.min_players == self.min_players,
            r.max_players == self.max_players,
            r.recommended_players == self.recommended_players,
            r.api_endpoint == self.api_endpoint,
    {
        GameInfo {
            id: self.id.clone(),
            title: self.title.clone(),
            description: self.description.clone(),
            min_players: self.min_players,
            max_players: self.max_players,
            recommended_players: self.recommended_players,
            api_endpoint: self.api_endpoint.clone(),
            settings_schema: copy_json(&self.settings_schema),
        }
    }
}

/// The realtime sub-state of a room.
pub struct RealtimeState {
    /// The player whose turn it is, if any.
    pub current_turn: Option<String>,
    pub turn_order: Vec<String>,
    pub active_timers: HashMap<String, Timer>,
    /// The winner of this round's first-press race, once decided.
    pub first_press_winner: Option<String>,
    /// Actions waiting to be handled; local to this process.
    pub pending_actions: VecDeque<QueuedRealtimeAction>,
    pub game_phase: String,
}

/// A room: its players, settings, game and realtime state.
pub struct GameRoom {
    /// Five decimal digits, unique among the rooms of a registry.
    pub id: String,
    pub host_id: String,
    /// In order of joining.
    pub players: Vec<Player>,
    pub settings: RoomSettings,
    pub selected_game: Option<GameInfo>,
    pub state: RoomState,
    pub realtime_state: RealtimeState,
    /// Milliseconds since the Unix epoch.
    pub created_at: i64,
    /// Milliseconds since the Unix epoch.
    pub last_activity: i64,
    /// The room's broadcast channel.
    pub tx: Option<tokio::sync::broadcast::Sender<String>>,
}

/// Room `a` with its first-press winner replaced by `w`.
pub open spec fn with_winner(a: GameRoom, w: Option<String>) -> GameRoom {
    GameRoom { realtime_state: RealtimeState { first_press_winner: w, ..a.realtime_state }, ..a }
}

/// Room `a` with its game phase replaced by `phase`.
pub open spec fn with_phase(a: GameRoom, phase: String) -> GameRoom {
    GameRoom { realtime_state: RealtimeState { game_phase: phase, ..a.realtime_state }, ..a }
}

/// Room `a` with its players and host replaced.
pub open spec fn with_members(a: GameRoom, players: Vec<Player>, host_id: String) -> GameRoom {
    GameRoom { players, host_id, ..a }
}

/// Room `a` with its selected game replaced by `g`.
pub open spec fn with_game(a: GameRoom, g: Option<GameInfo>) -> GameRoom {
    GameRoom { selected_game: g, ..a }
}

/// Room `a` with its state replaced by `s`.
pub open spec fn with_state(a: GameRoom, s: RoomState) -> GameRoom {
    GameRoom { state: s, ..a }
}

/// Descriptor `g` carries the same plain fields as descriptor `c`.
pub open spec fn same_descriptor(g: GameInfo, c: GameInfo) -> bool {
    &&& g.id == c.id
    &&& g.title == c.title
    &&& g.description == c.description
    &&& g.min_players == c.min_players
    &&& g.max_players == c.max_players
    &&& g.recommended_players == c.recommended_players
    &&& g.api_endpoint == c.api_endpoint
}

/// `r` is a room just created for host `host_id` named `name`: the host is
/// its sole player, the default settings hold, no game is selected, it is
/// waiting, and its realtime state is that of the lobby with nothing recorded.
pub open spec fn is_fresh_room(r: GameRoom, host_id: Seq<char>, name: Seq<char>) -> bool {
    &&& r.wf()
    &&& r.host_id@ == host_id
    &&& r.players@.len() == 1
    &&& r.players@[0].id@ == host_id
    &&& r.players@[0].display_name@ == name
    &&& r.settings.max_players == 8
    &&& r.settings.room_liberation_time == 15
    &&& r.settings.progression_rule@ == "単独進行"@
    &&& r.selected_game.is_none()
    &&& r.state == RoomState::Waiting
    &&& r.realtime_state.current_turn.is_none()
    &&& r.realtime_state.turn_order@.len() == 0
    &&& r.realtime_state.active_timers@ == Map::<String, Timer>::empty()
    &&& r.realtime_state.first_press_winner.is_none()
    &&& r.realtime_state.pending_actions@.len() == 0
    &&& r.realtime_state.game_phase@ == "lobby"@
    &&& r.tx.is_some()
}

impl GameRoom {
    /// A room is well formed when it has a player and its host is one of them.
    pub open spec fn wf(&self) -> bool {
        &&& self.players@.len() > 0
        &&& has_player(self.players@, self.host_id@)
    }

    /// A new room numbered `number` whose sole player and host is the given player.
    pub fn new(number: u32, host_id: String, host_display_name: String) -> (r: GameRoom)
        requires
            is_room_number(number as int),
        ensures
            r.id@ == room_id_text(number as int),
            is_fresh_room(r, host_id@, host_display_name@),
    {
        let host = Player { id: host_id.clone(), display_name: host_display_name };
        let tx = open_channel(BROADCAST_BACKLOG);
        let now = now_millis();
        let players = vec![host];
        proof {
            assert(players@[0].id@ == host_id@);
        }
        GameRoom {
            id: room_id_string(number),
            host_id,
            players,
            settings: RoomSettings {
                max_players: 8,
                room_liberation_time: 15,
                progression_rule: "単独進行".to_string(),
            },
            selected_game: None,
            state: RoomState::Waiting,
            realtime_state: RealtimeState {
                current_turn: None,
                turn_order: Vec::new(),
                active_timers: HashMap::new(),
                first_press_winner: None,
                pending_actions: VecDeque::new(),
                game_phase: "lobby".to_string(),
            },
            created_at: now,
            last_activity: now,
            tx: Some(tx),
        }
    }
}

/// Whether two texts hold the same characters.
pub fn same_text(a: &str, b: &str) -> (r: bool)
    ensures
        r == (a@ == b@),
{
    let n = a.unicode_len();
    if n != b.unicode_len() {
        return false;
    }
    let mut i: usize = 0;
    while i < n
        invariant
            n == a@.len() == b@.len(),
            0 <= i <= n,
            forall|j: int| 0 <= j < i ==> a@[j] == b@[j],
        decreases n - i,
    {
        if a.get_char(i) != b.get_char(i) {
            return false;
        }
        i = i + 1;
    }
    proof {
        assert(a@ =~= b@);
    }
    true
}

/// A player that stays keeps its place in `without_player`.
pub proof fn lemma_without_player_keeps(ps: Seq<Player>, id: Seq<char>, other: Seq<char>)
    requires
        has_player(ps, other),
        other != id,
    ensures
        has_player(without_player(ps, id), other),
    decreases ps.len(),
{
    let k = choose|k: int| 0 <= k < ps.len() && (#[trigger] ps[k]).id@ == other;
    let rest = without_player(ps.drop_last(), id);
    if k == ps.len() - 1 {
        let r = rest.push(ps.last());
        assert(r[r.len() - 1].id@ == other);
    } else {
        assert(ps.drop_last()[k] == ps[k]);
        lemma_without_player_keeps(ps.drop_last(), id, other);
        let j = choose|j: int| 0 <= j < rest.len() && (#[trigger] rest[j]).id@ == other;
        if ps.last().id@ != id {
            assert(rest.push(ps.last())[j] == rest[j]);
        }
    }
}

/// No player of identity `id` is left in `without_player(ps, id)`.
pub proof fn lemma_without_player_removes(ps: Seq<Player>, id: Seq<char>)
    ensures
        !has_player(without_player(ps, id), id),
        without_player(ps, id).len() <= ps.len(),
    decreases ps.len(),
{
    if ps.len() > 0 {
        lemma_without_player_removes(ps.drop_last(), id);
        let rest = without_player(ps.drop_last(), id);
        if ps.last().id@ != id {
            let r = rest.push(ps.last());
            assert forall|j: int| 0 <= j < r.len() implies (#[trigger] r[j]).id@ != id by {
                if j < rest.len() {
                    assert(r[j] == rest[j]);
                }
            }
        }
    }
}

impl GameRoom {
    /// Takes the player of identity `player_id` out of the room. Where that
    /// player was the host and others remain, the earliest-joined of them
    /// becomes host; where none remain the host is left as it was. Returns
    /// whether the room is now empty.
    pub fn remove_player(&mut self, player_id: &str) -> (empty: bool)
        ensures
            final(self).players@ == without_player(old(self).players@, player_id@),
            !has_player(final(self).players@, player_id@),
            empty == (final(self).players@.len() == 0),
            old(self).host_id@ == player_id@ && !empty ==> final(self).host_id@
                == final(self).players@[0].id@,
            old(self).host_id@ != player_id@ || empty ==> final(self).host_id == old(self).host_id,
            old(self).wf() && !empty ==> final(self).wf(),
            *final(self) == with_members(*old(self), final(self).players, final(self).host_id),
    {
        let ghost old_players = self.players@;
        let mut kept: Vec<Player> = Vec::new();
        let mut i: usize = 0;
        while i < self.players.len()
            invariant
                self.players@ == old_players,
                0 <= i <= old_players.len(),
                kept@ == without_player(old_players.subrange(0, i as int), player_id@),
            decreases old_players.len() - i,
        {
            proof {
                assert(old_players.subrange(0, i as int + 1).drop_last() =~= old_players.subrange(
                    0,
                    i as int,
                ));
            }
            let p = &self.players[i];
            if !same_text(p.id.as_str(), player_id) {
                kept.push(p.copied());
            }
            i = i + 1;
        }
        proof {
            assert(old_players.subrange(0, old_players.len() as int) =~= old_players);
            lemma_without_player_removes(old_players, player_id@);
            if old(self).host_id@ != player_id@ && has_player(old_players, old(self).host_id@) {
                lemma_without_player_keeps(old_players, player_id@, old(self).host_id@);
            }
        }
        self.players = kept;
        let empty = self.players.len() == 0;
        if !empty && same_text(self.host_id.as_str(), player_id) {
            self.host_id = self.players[0].id.clone();
            proof {
                assert(self.players@[0].id@ == self.host_id@);
            }
        }
        empty
    }
}

} // verus!
