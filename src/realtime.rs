//! The realtime action resolver: first-press races and turn actions.
use vstd::prelude::*;
use crate::room::{with_winner, GameRoom, RealtimeState, same_text};

verus! {

/// A countdown stored with the realtime state.
#[derive(Debug)]
pub struct Timer {
    /// Length in seconds.
    pub duration_secs: u64,
    /// When it was started, in milliseconds since the Unix epoch; `None` while
    /// it is not running.
    pub started_at: Option<i64>,
    pub timer_type: String,
    /// The action to fire when it runs out.
    pub auto_action: Option<String>,
}

/// A realtime action sent by a client.
#[derive(Debug)]
pub enum ClientRealtimeAction {
    FirstPress,
    TurnAction { action_type: String, data: serde_json::Value },
}

/// A realtime action queued inside the server.
#[derive(Debug)]
pub enum QueuedRealtimeAction {
    FirstPress { player_id: String, timestamp: i64 },
    TurnAction { player_id: String, action_type: String, data: serde_json::Value },
}

/// What the resolver decided about one action.
#[derive(Clone, Copy, Debug, PartialEq, Eq, Structural)]
pub enum ActionOutcome {
    /// The acting player won this round's first-press race.
    FirstPressWon,
    /// The turn action came from the player whose turn it is.
    TurnTaken,
    /// The action lost a race or came from the wrong player: nothing changed.
    Ignored,
}

/// The identity recorded as first-press winner, if any.
pub open spec fn winner_of(rt: RealtimeState) -> Option<Seq<char>> {
    match rt.first_press_winner {
        Some(w) => Some(w@),
        None => None,
    }
}

/// The identity whose turn it is, if any.
pub open spec fn turn_of(rt: RealtimeState) -> Option<Seq<char>> {
    match rt.current_turn {
        Some(t) => Some(t@),
        None => None,
    }
}

/// One first press by `player` against the recorded winner: the winner
/// afterwards, and whether the press was accepted.
pub open spec fn first_press_step(winner: Option<Seq<char>>, player: Seq<char>) -> (Option<
    Seq<char>,
>, bool) {
    match winner {
        Some(w) => (Some(w), false),
        None => (Some(player), true),
    }
}

/// The winner after a series of first presses, in the order in which the
/// room's exclusive access admitted them.
pub open spec fn winner_after(winner: Option<Seq<char>>, presses: Seq<Seq<char>>) -> Option<
    Seq<char>,
>
    decreases presses.len(),
{
    if presses.len() == 0 {
        winner
    } else {
        winner_after(first_press_step(winner, presses[0]).0, presses.drop_first())
    }
}

/// How many presses of a series are accepted.
pub open spec fn accepted_after(winner: Option<Seq<char>>, presses: Seq<Seq<char>>) -> nat
    decreases presses.len(),
{
    if presses.len() == 0 {
        0
    } else {
        let (w, ok) = first_press_step(winner, presses[0]);
        (if ok { 1nat } else { 0nat }) + accepted_after(w, presses.drop_first())
    }
}

/// Once a winner is recorded, further presses neither change it nor are accepted.
pub proof fn lemma_decided_race_is_stable(w: Seq<char>, presses: Seq<Seq<char>>)
    ensures
        winner_after(Some(w), presses) == Some(w),
        accepted_after(Some(w), presses) == 0,
    decreases presses.len(),
{
    if presses.len() > 0 {
        lemma_decided_race_is_stable(w, presses.drop_first());
    }
}

/// However many first presses reach a room with no winner, in whatever
/// order they are serialized, exactly one is accepted, and the winner is the
/// player of the press admitted first, one of the callers.
pub proof fn lemma_first_press_exactly_once(presses: Seq<Seq<char>>)
    requires
        presses.len() > 0,
    ensures
        accepted_after(None, presses) == 1,
        winner_after(None, presses) == Some(presses[0]),
        presses.contains(winner_after(None, presses).unwrap()),
{
    lemma_decided_race_is_stable(presses[0], presses.drop_first());
}

/// What one first press by `p` does: room `a` becomes room `b` with outcome
/// `r`. Only the winner may change, and only as `first_press_step` says.
pub open spec fn first_press_relation(a: GameRoom, b: GameRoom, p: Seq<char>, r: ActionOutcome) -> bool {
    let (w, ok) = first_press_step(winner_of(a.realtime_state), p);
    &&& winner_of(b.realtime_state) == w
    &&& (r == ActionOutcome::FirstPressWon) == ok
    &&& !ok ==> r == ActionOutcome::Ignored && b == a
    &&& b == with_winner(a, b.realtime_state.first_press_winner)
}

proof fn lemma_winner_kept(
    rooms: Seq<GameRoom>,
    presses: Seq<Seq<char>>,
    outcomes: Seq<ActionOutcome>,
    i: int,
)
    requires
        rooms.len() == presses.len() + 1,
        outcomes.len() == presses.len(),
        presses.len() > 0,
        winner_of(rooms[0].realtime_state) is None,
        forall|j: int|
            0 <= j < presses.len() ==> #[trigger] first_press_relation(
                rooms[j],
                rooms[j + 1],
                presses[j],
                outcomes[j],
            ),
        1 <= i <= presses.len(),
    ensures
        winner_of(rooms[i].realtime_state) == Some(presses[0]),
    decreases i,
{
    let j = i - 1;
    assert(first_press_relation(rooms[j], rooms[j + 1], presses[j], outcomes[j]));
    if i > 1 {
        lemma_winner_kept(rooms, presses, outcomes, i - 1);
    }
}

/// Presses admitted one after another by a room's exclusive access, each
/// resolved as `process_action` ensures, starting with no winner: the first
/// press is the only one accepted, it records its player as winner, and every
/// later press leaves the room as it was.
pub proof fn lemma_serialized_presses(
    rooms: Seq<GameRoom>,
    presses: Seq<Seq<char>>,
    outcomes: Seq<ActionOutcome>,
)
    requires
        rooms.len() == presses.len() + 1,
        outcomes.len() == presses.len(),
        presses.len() > 0,
        winner_of(rooms[0].realtime_state) is None,
        forall|j: int|
            0 <= j < presses.len() ==> #[trigger] first_press_relation(
                rooms[j],
                rooms[j + 1],
                presses[j],
                outcomes[j],
            ),
    ensures
        outcomes[0] == ActionOutcome::FirstPressWon,
        forall|j: int|
            1 <= j < presses.len() ==> #[trigger] outcomes[j] == ActionOutcome::Ignored && rooms[j
                + 1] == rooms[j],
        winner_of(rooms[presses.len() as int].realtime_state) == Some(presses[0]),
{
    let z: int = 0;
    assert(first_press_relation(rooms[z], rooms[z + 1], presses[z], outcomes[z]));
    assert forall|j: int| 1 <= j < presses.len() implies #[trigger] outcomes[j]
        == ActionOutcome::Ignored && rooms[j + 1] == rooms[j] by {
        lemma_winner_kept(rooms, presses, outcomes, j);
        assert(first_press_relation(rooms[j], rooms[j + 1], presses[j], outcomes[j]));
    }
    lemma_winner_kept(rooms, presses, outcomes, presses.len() as int);
}

/// Resolves one realtime action of `player_id` against the room's realtime
/// state. A first press is accepted only while no winner is recorded, and then
/// records the player as winner; a turn action is accepted only from the
/// player whose turn it is, and changes nothing. Whatever is not accepted
/// leaves the room as it was.
pub fn process_action(room: &mut GameRoom, action: ClientRealtimeAction, player_id: &str) -> (r:
    ActionOutcome)
    ensures
        r != ActionOutcome::FirstPressWon ==> *final(room) == *old(room),
        *final(room) == with_winner(*old(room), final(room).realtime_state.first_press_winner),
        match action {
            ClientRealtimeAction::FirstPress => first_press_relation(
                *old(room),
                *final(room),
                player_id@,
                r,
            ),
            ClientRealtimeAction::TurnAction { .. } => {
                &&& final(room).realtime_state == old(room).realtime_state
                &&& r == (if turn_of(old(room).realtime_state) == Some(player_id@) {
                    ActionOutcome::TurnTaken
                } else {
                    ActionOutcome::Ignored
                })
            },
        },
{
    match action {
        ClientRealtimeAction::FirstPress => {
            if room.realtime_state.first_press_winner.is_some() {
                return ActionOutcome::Ignored;
            }
            room.realtime_state.first_press_winner = Some(player_id.to_string());
            ActionOutcome::FirstPressWon
        },
        ClientRealtimeAction::TurnAction { .. } => {
            match &room.realtime_state.current_turn {
                Some(t) => {
                    if same_text(t.as_str(), player_id) {
                        ActionOutcome::TurnTaken
                    } else {
                        ActionOutcome::Ignored
                    }
                },
                None => ActionOutcome::Ignored,
            }
        },
    }
}

} // verus!
