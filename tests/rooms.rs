use game_engine::game_api::{
    broadcast_handler, enable_action_handler, next_phase_handler, BroadcastRequest,
    EnableActionRequest, NextPhaseRequest, RoomRequest,
};
use game_engine::realtime::{process_action, ActionOutcome, ClientRealtimeAction};
use game_engine::registry::RoomRegistry;
use game_engine::room::{same_text, GameInfo, GameRoom, RoomState};
use game_engine::room_id::parse_room_id;
use game_engine::session::{
    on_hub_event, ClientMsg, Departure, HubAction, HubEvent, Notice, Outcome, Reply, RequestError,
    Session, SessionState,
};

fn catalog() -> Vec<GameInfo> {
    vec![GameInfo {
        id: "quiz".to_string(),
        title: "Quiz".to_string(),
        description: "A buzzer quiz".to_string(),
        min_players: 2,
        max_players: 8,
        recommended_players: 4,
        api_endpoint: "http://localhost:5001".to_string(),
        settings_schema: serde_json::Value::Null,
    }]
}

fn is_update(o: &Outcome) -> bool {
    matches!(o.reply, Reply::RoomUpdate)
}

fn player_ids(room: &GameRoom) -> Vec<String> {
    room.players.iter().map(|p| p.id.clone()).collect()
}

fn create(reg: &mut RoomRegistry, s: &mut Session, name: &str) -> u32 {
    let out = s.handle_client_message(
        reg,
        &catalog(),
        ClientMsg::CreateRoom { display_name: name.to_string() },
    );
    assert!(is_update(&out));
    assert!(out.subscribe);
    s.room().unwrap()
}

fn join(reg: &mut RoomRegistry, s: &mut Session, room_id: &str, name: &str) -> Outcome {
    s.handle_client_message(
        reg,
        &catalog(),
        ClientMsg::JoinRoom { room_id: room_id.to_string(), display_name: name.to_string() },
    )
}

#[test]
fn room_id_text_is_parsed() {
    assert_eq!(parse_room_id("12345"), Some(12345));
    assert_eq!(parse_room_id("99999"), Some(99999));
    assert_eq!(parse_room_id("10000"), Some(10000));
    assert_eq!(parse_room_id("01234"), None);
    assert_eq!(parse_room_id("1234"), None);
    assert_eq!(parse_room_id("123456"), None);
    assert_eq!(parse_room_id("12a45"), None);
    assert_eq!(parse_room_id(""), None);
}

#[test]
fn texts_compare_by_characters() {
    assert!(same_text("abc", "abc"));
    assert!(!same_text("abc", "abd"));
    assert!(!same_text("abc", "ab"));
    assert!(same_text("", ""));
}

#[test]
fn new_room_has_host_as_sole_player() {
    let room = GameRoom::new(12345, "a".to_string(), "Alice".to_string());
    assert_eq!(room.id, "12345");
    assert_eq!(room.host_id, "a");
    assert_eq!(player_ids(&room), vec!["a".to_string()]);
    assert_eq!(room.players[0].display_name, "Alice");
    assert_eq!(room.state, RoomState::Waiting);
    assert_eq!(room.realtime_state.game_phase, "lobby");
    assert!(room.realtime_state.first_press_winner.is_none());
    assert!(room.selected_game.is_none());
    assert_eq!(room.settings.max_players, 8);
    assert_eq!(room.settings.room_liberation_time, 15);
    assert!(room.tx.is_some());
}

#[test]
fn create_room_gives_five_digit_fresh_id() {
    let mut reg = RoomRegistry::new();
    let mut seen = Vec::new();
    for i in 0..50 {
        let mut s = Session::with_identity(format!("p{}", i));
        let k = create(&mut reg, &mut s, "P");
        assert!((10000..=99999).contains(&k));
        assert!(!seen.contains(&k));
        seen.push(k);
        let room = reg.get(k).unwrap();
        assert_eq!(room.id.len(), 5);
        assert!(room.id.chars().all(|c| c.is_ascii_digit()));
        assert_eq!(room.id, k.to_string());
        assert_eq!(room.host_id, format!("p{}", i));
        assert_eq!(s.state, SessionState::Joined(k));
    }
    assert_eq!(reg.len(), 50);
}

#[test]
fn free_number_avoids_taken_numbers() {
    let mut reg = RoomRegistry::new();
    let room = GameRoom::new(12345, "a".to_string(), "A".to_string());
    reg.put(12345, room);
    for _ in 0..200 {
        let k = reg.free_number().unwrap();
        assert_ne!(k, 12345);
        assert!((10000..=99999).contains(&k));
    }
}

#[test]
fn join_missing_room_is_refused_and_changes_nothing() {
    let mut reg = RoomRegistry::new();
    let mut a = Session::with_identity("a".to_string());
    let k = create(&mut reg, &mut a, "A");
    let missing = if k == 10000 { "10001" } else { "10000" };
    let mut b = Session::with_identity("b".to_string());
    let out = join(&mut reg, &mut b, missing, "B");
    assert_eq!(out.reply_error(), Some(RequestError::RoomNotFound(missing.to_string())));
    assert!(!out.publish);
    assert_eq!(b.state, SessionState::Connecting);
    assert_eq!(reg.len(), 1);
    assert_eq!(player_ids(reg.get(k).unwrap()), vec!["a".to_string()]);
    let out = join(&mut reg, &mut b, "not-a-room", "B");
    assert_eq!(out.reply_error(), Some(RequestError::RoomNotFound("not-a-room".to_string())));
}

trait ReplyError {
    fn reply_error(&self) -> Option<RequestError>;
}

impl ReplyError for Outcome {
    fn reply_error(&self) -> Option<RequestError> {
        match &self.reply {
            Reply::Error(e) => Some(match e {
                RequestError::NotInRoom => RequestError::NotInRoom,
                RequestError::RoomNotFound(s) => RequestError::RoomNotFound(s.clone()),
                RequestError::RoomGone => RequestError::RoomGone,
                RequestError::OnlyHostCanSelect => RequestError::OnlyHostCanSelect,
                RequestError::OnlyHostCanStart => RequestError::OnlyHostCanStart,
                RequestError::GameNotFound => RequestError::GameNotFound,
                RequestError::NoGameSelected => RequestError::NoGameSelected,
                RequestError::NoFreeRoomId => RequestError::NoFreeRoomId,
            }),
            _ => None,
        }
    }
}

#[test]
fn create_join_select_start_scenario() {
    let mut reg = RoomRegistry::new();
    let games = catalog();
    let mut a = Session::with_identity("A".to_string());
    let k = create(&mut reg, &mut a, "Alice");
    let id = reg.get(k).unwrap().id.clone();
    assert_eq!(player_ids(reg.get(k).unwrap()), vec!["A".to_string()]);
    assert_eq!(reg.get(k).unwrap().host_id, "A");

    let mut b = Session::with_identity("B".to_string());
    let out = join(&mut reg, &mut b, &id, "Bob");
    assert!(is_update(&out));
    assert!(out.publish);
    assert!(out.subscribe);
    assert_eq!(b.state, SessionState::Joined(k));
    assert_eq!(player_ids(reg.get(k).unwrap()), vec!["A".to_string(), "B".to_string()]);
    assert_eq!(reg.get(k).unwrap().host_id, "A");

    let out = a.handle_client_message(&mut reg, &games, ClientMsg::StartGame);
    assert_eq!(out.reply_error(), Some(RequestError::NoGameSelected));
    assert!(!out.publish);
    assert!(out.notice.is_none());
    assert_eq!(reg.get(k).unwrap().state, RoomState::Waiting);

    let out = a.handle_client_message(
        &mut reg,
        &games,
        ClientMsg::SelectGame { game_id: "quiz".to_string() },
    );
    assert!(is_update(&out));
    assert!(out.publish);
    assert_eq!(reg.get(k).unwrap().selected_game.as_ref().unwrap().id, "quiz");

    let out = a.handle_client_message(&mut reg, &games, ClientMsg::StartGame);
    assert!(is_update(&out));
    assert!(out.publish);
    assert_eq!(reg.get(k).unwrap().state, RoomState::InGame);
    match out.notice {
        Some(Notice::GameInit { endpoint, room }) => {
            assert_eq!(endpoint, "http://localhost:5001");
            assert_eq!(room, k);
        }
        _ => panic!("expected a game init notice"),
    }
}

#[test]
fn host_only_requests_are_refused_to_others() {
    let mut reg = RoomRegistry::new();
    let games = catalog();
    let mut a = Session::with_identity("A".to_string());
    let k = create(&mut reg, &mut a, "Alice");
    let id = reg.get(k).unwrap().id.clone();
    let mut b = Session::with_identity("B".to_string());
    join(&mut reg, &mut b, &id, "Bob");
    let out = b.handle_client_message(
        &mut reg,
        &games,
        ClientMsg::SelectGame { game_id: "quiz".to_string() },
    );
    assert_eq!(out.reply_error(), Some(RequestError::OnlyHostCanSelect));
    let out = b.handle_client_message(&mut reg, &games, ClientMsg::StartGame);
    assert_eq!(out.reply_error(), Some(RequestError::OnlyHostCanStart));
    let out = a.handle_client_message(
        &mut reg,
        &games,
        ClientMsg::SelectGame { game_id: "chess".to_string() },
    );
    assert_eq!(out.reply_error(), Some(RequestError::GameNotFound));
    assert!(reg.get(k).unwrap().selected_game.is_none());
}

#[test]
fn requests_without_a_room_are_refused() {
    let mut reg = RoomRegistry::new();
    let games = catalog();
    let mut c = Session::with_identity("C".to_string());
    let out = c.handle_client_message(&mut reg, &games, ClientMsg::StartGame);
    assert_eq!(out.reply_error(), Some(RequestError::NotInRoom));
    let out = c.handle_client_message(
        &mut reg,
        &games,
        ClientMsg::SelectGame { game_id: "quiz".to_string() },
    );
    assert_eq!(out.reply_error(), Some(RequestError::NotInRoom));
    let out = c.handle_client_message(
        &mut reg,
        &games,
        ClientMsg::RealtimeAction { action: ClientRealtimeAction::FirstPress },
    );
    assert_eq!(out.reply_error(), Some(RequestError::NotInRoom));
}

#[test]
fn first_press_is_won_once() {
    let mut reg = RoomRegistry::new();
    let games = catalog();
    let mut a = Session::with_identity("A".to_string());
    let k = create(&mut reg, &mut a, "Alice");
    let id = reg.get(k).unwrap().id.clone();
    let mut others: Vec<Session> = (0..5).map(|i| Session::with_identity(format!("player{}", i))).collect();
    for s in others.iter_mut() {
        join(&mut reg, s, &id, "P");
    }
    a.handle_client_message(&mut reg, &games, ClientMsg::SelectGame { game_id: "quiz".to_string() });
    let out = others[2].handle_client_message(
        &mut reg,
        &games,
        ClientMsg::RealtimeAction { action: ClientRealtimeAction::FirstPress },
    );
    assert!(is_update(&out));
    assert!(out.publish);
    match out.notice {
        Some(Notice::FirstPressWinner { endpoint, room, winner }) => {
            assert_eq!(endpoint, "http://localhost:5001");
            assert_eq!(room, k);
            assert_eq!(winner, "player2");
        }
        _ => panic!("expected a winner notice"),
    }
    let mut accepted = 1;
    for i in [0usize, 1, 3, 4, 2] {
        let out = others[i].handle_client_message(
            &mut reg,
            &games,
            ClientMsg::RealtimeAction { action: ClientRealtimeAction::FirstPress },
        );
        if is_update(&out) {
            accepted += 1;
        }
        assert!(matches!(out.reply, Reply::Silent));
        assert!(!out.publish);
        assert!(out.notice.is_none());
    }
    assert_eq!(accepted, 1);
    assert_eq!(reg.get(k).unwrap().realtime_state.first_press_winner.as_deref(), Some("player2"));
}

#[test]
fn first_press_without_game_has_no_notice() {
    let mut room = GameRoom::new(54321, "a".to_string(), "A".to_string());
    assert_eq!(process_action(&mut room, ClientRealtimeAction::FirstPress, "a"), ActionOutcome::FirstPressWon);
    assert_eq!(process_action(&mut room, ClientRealtimeAction::FirstPress, "b"), ActionOutcome::Ignored);
    assert_eq!(room.realtime_state.first_press_winner.as_deref(), Some("a"));
}

#[test]
fn turn_action_only_from_current_turn() {
    let mut reg = RoomRegistry::new();
    let games = catalog();
    let mut a = Session::with_identity("A".to_string());
    let k = create(&mut reg, &mut a, "Alice");
    let id = reg.get(k).unwrap().id.clone();
    let mut b = Session::with_identity("B".to_string());
    join(&mut reg, &mut b, &id, "Bob");
    let mut room = reg.take(k).unwrap();
    room.realtime_state.current_turn = Some("A".to_string());
    reg.put(k, room);
    let turn = || ClientRealtimeAction::TurnAction {
        action_type: "answer".to_string(),
        data: serde_json::Value::Bool(true),
    };
    let out = b.handle_client_message(&mut reg, &games, ClientMsg::RealtimeAction { action: turn() });
    assert!(matches!(out.reply, Reply::Silent));
    assert!(!out.publish);
    assert_eq!(reg.get(k).unwrap().realtime_state.current_turn.as_deref(), Some("A"));
    assert!(reg.get(k).unwrap().realtime_state.first_press_winner.is_none());
    let out = a.handle_client_message(&mut reg, &games, ClientMsg::RealtimeAction { action: turn() });
    assert!(is_update(&out));
    assert!(out.publish);
    assert!(out.notice.is_none());
    let mut lone = GameRoom::new(11111, "x".to_string(), "X".to_string());
    assert_eq!(process_action(&mut lone, turn(), "x"), ActionOutcome::Ignored);
}

#[test]
fn host_leaving_passes_host_to_earliest_joined() {
    let mut reg = RoomRegistry::new();
    let mut a = Session::with_identity("A".to_string());
    let k = create(&mut reg, &mut a, "Alice");
    let id = reg.get(k).unwrap().id.clone();
    let mut b = Session::with_identity("B".to_string());
    let mut c = Session::with_identity("C".to_string());
    join(&mut reg, &mut b, &id, "Bob");
    join(&mut reg, &mut c, &id, "Carol");
    match a.disconnect(&mut reg) {
        Departure::Stayed(n) => assert_eq!(n, k),
        _ => panic!("room should stay"),
    }
    assert_eq!(a.state, SessionState::Closed);
    let room = reg.get(k).unwrap();
    assert_eq!(room.host_id, "B");
    assert_eq!(player_ids(room), vec!["B".to_string(), "C".to_string()]);
    match c.disconnect(&mut reg) {
        Departure::Stayed(n) => assert_eq!(n, k),
        _ => panic!("room should stay"),
    }
    assert_eq!(reg.get(k).unwrap().host_id, "B");
    assert_eq!(player_ids(reg.get(k).unwrap()), vec!["B".to_string()]);
}

#[test]
fn last_departure_removes_room() {
    let mut reg = RoomRegistry::new();
    let mut a = Session::with_identity("A".to_string());
    let k = create(&mut reg, &mut a, "Alice");
    let id = reg.get(k).unwrap().id.clone();
    match a.disconnect(&mut reg) {
        Departure::Emptied(room) => {
            assert!(room.players.is_empty());
            assert_eq!(room.id, id);
        }
        _ => panic!("room should be emptied"),
    }
    assert_eq!(reg.len(), 0);
    let mut b = Session::with_identity("B".to_string());
    let out = join(&mut reg, &mut b, &id, "Bob");
    assert_eq!(out.reply_error(), Some(RequestError::RoomNotFound(id.clone())));
    let mut lone = Session::with_identity("Z".to_string());
    assert!(matches!(lone.disconnect(&mut reg), Departure::NoRoom));
}

#[test]
fn control_plane_requests() {
    let mut reg = RoomRegistry::new();
    let mut a = Session::with_identity("A".to_string());
    let k = create(&mut reg, &mut a, "Alice");
    let id = reg.get(k).unwrap().id.clone();
    let b = BroadcastRequest {
        room: RoomRequest { room_id: id.clone() },
        event_type: "tick".to_string(),
        data: serde_json::Value::Null,
    };
    assert_eq!(broadcast_handler(&reg, &b), Some(k));
    let e = EnableActionRequest {
        room: RoomRequest { room_id: "00000".to_string() },
        action_type: "first_press".to_string(),
        enabled: true,
    };
    assert_eq!(enable_action_handler(&reg, &e), None);
    let n = NextPhaseRequest {
        room: RoomRequest { room_id: id.clone() },
        phase: "question".to_string(),
        ui_data: serde_json::Value::Null,
    };
    assert_eq!(next_phase_handler(&mut reg, &n), Some(k));
    assert_eq!(reg.get(k).unwrap().realtime_state.game_phase, "question");
}

#[test]
fn fresh_sessions_have_distinct_identities() {
    let a = Session::new();
    let b = Session::new();
    assert_ne!(a.player_id, b.player_id);
    assert_eq!(a.player_id.len(), 36);
    assert_eq!(a.state, SessionState::Connecting);
}

#[test]
fn lagging_subscriber_gets_a_snapshot() {
    match on_hub_event(HubEvent::Message("m".to_string())) {
        HubAction::Forward(m) => assert_eq!(m, "m"),
        _ => panic!("a message is forwarded"),
    }
    assert!(matches!(on_hub_event(HubEvent::Lagged), HubAction::Resync));
    assert!(matches!(on_hub_event(HubEvent::Closed), HubAction::Unsubscribe));
}

#[test]
fn refusals_have_their_messages() {
    assert_eq!(RequestError::NotInRoom.message(), "Not in a room");
    assert_eq!(RequestError::RoomNotFound("12345".to_string()).message(), "Room '12345' not found");
    assert_eq!(RequestError::RoomGone.message(), "Room not found");
    assert_eq!(RequestError::OnlyHostCanSelect.message(), "Only the host can select a game");
    assert_eq!(RequestError::OnlyHostCanStart.message(), "Only the host can start the game");
    assert_eq!(RequestError::GameNotFound.message(), "Game not found");
    assert_eq!(RequestError::NoGameSelected.message(), "No game selected");
    assert_eq!(RequestError::NoFreeRoomId.message(), "No free room id");
}

#[test]
fn repeated_phase_change_changes_nothing_more() {
    let mut reg = RoomRegistry::new();
    let mut a = Session::with_identity("A".to_string());
    let k = create(&mut reg, &mut a, "Alice");
    let id = reg.get(k).unwrap().id.clone();
    let n = NextPhaseRequest {
        room: RoomRequest { room_id: id },
        phase: "answer".to_string(),
        ui_data: serde_json::Value::Null,
    };
    assert_eq!(next_phase_handler(&mut reg, &n), Some(k));
    assert_eq!(next_phase_handler(&mut reg, &n), Some(k));
    let room = reg.get(k).unwrap();
    assert_eq!(room.realtime_state.game_phase, "answer");
    assert_eq!(room.settings.max_players, 8);
    assert_eq!(room.host_id, "A");
    assert_eq!(room.state, RoomState::Waiting);
}

#[test]
fn shard_creates_only_its_own_numbers() {
    let mut reg = RoomRegistry::new_shard(3, 16);
    assert_eq!(reg.shard(), 3);
    assert_eq!(reg.shards(), 16);
    for i in 0..40 {
        let mut s = Session::with_identity(format!("s{}", i));
        let k = create(&mut reg, &mut s, "S");
        assert_eq!(k % 16, 3);
        assert!((10000..=99999).contains(&k));
    }
    assert_eq!(reg.len(), 40);
}

#[test]
fn room_numbers_are_written_as_five_digits() {
    assert_eq!(game_engine::room_id::room_id_string(10000), "10000");
    assert_eq!(game_engine::room_id::room_id_string(12345), "12345");
    assert_eq!(game_engine::room_id::room_id_string(99999), "99999");
    assert_eq!(game_engine::room_id::room_id_string(70809), "70809");
}
