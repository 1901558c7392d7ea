use multiplayer_game::entity::{BulletState, BULLET_LIFETIME, BULLET_VEL, PLAYER_RADIUS_SIZE};
use multiplayer_game::fixed::UNIT;
use multiplayer_game::game_state::{GameEvent, GameState};
use multiplayer_game::geometry::Vec2;
use multiplayer_game::handler::{create_lobby, CreateLobbyRequest};
use multiplayer_game::session::{Effect, Phase, Session, SetupMessage};
use multiplayer_game::ws::{relay_inbound, Commands};

fn running_lobby() -> Session {
    let request = CreateLobbyRequest { name: "arena".to_string(), player_name: "A".to_string() };
    let response = create_lobby(&request, 1_000);
    let mut session = Session::new(response.game_state.unwrap());
    assert!(session.on_setup(SetupMessage::AddPlayer("A".to_string())).is_empty());
    assert_eq!(session.phase(), Phase::Running);
    session
}

#[test]
fn scenario_shoot_from_the_origin() {
    let mut state = GameState::new(0);
    assert_eq!(state.add_player("A", Vec2 { x: 0, y: 0 }), Ok(()));
    let event = relay_inbound("\"Shoot\"", Some(Commands::Shoot), "A").unwrap();
    assert_eq!(event, GameEvent::Shooting("A".to_string()));
    assert_eq!(state.react_to_event(event), Ok(()));
    assert_eq!(state.bullets.len(), 1);
    assert_eq!(
        state.bullets[0],
        BulletState {
            position: Vec2 { x: 11 * UNIT, y: 11 * UNIT },
            velocity: Vec2 { x: BULLET_VEL, y: BULLET_VEL },
            lifetime: BULLET_LIFETIME,
            time: 0,
            index: 0,
        }
    );
}

#[test]
fn scenario_bullet_overlaps_a_player_at_the_tick() {
    let mut session = running_lobby();
    let effects = session.on_setup(SetupMessage::AddPlayer("B".to_string()));
    assert_eq!(effects.len(), 2);
    let mut state = session.game().clone();
    let victim = state.players[1].position;
    state.add_bullet(Vec2 { x: victim.x, y: victim.y + PLAYER_RADIUS_SIZE - 1 }, Vec2 { x: 0, y: 0 });
    let mut session = Session::new(state);
    session.on_setup(SetupMessage::AddPlayer("A".to_string()));
    let effects = session.on_tick(1_035);
    assert_eq!(effects, vec![Effect::Broadcast(GameEvent::Death("B".to_string()))]);
    let after = session.on_setup(SetupMessage::GetChannels);
    match &after[1] {
        Effect::Broadcast(GameEvent::GameStateSync(snapshot)) => {
            assert_eq!(snapshot.players.len(), 1);
            assert_eq!(snapshot.players[0].name, "A");
            assert_eq!(snapshot.find_player("B"), None);
            assert!(snapshot.bullets.is_empty());
        }
        other => panic!("no snapshot: {:?}", other),
    }
    assert!(session.on_tick(1_070).is_empty());
}

#[test]
fn scenario_ping_changes_nothing() {
    let mut session = running_lobby();
    let before = session.game().clone();
    for text in ["ping", "ping\n"] {
        let submitted = relay_inbound(text, None, "A");
        assert_eq!(submitted, None);
        let effects = session.round(1_000, submitted, None);
        assert!(effects.is_empty());
        assert_eq!(session.game(), &before);
        assert_eq!(session.phase(), Phase::Running);
    }
}

#[test]
fn scenario_new_player_gets_the_whole_state_first() {
    let mut session = running_lobby();
    assert_eq!(
        session.on_event(GameEvent::Shooting("A".to_string())),
        vec![Effect::Broadcast(GameEvent::Shooting("A".to_string()))]
    );
    let joined = session.on_setup(SetupMessage::AddPlayer("B".to_string()));
    let state = session.game().clone();
    assert_eq!(state.players.len(), 2);
    assert_eq!(state.bullets.len(), 1);
    assert_eq!(
        joined,
        vec![
            Effect::Broadcast(GameEvent::AddPlayer { x: 0, y: 0, name: "B".to_string() }),
            Effect::Broadcast(GameEvent::GameStateSync(state.clone())),
        ]
    );
    let served = session.on_setup(SetupMessage::GetChannels);
    assert_eq!(
        served,
        vec![Effect::HandChannels, Effect::Broadcast(GameEvent::GameStateSync(state.clone()))]
    );
    assert_eq!(session.game(), &state);
}
