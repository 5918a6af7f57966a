use mafia::action::app::AppAction;
use mafia::action::engine::EngineAction;
use mafia::action::Action as Request;
use mafia::app::AppStatus;
use mafia::reducer::app::{reduce as reduce_app, AppState};
use mafia::actions::{Action, ActionError};
use mafia::domain::{EngineState, LobbyStatus, Position};
use mafia::engine::game::Event;
use mafia::engine::Engine;
use mafia::reducer::engine::{reduce, ReduceError};

#[test]
fn lobby_requests_add_and_remove_players() {
    let mut e = Engine::new();
    let joined = reduce(&mut e, EngineAction::Join { name: "Ann".to_string() }).unwrap();
    assert!(matches!(&joined[0], Event::PlayerJoin { name } if name == "Ann"));
    // Ann has no seat yet.
    assert!(matches!(reduce(&mut e, EngineAction::Leave { name: "Ann".to_string() }), Err(ReduceError::NoPosition(_))));
    e.seat_joined("Ann", Some(Position::new(2))).unwrap();
    let left = reduce(&mut e, EngineAction::Leave { name: "Ann".to_string() }).unwrap();
    assert!(matches!(&left[0], Event::PlayerLeft { name } if name == "Ann"));
    assert!(e.game.player_by_name("Ann").is_none());
    assert!(matches!(reduce(&mut e, EngineAction::Leave { name: "Ann".to_string() }), Err(ReduceError::PlayerNotFound)));
    assert_eq!(e.state, EngineState::Lobby(LobbyStatus::Waiting));
}

#[test]
fn host_actions_check_the_seat_and_the_phase() {
    let mut e = Engine::new();
    Action::Join { name: "Ann".to_string() }.run(&mut e).unwrap();
    assert!(e.game.player_by_name("Ann").is_some());
    assert!(matches!(Action::Warn { position: 0 }.run(&mut e), Err(ActionError::Chair(_))));
    assert!(matches!(Action::Next.run(&mut e), Err(ActionError::Engine(_))));
    // Nominations are ignored outside the day.
    assert!(Action::Nominate { position: 3 }.run(&mut e).is_ok());
    assert!(Action::Quit.run(&mut e).is_ok());
}

#[test]
fn a_quit_request_stops_the_console_and_an_engine_request_tries_to_start() {
    let s = AppState::new();
    assert_eq!(s.status, AppStatus::Running);
    let s = reduce_app(s, Request::Engine(EngineAction::Join { name: "Ann".to_string() }));
    assert_eq!(s.status, AppStatus::Running);
    assert_eq!(s.engine.state, EngineState::Lobby(LobbyStatus::Waiting));
    let s = reduce_app(s, Request::App(AppAction::QuitRequested));
    assert_eq!(s.status, AppStatus::Quit);
}
