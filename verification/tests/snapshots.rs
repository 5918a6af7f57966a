use mafia::app::App;
use mafia::domain::{EngineState, LobbyStatus, Position, Role, Status};
use mafia::engine::game::round::Round;
use mafia::engine::game::voting::Voting;
use mafia::engine::game::Game;
use mafia::engine::state::round::nomination::Nomination;
use mafia::engine::state::round::vote::Vote;
use mafia::engine::state::State;
use mafia::engine::Engine;
use mafia::snapshot::Snapshot;

fn pos(n: u8) -> Position {
    Position::new(n)
}

#[test]
fn a_fresh_engine_snapshot_shows_the_lobby() {
    let e = Engine::new();
    let s = e.snapshot();
    assert!(s.game.players.is_empty());
    assert!(s.game.voting.is_empty());
    assert!(s.game.kill.is_empty());
    assert_eq!(s.phase, None);
    assert_eq!(s.day, 0);
    assert_eq!(s.state, EngineState::Lobby(LobbyStatus::Waiting));
    assert_eq!(s.actor, None);
}

#[test]
fn a_game_snapshot_copies_players_votes_and_shots() {
    let mut g = Game::new();
    g.add_player("Ann").unwrap();
    g.add_player("Bob").unwrap();
    g.record_mafia_kill(mafia::domain::DayIndex::new(1), pos(2));
    let s = g.snapshot();
    assert_eq!(s.players.len(), 2);
    assert_eq!(s.players[0].name, "Ann");
    assert_eq!(s.players[1].name, "Bob");
    assert_eq!(s.players[0].status, Status::Alive);
    assert_eq!(s.players[0].warnings, 0);
    assert_eq!(s.players[0].role, None::<Role>);
    assert_eq!(s.kill.get(&1), Some(&pos(2)));
    assert_eq!(s.kill.len(), 1);
}

#[test]
fn a_voting_snapshot_keeps_nominations_in_order_and_votes() {
    let voters = [pos(1), pos(2), pos(3)];
    let mut v = Voting::new(&voters);
    v.nominate(pos(1), pos(3)).unwrap();
    v.nominate(pos(2), pos(1)).unwrap();
    v.vote(pos(2), pos(3)).unwrap();
    let s = v.snapshot();
    assert_eq!(s.nominees, vec![pos(3), pos(1)]);
    assert_eq!(s.nominations.get(&1), Some(&pos(3)));
    assert_eq!(s.nominations.get(&2), Some(&pos(1)));
    assert_eq!(s.votes.get(&3), Some(&vec![pos(2)]));
    assert_eq!(s.votes.get(&1), None);
}

#[test]
fn a_round_records_shots_checks_and_departures() {
    let mut r = Round::new(&[pos(1), pos(2)]);
    assert!(r.voting().is_some());
    r.record_mafia_kill(pos(4));
    r.record_sheriff_check(pos(5));
    r.record_don_check(pos(6));
    r.record_elimination(pos(7));
    r.record_removal(pos(8));
    assert_eq!(r.mafia_kill(), Some(pos(4)));
    assert_eq!(r.sheriff_check(), Some(pos(5)));
    assert_eq!(r.don_check(), Some(pos(6)));
    assert_eq!(r.eliminated_players(), &[pos(7)]);
    assert_eq!(r.removed_players(), &[pos(8)]);
    r.voting_mut().unwrap().nominate(pos(1), pos(2)).unwrap();
    assert_eq!(r.voting().unwrap().get_nominees(), &[pos(2)]);
    let s = r.snapshot();
    assert_eq!(s.mafia_kill, Some(pos(4)));
    assert_eq!(s.eliminated, vec![pos(7)]);
    assert_eq!(s.voting.nominees, vec![pos(2)]);
}

#[test]
fn players_can_be_changed_in_place_by_seat_or_name() {
    let mut g = Game::new();
    g.add_player("Ann").unwrap();
    g.add_player("Bob").unwrap();
    g.player_by_name_mut("Bob").unwrap().assign_position(pos(7)).unwrap();
    assert_eq!(g.player_by_name("Bob").unwrap().position(), Some(pos(7)));
    g.player_by_position_mut(pos(7)).unwrap().warn().unwrap();
    assert_eq!(g.player_by_name("Bob").unwrap().warnings(), 1);
    assert!(g.player_by_position_mut(pos(3)).is_none());
    assert!(g.player_by_name_mut("Cid").is_none());
    g.players_mut()[0].assign_position(pos(2)).unwrap();
    assert_eq!(g.players()[0].position(), Some(pos(2)));
    assert!(g.tie_voting().is_empty());
    assert!(g.final_voting().is_empty());
}

#[test]
fn state_players_can_be_changed_in_place() {
    let mut s = State::new();
    let chair = s.available_seats()[2];
    s.player_mut(chair).unwrap().increment_warning().unwrap();
    assert_eq!(s.player(chair).unwrap().warnings(), 1);
}

#[test]
fn nominations_and_votes_remember_both_chairs() {
    let s = State::new();
    let a = s.available_seats()[0];
    let b = s.available_seats()[1];
    let n = Nomination::new(a, b);
    assert_eq!(n.nominator(), a);
    assert_eq!(n.nominee(), b);
    let v = Vote::new(b, a);
    assert_eq!(v.voter(), b);
    assert_eq!(v.nominee(), a);
}

#[test]
fn an_app_snapshot_shows_the_input_and_the_engine() {
    let mut app = App::new();
    app.input.push_str("join Ann");
    let s = app.snapshot();
    assert_eq!(s.input, "join Ann");
    assert_eq!(s.current_timer, None);
    assert!(s.engine.game.players.is_empty());
}
