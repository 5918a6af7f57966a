use mafia::engine::state::actor::Actor;
use mafia::engine::state::phase::{Phase, PhaseError};
use mafia::engine::state::player::{LifeStatus, Player, PlayerError};
use mafia::engine::state::role::Role;
use mafia::engine::state::round::RoundId;
use mafia::engine::state::table::chair::ChairError;
use mafia::engine::state::table::Table;
use mafia::engine::state::State;

#[test]
fn phases_cycle_after_the_lobby() {
    let mut p = Phase::Lobby;
    let mut seen = Vec::new();
    for _ in 0..6 {
        let next: Result<Phase, PhaseError> = p.advance_phase();
        seen.push(next.unwrap());
    }
    assert_eq!(
        seen,
        vec![Phase::Night, Phase::Morning, Phase::Day, Phase::Voting, Phase::Night, Phase::Morning]
    );
    assert_eq!(Phase::Voting.as_str(), "Voting");
}

#[test]
fn warnings_silence_then_remove_and_pardons_undo_them() {
    let mut p = Player::new("Ann".to_string(), Role::Citizen);
    p.increment_warning().unwrap();
    p.increment_warning().unwrap();
    assert!(!p.is_silenced());
    p.increment_warning().unwrap();
    assert!(p.is_silenced());
    p.increment_warning().unwrap();
    assert_eq!(p.life_status(), LifeStatus::Removed);
    assert!(matches!(p.increment_warning(), Err(PlayerError::MaxWarningsReached)));
    p.deincrement_warning().unwrap();
    assert_eq!(p.life_status(), LifeStatus::Alive);
    assert_eq!(p.warnings(), 3);
    p.deincrement_warning().unwrap();
    assert!(!p.is_silenced());
    p.deincrement_warning().unwrap();
    p.deincrement_warning().unwrap();
    assert!(matches!(p.deincrement_warning(), Err(PlayerError::NoWarnings)));
    assert_eq!(p.to_string(), "Ann (Citizen) – Status: Alive, Warnings: 0");
}

#[test]
fn chairs_exist_from_one_to_ten() {
    let t = Table::new();
    assert_eq!(t.chair(1).unwrap().position(), 1);
    assert_eq!(t.chair(10).unwrap().to_string(), "10");
    assert!(matches!(t.chair(0), Err(ChairError::InvalidPosition(0))));
    assert!(matches!(t.chair(11), Err(ChairError::InvalidPosition(11))));
    assert_eq!(t.available_seats().len(), 10);
    assert_eq!(t.available_roles().len(), 10);
}

#[test]
fn a_turn_walks_the_eligible_chairs_and_completes() {
    let t = Table::new();
    let mut actor = Actor::new(t.chair(3).unwrap());
    let mut eligible = [false; 10];
    eligible[2] = true;
    eligible[6] = true;
    eligible[8] = true;
    assert_eq!(t.next_actor(&mut actor, &eligible).map(|c| c.position()), Some(3));
    assert_eq!(t.next_actor(&mut actor, &eligible).map(|c| c.position()), Some(7));
    assert_eq!(t.next_actor(&mut actor, &eligible).map(|c| c.position()), Some(9));
    assert_eq!(t.next_actor(&mut actor, &eligible), None);
    assert!(actor.is_completed());
}

#[test]
fn the_state_seats_players_and_records_rounds() {
    let mut s = State::new();
    let chair = s.table.chair(2).unwrap();
    s.assign_player(chair, Player::new("Bob".to_string(), Role::Sheriff)).unwrap();
    assert_eq!(s.chair_of_player("Bob").map(|c| c.position()), Some(2));
    assert_eq!(s.table.sheriff().map(|c| c.position()), Some(2));
    assert_eq!(s.increment_player_warning(chair).unwrap(), 1);
    assert_eq!(s.deincrement_player_warning(chair).unwrap(), 0);
    s.mark_player_killed(chair).unwrap();
    assert!(s.player(chair).unwrap().is_dead());
    assert_eq!(s.current_round_mut().mafia_kill().map(|c| c.position()), Some(2));
    s.start_new_round();
    assert_eq!(s.current_round, RoundId(1));
    assert!(s.current_round_mut().mafia_kill().is_none());
    s.take_role(Role::Don).unwrap();
    assert_eq!(s.available_roles().len(), 9);
    s.remove_player(chair).unwrap();
    assert_eq!(s.chair_of_player("Bob"), None);
}
