use mafia::domain::{
    Activity, DayIndex, EngineState, EveningActivity, LobbyStatus, MorningActivity, NightActivity,
    NoonActivity, Position, Role, Status,
};
use mafia::engine::commands::Command;
use mafia::engine::{Engine, EngineError, Event};

fn pos(n: u8) -> Position {
    Position::new(n)
}

fn phase(e: &Engine) -> Activity {
    match e.state {
        EngineState::Game(a) => a,
        EngineState::Lobby(_) => panic!("no game running"),
    }
}

/// Ten players seated at the seat of their number.
fn full_lobby() -> Engine {
    let mut e = Engine::new();
    for i in 1..=10u8 {
        let name = format!("P{i}");
        e.game.add_player(&name).unwrap();
        let events = e.seat_joined(&name, Some(pos(i))).unwrap();
        assert!(matches!(&events[0], Event::PlayerJoined { name: n } if *n == name));
    }
    e
}

fn advance(e: &mut Engine) -> Vec<Event> {
    assert!(e.can_advance());
    e.advance().unwrap()
}

fn advanced_to(events: &[Event]) -> Option<Activity> {
    match events {
        [Event::PhaseAdvanced { phase }] => Some(*phase),
        _ => None,
    }
}

fn actor_at(events: &[Event]) -> Option<Position> {
    match events {
        [Event::ActorAdvanced { chair }] => Some(*chair),
        _ => None,
    }
}

/// A started game where seat 1 is the Don, seats 2 and 3 Mafia, seat 4 the
/// Sheriff and the rest Citizens, at the start of the first discussion.
fn first_discussion() -> Engine {
    let mut e = full_lobby();
    assert_eq!(e.state, EngineState::Lobby(LobbyStatus::Ready));
    let started = e.start().unwrap();
    assert!(matches!(started[0], Event::GameStarted));
    assert_eq!(phase(&e), Activity::Night(NightActivity::RoleAssignment));

    let roles = [
        Role::Don,
        Role::Mafia,
        Role::Mafia,
        Role::Sheriff,
        Role::Citizen,
        Role::Citizen,
        Role::Citizen,
        Role::Citizen,
        Role::Citizen,
        Role::Citizen,
    ];
    for (i, role) in roles.iter().enumerate() {
        let seat = pos(i as u8 + 1);
        assert_eq!(actor_at(&advance(&mut e)), Some(seat));
        e.assign_drawn_role(seat, Some(*role)).unwrap();
    }
    assert_eq!(
        advanced_to(&advance(&mut e)),
        Some(Activity::Night(NightActivity::SheriffReveal))
    );
    assert_eq!(actor_at(&advance(&mut e)), Some(pos(4)));
    assert_eq!(
        advanced_to(&advance(&mut e)),
        Some(Activity::Night(NightActivity::DonReveal))
    );
    assert_eq!(actor_at(&advance(&mut e)), Some(pos(1)));
    assert_eq!(
        advanced_to(&advance(&mut e)),
        Some(Activity::Night(NightActivity::MafiaBriefing))
    );
    assert_eq!(
        advanced_to(&advance(&mut e)),
        Some(Activity::Noon(NoonActivity::Discussion))
    );
    e
}

#[test]
fn a_full_lobby_is_ready_and_the_start_deals_roles() {
    let mut e = full_lobby();
    assert_eq!(e.state, EngineState::Lobby(LobbyStatus::Ready));
    assert!(e.game.available_positions().is_empty());
    e.start().unwrap();
    assert_eq!(phase(&e), Activity::Night(NightActivity::RoleAssignment));
    assert_eq!(e.actor.start(), pos(1));
}

#[test]
fn the_first_night_reveals_the_sheriff_and_the_don() {
    let e = first_discussion();
    assert_eq!(e.day, DayIndex::new(0));
    assert_eq!(e.actor.start(), pos(1));
    assert_eq!(e.game.sheriff().unwrap().position(), Some(pos(4)));
    assert_eq!(e.game.don().unwrap().position(), Some(pos(1)));
}

#[test]
fn a_day_with_one_clear_winner_ends_with_the_final_speech() {
    let mut e = first_discussion();

    // Seat 1 speaks first and nominates seat 5; seat 2 nominates seat 6.
    assert!(advance(&mut e).is_empty());
    assert_eq!(e.actor.current(), Some(pos(1)));
    let nominated = e.nominate(pos(5)).unwrap();
    assert!(matches!(nominated[0], Event::PlayerNominated { by, target } if by == pos(1) && target == pos(5)));
    assert!(advance(&mut e).is_empty());
    e.nominate(pos(6)).unwrap();
    // A second nomination by the same speaker is refused.
    assert!(matches!(e.nominate(pos(7)), Err(EngineError::Voting(_))));

    for seat in 3..=10u8 {
        assert!(advance(&mut e).is_empty());
        assert_eq!(e.actor.current(), Some(pos(seat)));
    }
    assert_eq!(
        advanced_to(&advance(&mut e)),
        Some(Activity::Evening(EveningActivity::NominationAnnouncement))
    );
    assert_eq!(
        advanced_to(&advance(&mut e)),
        Some(Activity::Evening(EveningActivity::Voting))
    );
    assert_eq!(e.actor.start(), pos(5));

    assert!(advance(&mut e).is_empty());
    assert_eq!(e.actor.current(), Some(pos(5)));
    e.vote(vec![pos(1), pos(2), pos(3), pos(4)]).unwrap();
    assert!(advance(&mut e).is_empty());
    assert_eq!(e.actor.current(), Some(pos(6)));
    e.vote(vec![pos(7), pos(8)]).unwrap();
    assert_eq!(
        advanced_to(&advance(&mut e)),
        Some(Activity::Evening(EveningActivity::FinalSpeech))
    );
    assert_eq!(e.game.player_by_position(pos(5)).unwrap().status(), Status::Eliminated);
    assert_eq!(e.game.get_eliminated(DayIndex::new(0)).unwrap().clone(), vec![pos(5)]);

    assert!(advance(&mut e).is_empty());
    assert_eq!(e.actor.current(), Some(pos(5)));
    assert_eq!(
        advanced_to(&advance(&mut e)),
        Some(Activity::Night(NightActivity::MafiaShooting))
    );
    assert_eq!(e.day, DayIndex::new(1));
}

#[test]
fn a_night_with_a_shot_leads_to_guessing_and_the_death_speech() {
    let mut e = first_discussion();
    // Nobody is nominated on the first day: the night follows.
    for _ in 1..=10 {
        assert!(advance(&mut e).is_empty());
    }
    assert_eq!(
        advanced_to(&advance(&mut e)),
        Some(Activity::Night(NightActivity::MafiaShooting))
    );
    assert_eq!(e.day, DayIndex::new(1));

    let shot = e.shoot(pos(4)).unwrap();
    assert!(matches!(shot[0], Event::PlayerKilled { target } if target == pos(4)));
    assert_eq!(e.game.get_kill(DayIndex::new(1)), Some(pos(4)));
    assert_eq!(
        advanced_to(&advance(&mut e)),
        Some(Activity::Night(NightActivity::SheriffCheck))
    );
    assert_eq!(actor_at(&advance(&mut e)), Some(pos(4)));
    // The Sheriff was shot and cannot check.
    assert!(matches!(e.check(pos(2)), Err(EngineError::PlayerDead(p)) if p == pos(4)));
    assert_eq!(
        advanced_to(&advance(&mut e)),
        Some(Activity::Night(NightActivity::DonCheck))
    );
    assert_eq!(actor_at(&advance(&mut e)), Some(pos(1)));
    e.check(pos(7)).unwrap();
    assert_eq!(e.game.check_of(DayIndex::new(1)).unwrap().don(), Some(pos(7)));
    assert_eq!(
        advanced_to(&advance(&mut e)),
        Some(Activity::Morning(MorningActivity::Guessing))
    );
    assert_eq!(actor_at(&advance(&mut e)), Some(pos(4)));
    assert_eq!(
        advanced_to(&advance(&mut e)),
        Some(Activity::Morning(MorningActivity::DeathSpeech))
    );
    assert_eq!(actor_at(&advance(&mut e)), Some(pos(4)));
    assert_eq!(
        advanced_to(&advance(&mut e)),
        Some(Activity::Noon(NoonActivity::Discussion))
    );
    // The second day starts with the seat after the day number.
    assert_eq!(e.actor.start(), pos(2));
}

#[test]
fn advancing_outside_a_game_is_refused_and_changes_nothing() {
    let mut e = Engine::new();
    assert!(matches!(e.advance(), Err(EngineError::NotInGame)));
    assert_eq!(e.state, EngineState::Lobby(LobbyStatus::Waiting));
    assert_eq!(e.day, DayIndex::new(0));
}

#[test]
fn leaving_reopens_a_full_lobby() {
    let mut e = full_lobby();
    let left = e.leave("P3").unwrap();
    assert!(matches!(&left[0], Event::PlayerLeft { name } if name == "P3"));
    assert_eq!(e.state, EngineState::Lobby(LobbyStatus::Waiting));
    assert_eq!(e.game.available_positions().to_vec(), vec![pos(3)]);
    assert!(matches!(e.leave("nobody"), Err(EngineError::PlayerNotFound)));
}

#[test]
fn a_random_join_takes_a_free_seat() {
    let mut e = Engine::new();
    e.join("Alice").unwrap();
    let seat = e.game.player_by_name("Alice").unwrap().position().unwrap();
    assert!((1..=10).contains(&seat.value()));
    assert_eq!(e.game.available_positions().len(), 9);
    assert!(!e.game.available_positions().contains(&seat));
}

#[test]
fn warnings_and_pardons_report_the_count() {
    let mut e = first_discussion();
    let warned = e.warn(pos(3)).unwrap();
    assert!(matches!(warned[0], Event::PlayerWarned { target, warnings: 1 } if target == pos(3)));
    let pardoned = e.pardon(pos(3)).unwrap();
    assert!(matches!(pardoned[0], Event::PlayerPardoned { target, warnings: 0 } if target == pos(3)));
    assert!(matches!(e.pardon(pos(3)), Err(EngineError::Player(_))));
}

/// The first discussion where seat 1 nominates seat 5 and seat 2 seat 6,
/// run up to the first vote.
fn two_nominees_voting() -> Engine {
    let mut e = first_discussion();
    advance(&mut e);
    e.nominate(pos(5)).unwrap();
    advance(&mut e);
    e.nominate(pos(6)).unwrap();
    for _ in 3..=10u8 {
        advance(&mut e);
    }
    assert_eq!(
        advanced_to(&advance(&mut e)),
        Some(Activity::Evening(EveningActivity::NominationAnnouncement))
    );
    assert_eq!(
        advanced_to(&advance(&mut e)),
        Some(Activity::Evening(EveningActivity::Voting))
    );
    e
}

/// A tied first vote, through the tie discussion, up to the tie vote.
fn tie_vote() -> Engine {
    let mut e = two_nominees_voting();
    advance(&mut e);
    e.vote(vec![pos(1), pos(2)]).unwrap();
    advance(&mut e);
    e.vote(vec![pos(3), pos(4)]).unwrap();
    assert_eq!(
        advanced_to(&advance(&mut e)),
        Some(Activity::Evening(EveningActivity::TieDiscussion))
    );
    assert_eq!(e.actor.start(), pos(5));
    assert!(advance(&mut e).is_empty());
    assert_eq!(e.actor.current(), Some(pos(5)));
    assert!(advance(&mut e).is_empty());
    assert_eq!(e.actor.current(), Some(pos(6)));
    assert_eq!(
        advanced_to(&advance(&mut e)),
        Some(Activity::Evening(EveningActivity::TieVoting))
    );
    e
}

#[test]
fn a_tie_vote_with_a_winner_eliminates_them() {
    let mut e = tie_vote();
    advance(&mut e);
    e.vote(vec![pos(1), pos(2), pos(3)]).unwrap();
    advance(&mut e);
    e.vote(vec![pos(4), pos(7)]).unwrap();
    assert_eq!(
        advanced_to(&advance(&mut e)),
        Some(Activity::Evening(EveningActivity::FinalSpeech))
    );
    assert_eq!(e.game.player_by_position(pos(5)).unwrap().status(), Status::Eliminated);
    assert_eq!(e.game.player_by_position(pos(6)).unwrap().status(), Status::Alive);
}

#[test]
fn a_second_tie_goes_to_a_carried_yes_no_vote() {
    let mut e = tie_vote();
    advance(&mut e);
    e.vote(vec![pos(1), pos(2)]).unwrap();
    advance(&mut e);
    e.vote(vec![pos(3), pos(4)]).unwrap();
    assert_eq!(
        advanced_to(&advance(&mut e)),
        Some(Activity::Evening(EveningActivity::FinalVoting))
    );
    e.vote(vec![pos(1), pos(2), pos(3), pos(4), pos(5), pos(6)]).unwrap();
    assert_eq!(
        advanced_to(&advance(&mut e)),
        Some(Activity::Evening(EveningActivity::FinalSpeech))
    );
    assert_eq!(e.game.get_eliminated(DayIndex::new(0)).unwrap().clone(), vec![pos(5), pos(6)]);
    assert_eq!(e.game.player_by_position(pos(6)).unwrap().status(), Status::Eliminated);
    assert!(advance(&mut e).is_empty());
    assert_eq!(e.actor.current(), Some(pos(5)));
    assert!(advance(&mut e).is_empty());
    assert_eq!(e.actor.current(), Some(pos(6)));
    assert_eq!(
        advanced_to(&advance(&mut e)),
        Some(Activity::Night(NightActivity::MafiaShooting))
    );
    assert_eq!(e.day, DayIndex::new(1));
}

#[test]
fn a_failed_yes_no_vote_ends_the_day() {
    let mut e = tie_vote();
    advance(&mut e);
    e.vote(vec![pos(1), pos(2)]).unwrap();
    advance(&mut e);
    e.vote(vec![pos(3), pos(4)]).unwrap();
    advance(&mut e);
    // Five of ten is not more than half.
    e.vote(vec![pos(1), pos(2), pos(3), pos(4), pos(5)]).unwrap();
    assert_eq!(
        advanced_to(&advance(&mut e)),
        Some(Activity::Night(NightActivity::MafiaShooting))
    );
    assert_eq!(e.day, DayIndex::new(1));
    assert_eq!(e.actor.start(), pos(1));
    assert!(e.game.get_eliminated(DayIndex::new(0)).is_none());
}

#[test]
fn votes_outside_a_voting_are_refused() {
    let mut e = first_discussion();
    assert!(matches!(e.vote(vec![pos(1)]), Err(EngineError::NotVotingPhase)));
}

#[test]
fn a_single_nomination_on_the_first_day_skips_the_vote() {
    let mut e = first_discussion();
    advance(&mut e);
    e.nominate(pos(5)).unwrap();
    for _ in 2..=10u8 {
        advance(&mut e);
    }
    assert_eq!(
        advanced_to(&advance(&mut e)),
        Some(Activity::Night(NightActivity::MafiaShooting))
    );
}

#[test]
fn apply_runs_commands_and_can_apply_tells_when_they_are_defined() {
    let mut e = Engine::new();
    assert!(e.can_apply(&Command::Join { name: "Ann".to_string() }));
    let events = e.apply(Command::Join { name: "Ann".to_string() }).unwrap();
    assert!(matches!(&events[0], Event::PlayerJoined { name } if name == "Ann"));
    // Nobody acts yet: a role cannot be dealt.
    assert!(!e.can_apply(&Command::AssignRole));
    assert!(matches!(e.apply(Command::Start), Err(EngineError::NotLobbyReady(_))));
    assert!(matches!(e.apply(Command::Advance), Err(EngineError::NotInGame)));
}

#[test]
fn leaving_right_after_joining_restores_the_lobby() {
    let mut e = Engine::new();
    e.game.add_player("Ann").unwrap();
    e.seat_joined("Ann", Some(pos(4))).unwrap();
    let mut before: Vec<u8> = e.game.available_positions().iter().map(|p| p.0).collect();
    before.sort();
    let names_before: Vec<String> = e.game.players().iter().map(|p| p.name().clone()).collect();

    e.join("Bob").unwrap();
    assert_eq!(e.game.player_count(), 2);
    e.leave("Bob").unwrap();

    let names_after: Vec<String> = e.game.players().iter().map(|p| p.name().clone()).collect();
    assert_eq!(names_after, names_before);
    let mut after: Vec<u8> = e.game.available_positions().iter().map(|p| p.0).collect();
    after.sort();
    assert_eq!(after, before);
    assert_eq!(e.state, EngineState::Lobby(LobbyStatus::Waiting));
}

#[test]
fn a_join_with_an_empty_or_taken_name_is_refused_and_takes_no_seat() {
    let mut e = Engine::new();
    e.join("Ann").unwrap();
    let free = e.game.available_positions().len();
    assert!(matches!(
        e.join("Ann"),
        Err(EngineError::Game(mafia::engine::game::Error::PlayerByNameAlreadyExist(n))) if n == "Ann"
    ));
    assert!(matches!(e.join(""), Err(EngineError::Game(mafia::engine::game::Error::PlayerNameIsEmpty))));
    assert_eq!(e.game.available_positions().len(), free);
    assert_eq!(e.game.player_count(), 1);
    assert_eq!(e.state, EngineState::Lobby(LobbyStatus::Waiting));
}

#[test]
fn a_shot_outside_the_nights_shooting_is_refused() {
    let mut e = full_lobby();
    assert!(matches!(e.shoot(pos(4)), Err(EngineError::NotInGame)));
    let mut e = first_discussion();
    assert!(matches!(e.shoot(pos(4)), Err(EngineError::NotShootingPhase)));
    assert_eq!(e.game.player_by_position(pos(4)).unwrap().status(), Status::Alive);
}
