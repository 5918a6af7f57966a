use mafia::domain::{DayIndex, Position, Role};
use mafia::engine::game::check;
use mafia::engine::game::player;
use mafia::engine::game::voting;
use mafia::engine::game::Event;

#[test]
fn player_events_read_as_sentences() {
    let e = player::Event::RoleAssigned { name: "Ann".to_string(), position: Position::new(3), role: Role::Sheriff };
    assert_eq!(e.to_string(), "Player Ann at position 3 got the role Sheriff");
    let w = player::Event::Warned { name: "Bob".to_string(), position: Position::new(10), total: 2 };
    assert_eq!(w.to_string(), "Player Bob at position 10 was warned, currently has 2");
    let d = player::Event::Died { name: "Cy".to_string(), position: Position::new(7) };
    assert_eq!(d.to_string(), "Player Cy at position 7 is Dead");
}

#[test]
fn voting_and_check_events_read_as_sentences() {
    let n = voting::Event::Nominated { nominator: Position::new(1), nominee: Position::new(5) };
    assert_eq!(n.to_string(), "Player at position 1 has nominated 5");
    let v = voting::Event::Voted { voter: Position::new(2), nominee: Position::new(5) };
    assert_eq!(v.to_string(), "Player at position 2 has voted for 5");
    assert_eq!(check::Event::SheriffChecked { chair: Position::new(4) }.to_string(), "Sheriff checked 4");
    assert_eq!(check::Event::DonChecked { chair: Position::new(9) }.to_string(), "Don checked 9");
}

#[test]
fn game_events_read_as_sentences() {
    let e = Event::Eliminated { day: DayIndex::new(2), positions: vec![Position::new(3), Position::new(10)] };
    assert_eq!(e.to_string(), "After day 2 players at position 310 were eliminated");
    assert_eq!(Event::MafiaKill { position: Position::new(6) }.to_string(), "Mafia has shoot 6");
    assert_eq!(Event::PlayerJoin { name: "Ann".to_string() }.to_string(), "Player  Ann, joined to the lobby");
    assert_eq!(Event::FinalVoting(Position::new(8)).to_string(), "Final Voting 8");
}

#[test]
fn seat_day_and_round_numbers_read_in_decimal() {
    assert_eq!(Position::new(7).to_string(), "7");
    assert_eq!(Position::new(10).to_string(), "10");
    assert_eq!(DayIndex::new(0).to_string(), "0");
    assert_eq!(DayIndex::new(12).to_string(), "12");
    assert_eq!(mafia::domain::RoundId::new(3).to_string(), "3");
}

#[test]
fn seats_days_and_rounds_convert_to_and_from_numbers() {
    let p: Position = 4u8.into();
    assert_eq!(p, Position::new(4));
    let n: u8 = Position::new(9).into();
    assert_eq!(n, 9);
    let d: DayIndex = 5usize.into();
    assert_eq!(d, DayIndex::new(5));
    let k: usize = DayIndex::new(6).into();
    assert_eq!(k, 6);
    let r: usize = mafia::domain::RoundId::new(2).into();
    assert_eq!(r, 2);
}

#[test]
fn lowercase_role_and_status_names_are_read_exactly() {
    assert_eq!(Role::parse_lowercase(&"don".to_string()), Ok(Role::Don));
    assert_eq!(Role::parse_lowercase(&"Don".to_string()), Err("Invalid role: Don".to_string()));
    assert_eq!(
        mafia::domain::Status::parse_lowercase(&"removed".to_string()),
        Ok(mafia::domain::Status::Removed)
    );
    assert_eq!(
        mafia::domain::Status::parse_lowercase(&"gone".to_string()),
        Err("Invalid status: gone".to_string())
    );
}

#[test]
fn rounds_start_at_zero_and_convert_to_numbers() {
    assert!(mafia::domain::RoundId::default().is_first());
    let r = mafia::engine::state::round::RoundId::default();
    assert_eq!(r.0, 0);
    let n: usize = mafia::engine::state::round::RoundId(4).into();
    assert_eq!(n, 4);
}
