use mafia::commands::{Action, AppStatus};
use mafia::table::{Chair, Phase, Role, Status, Table};

#[test]
fn a_join_takes_a_seat_and_a_role() {
    let mut t = Table::new();
    t.join_with("Ann", Some(4), Some(Role::Sheriff)).unwrap();
    let p = t.get_player_by_position(4).unwrap();
    assert_eq!(p.name, "Ann");
    assert_eq!(p.role, Role::Sheriff);
    assert_eq!(t.available_positions.len(), 9);
    assert!(!t.available_positions.contains(&4));
    assert_eq!(t.available_roles.len(), 9);
    assert!(!t.available_roles.contains(&Role::Sheriff));
}

#[test]
fn a_random_join_seats_the_player() {
    let mut t = Table::new();
    t.join("Bob").unwrap();
    assert!(t.get_player_by_name("Bob").is_some());
    assert_eq!(t.available_positions.len(), 9);
}

#[test]
fn a_full_table_starts_the_night_on_the_next_join() {
    let mut t = Table::new();
    for i in 1..=10u8 {
        t.join(&format!("P{i}")).unwrap();
    }
    assert_eq!(t.phase, Phase::Registration);
    t.join("late").unwrap();
    assert_eq!(t.phase, Phase::Night);
    assert!(t.get_player_by_name("late").is_none());
}

#[test]
fn leaving_frees_the_seat_and_the_role() {
    let mut t = Table::new();
    t.join_with("Ann", Some(4), Some(Role::Don)).unwrap();
    t.leave("Ann").unwrap();
    assert!(t.get_player_by_name("Ann").is_none());
    assert!(t.available_positions.contains(&4));
    assert_eq!(t.available_roles.len(), 10);
    assert_eq!(t.leave("Ann"), Err("Player not found".to_string()));
    t.phase = Phase::Day;
    assert_eq!(t.leave("x"), Err("Cannot leave after registration phase".to_string()));
}

#[test]
fn warnings_pardons_nominations_and_status() {
    let mut t = Table::new();
    t.join_with("Ann", Some(2), Some(Role::Citizen)).unwrap();
    t.warn(Chair::new(2)).unwrap();
    t.warn(Chair::new(2)).unwrap();
    t.pardon(Chair::new(2)).unwrap();
    assert_eq!(t.get_player_by_position(2).unwrap().warnings, 1);
    assert_eq!(t.warn(Chair::new(11)), Err("Player not found".to_string()));
    t.nominate(Chair::new(2)).unwrap();
    assert_eq!(t.nominated_players, vec!["Ann".to_string()]);
    assert_eq!(t.get_player_by_position(2).unwrap().nominated, vec![Some(2)]);
    t.update_player_status_by_position(2, Status::Killed).unwrap();
    assert_eq!(t.get_player_by_position(2).unwrap().status, Status::Killed);
}

#[test]
fn phases_wait_for_a_full_table_and_count_rounds() {
    let mut t = Table::new();
    t.next_phase().unwrap();
    assert_eq!(t.phase, Phase::Registration);
    t.available_positions.clear();
    for expected in [Phase::Night, Phase::Morning, Phase::Day, Phase::Voting, Phase::Night] {
        t.next_phase().unwrap();
        assert_eq!(t.phase, expected);
    }
    assert_eq!(t.round, 1);
}

#[test]
fn the_table_renders_each_chair() {
    let mut t = Table::new();
    t.join_with("Ann", Some(1), Some(Role::Don)).unwrap();
    let lines = t.render();
    assert_eq!(lines[0], "Phase: Registration, Round: 0");
    assert_eq!(lines[1], "Chair: 1, Player: Ann");
    assert_eq!(lines[2], "Chair: 2 is unoccupied");
    assert_eq!(lines.len(), 11);
    t.phase = Phase::Night;
    let night = t.render();
    assert_eq!(night[1], "Chair: 1, Player: Ann, Role: Don");
    assert_eq!(night.len(), 14);
    t.phase = Phase::Voting;
    assert_eq!(t.render(), vec!["Phase: Voting".to_string()]);
}

#[test]
fn actions_run_in_their_phase() {
    let mut t = Table::new();
    let (status, lines) = Action::Join { name: "Ann".to_string() }.run(&mut t).unwrap();
    assert_eq!(status, AppStatus::Continue);
    assert!(lines.is_empty());
    let seat = (1..=10u8).find(|k| t.get_player_by_position(*k).map(|p| p.name == "Ann").unwrap_or(false)).unwrap();
    // Nominations only count by day.
    let (_, lines) = Action::Nominate { position: seat }.run(&mut t).unwrap();
    assert!(lines.is_empty());
    assert!(t.nominated_players.is_empty());
    t.phase = Phase::Day;
    let (_, lines) = Action::Nominate { position: seat }.run(&mut t).unwrap();
    assert_eq!(lines, vec![format!("Player at position {seat} has been nominated.")]);
    assert_eq!(Action::Warn { position: 20 }.run(&mut t), Err("Player not found".to_string()));
    let (status, lines) = Action::Quit.run(&mut t).unwrap();
    assert_eq!(status, AppStatus::Quit);
    assert_eq!(lines, vec!["Exiting the game.".to_string()]);
    let (_, shown) = Action::Show.run(&mut t).unwrap();
    assert_eq!(shown[0], "Phase: Day, Round: 0");
}

#[test]
fn leave_action_reports_the_player() {
    let mut t = Table::new();
    t.join_with("Ann", Some(1), Some(Role::Don)).unwrap();
    let (_, lines) = Action::Leave { name: "Ann".to_string() }.run(&mut t).unwrap();
    assert_eq!(lines, vec!["Player Ann left the game.".to_string()]);
}

#[test]
fn players_can_be_changed_in_place_by_name_or_seat() {
    let mut t = Table::new();
    t.join_with("Ann", Some(3), Some(Role::Citizen)).unwrap();
    t.get_player_by_name_mut("Ann").unwrap().add_warning();
    assert_eq!(t.get_player_by_position(3).unwrap().warnings, 1);
    t.get_player_by_position_mut(3).unwrap().status = Status::Killed;
    assert_eq!(t.get_player_by_name("Ann").unwrap().status, Status::Killed);
    assert!(t.get_player_by_name_mut("Bob").is_none());
    assert!(t.get_player_by_position_mut(11).is_none());
}
