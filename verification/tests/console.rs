use mafia::app::commands::{parse_command, AssignCommand, Command};
use mafia::app::input::{help_text, InputMode, Key, PopupKind};
use mafia::app::{execute_popup, timer_for_engine, App, AppStatus, Effect, Request};
use mafia::domain::{Activity, EngineState, NightActivity, NoonActivity, Role};
use mafia::engine::Engine;

fn typed(app: &mut App, text: &str) {
    for c in text.chars() {
        assert!(matches!(app.handle_key(Key::Char(c)), Request::Nothing));
    }
}

#[test]
fn normal_keys_open_prompts_and_run_commands() {
    let mut app = App::new();
    assert!(matches!(app.handle_key(Key::Char('n')), Request::Run(Command::Next)));
    assert!(matches!(app.handle_key(Key::Char('b')), Request::Run(Command::Start)));
    assert!(matches!(app.handle_key(Key::Char('x')), Request::Nothing));
    app.handle_key(Key::Char('w'));
    assert!(matches!(&app.input_mode, InputMode::Popup { title, kind: PopupKind::Warn } if title == "Enter player position to warn"));
    app.handle_key(Key::Esc);
    assert!(matches!(app.input_mode, InputMode::Normal));
    app.handle_key(Key::Esc);
    assert_eq!(app.status, AppStatus::Quit);
}

#[test]
fn a_prompt_runs_the_command_for_the_trimmed_value() {
    let mut app = App::new();
    app.handle_key(Key::Char('j'));
    typed(&mut app, "  Alice ");
    match app.handle_key(Key::Enter) {
        Request::Run(Command::Join { name }) => assert_eq!(name, "Alice"),
        _ => panic!("expected a join"),
    }
    assert!(app.input.is_empty());
    assert!(matches!(app.input_mode, InputMode::Normal));
}

#[test]
fn backspace_removes_the_last_character() {
    let mut app = App::new();
    app.handle_key(Key::Char('o'));
    typed(&mut app, "34");
    app.handle_key(Key::Backspace);
    assert_eq!(app.input, "3");
    assert!(matches!(app.handle_key(Key::Enter), Request::Run(Command::Nominate { position: 3 })));
}

#[test]
fn the_command_line_runs_the_command_it_names() {
    let mut app = App::new();
    app.handle_key(Key::Char(':'));
    assert!(matches!(app.input_mode, InputMode::Command));
    typed(&mut app, " join Bob  ");
    match app.handle_key(Key::Enter) {
        Request::Run(Command::Join { name }) => assert_eq!(name, "Bob"),
        _ => panic!("expected a join"),
    }
    app.handle_key(Key::Char(':'));
    typed(&mut app, "dance now");
    match app.handle_key(Key::Enter) {
        Request::Invalid(line) => assert_eq!(line, "dance now"),
        _ => panic!("expected a refusal"),
    }
    assert!(matches!(app.input_mode, InputMode::Normal));
    // An empty line is dropped.
    app.handle_key(Key::Char(':'));
    typed(&mut app, "   ");
    assert!(matches!(app.handle_key(Key::Enter), Request::Nothing));
    assert!(matches!(app.input_mode, InputMode::Normal));
}

#[test]
fn prompt_values_parse_like_numbers_and_words() {
    assert!(matches!(execute_popup(PopupKind::Shoot, "7"), Some(Command::Shoot { position: 7 })));
    assert!(matches!(execute_popup(PopupKind::Warn, "+9"), Some(Command::Warn { position: 9 })));
    assert!(execute_popup(PopupKind::Check, "256").is_none());
    assert!(execute_popup(PopupKind::Pardon, "x").is_none());
    assert!(execute_popup(PopupKind::Pardon, "").is_none());
    match execute_popup(PopupKind::Vote, "3 x  5\t255 300") {
        Some(Command::Vote { positions }) => assert_eq!(positions, vec![3, 5, 255]),
        _ => panic!("expected a vote"),
    }
    assert!(execute_popup(PopupKind::Guess, "a b").is_none());
    assert!(execute_popup(PopupKind::Join, "").is_none());
    assert!(execute_popup(PopupKind::Help, "anything").is_none());
}

#[test]
fn activities_give_their_countdowns() {
    let mut e = Engine::new();
    assert_eq!(timer_for_engine(&e), None);
    e.state = EngineState::Game(Activity::Noon(NoonActivity::Discussion));
    assert_eq!(timer_for_engine(&e), Some(60));
    e.state = EngineState::Game(Activity::Night(NightActivity::SheriffCheck));
    assert_eq!(timer_for_engine(&e), Some(10));
    e.state = EngineState::Game(Activity::Night(NightActivity::RoleAssignment));
    assert_eq!(timer_for_engine(&e), None);
}

#[test]
fn console_commands_reach_the_engine_and_the_host() {
    let mut app = App::new();
    let fx = app.handle_command(Command::Join { name: "Ann".to_string() });
    assert!(matches!(&fx[..], [Effect::Engine(_)]));
    let fx = app.handle_command(Command::Leave { name: "Zed".to_string() });
    assert!(matches!(&fx[..], [Effect::Error(_)]));
    let fx = app.handle_command(Command::Timer { seconds: 30 });
    assert!(matches!(&fx[..], [Effect::StartTimer(30)]));
    let fx = app.handle_command(Command::End { file_name: "game.json".to_string() });
    assert!(matches!(&fx[..], [Effect::Save(f)] if f == "game.json"));
    let fx = app.handle_command(Command::Assign { command: Some(AssignCommand::Role { role: Some(Role::Don) }) });
    assert!(fx.is_empty());
    assert!(!app.can_handle(&Command::AssignRole));
    let fx = app.handle_command(Command::Quit);
    assert!(matches!(&fx[..], [Effect::QuitRequested]));
    assert_eq!(app.status, AppStatus::Quit);
}

#[test]
fn the_help_lists_every_mode() {
    let help = help_text();
    assert!(help.starts_with("NORMAL MODE"));
    assert!(help.contains("COMMAND MODE"));
    assert!(help.contains("POPUP MODE"));
}

#[test]
fn numbers_in_a_prompt_are_split_on_any_white_space() {
    assert!(matches!(
        execute_popup(PopupKind::Vote, "3\t5\u{3000}7\u{a0}x 9"),
        Some(Command::Vote { positions }) if positions == vec![3, 5, 7, 9]
    ));
}

#[test]
fn typed_lines_read_as_commands() {
    assert!(matches!(parse_command("join Ann"), Some(Command::Join { name }) if name == "Ann"));
    assert!(matches!(parse_command("  leave\tBob "), Some(Command::Leave { name }) if name == "Bob"));
    assert!(matches!(parse_command("start"), Some(Command::Start)));
    assert!(matches!(parse_command("next"), Some(Command::Next)));
    assert!(matches!(parse_command("assign-role"), Some(Command::AssignRole)));
    assert!(matches!(parse_command("revoke-role"), Some(Command::RevokeRole)));
    assert!(matches!(parse_command("quit"), Some(Command::Quit)));
    assert!(matches!(parse_command("warn 3"), Some(Command::Warn { position: 3 })));
    assert!(matches!(parse_command("pardon +4"), Some(Command::Pardon { position: 4 })));
    assert!(matches!(parse_command("nominate 7"), Some(Command::Nominate { position: 7 })));
    assert!(matches!(parse_command("shoot 10"), Some(Command::Shoot { position: 10 })));
    assert!(matches!(parse_command("check 1"), Some(Command::Check { position: 1 })));
    assert!(matches!(parse_command("vote 3 5"), Some(Command::Vote { positions }) if positions == vec![3, 5]));
    assert!(matches!(parse_command("vote"), Some(Command::Vote { positions }) if positions.is_empty()));
    assert!(matches!(parse_command("guess 2 4 6"), Some(Command::Guess { targets }) if targets == vec![2, 4, 6]));
    assert!(matches!(parse_command("timer 60"), Some(Command::Timer { seconds: 60 })));
    assert!(matches!(parse_command("timer 18446744073709551615"), Some(Command::Timer { seconds: u64::MAX })));
    assert!(matches!(parse_command("end game.json"), Some(Command::End { file_name }) if file_name == "game.json"));
    assert!(matches!(parse_command("assign"), Some(Command::Assign { command: None })));
    assert!(matches!(
        parse_command("assign player Cid"),
        Some(Command::Assign { command: Some(AssignCommand::Player { name }) }) if name == "Cid"
    ));
    assert!(matches!(
        parse_command("assign role"),
        Some(Command::Assign { command: Some(AssignCommand::Role { role: None }) })
    ));
    assert!(matches!(
        parse_command("assign role don"),
        Some(Command::Assign { command: Some(AssignCommand::Role { role: Some(Role::Don) }) })
    ));
}

#[test]
fn malformed_lines_name_no_command() {
    assert!(parse_command("").is_none());
    assert!(parse_command("dance").is_none());
    assert!(parse_command("join").is_none());
    assert!(parse_command("join Ann Bob").is_none());
    assert!(parse_command("join -x").is_none());
    assert!(parse_command("start now").is_none());
    assert!(parse_command("warn 256").is_none());
    assert!(parse_command("warn x").is_none());
    assert!(parse_command("warn").is_none());
    assert!(parse_command("vote 3 x").is_none());
    assert!(parse_command("timer 18446744073709551616").is_none());
    assert!(parse_command("assign role Don").is_none());
    assert!(parse_command("assign role don now").is_none());
    assert!(parse_command("assign player").is_none());
    assert!(parse_command("assign seat 3").is_none());
    assert!(parse_command("Join Ann").is_none());
}
