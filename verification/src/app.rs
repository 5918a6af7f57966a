pub mod commands;
pub mod input;

use vstd::prelude::*;
use vstd::string::StrSliceExecFns;

use self::commands::{AssignCommand, Command, command_of, parse_command};
use self::input::{InputMode, InputModeView, Key, PopupKind};
use crate::domain::{
    Activity, EngineState, EveningActivity, MorningActivity, NightActivity, NoonActivity, Position,
    Role,
};
use crate::engine::commands::{Command as EngineCommand, CommandView as EngineCommandView};
use crate::engine::dispatch::{applied, apply_defined};
use crate::engine::events::EventView;
use crate::engine::{Engine, EngineError, EngineErrorView, EngineView, Event, fresh_engine};
use crate::engine::game::game_snapshot;
use crate::engine::shown_phase;
use crate::snapshot::{self, Snapshot};
use crate::text::{
    numbers_in, parse_u8, parse_u8_spec, parsed_numbers, pop_char, push_char, trim, trimmed, words,
};

verus! {

/// Whether the console keeps running.
#[derive(Debug, Clone, Copy, PartialEq, Eq, Structural)]
pub enum AppStatus {
    Running,
    Quit,
}

/// A [`Command`] with names seen as characters and lists as sequences.
pub enum CommandView {
    Join { name: Seq<char> },
    Leave { name: Seq<char> },
    Start,
    Next,
    AssignRole,
    RevokeRole,
    Warn { position: u8 },
    Pardon { position: u8 },
    Nominate { position: u8 },
    Vote { positions: Seq<u8> },
    Shoot { position: u8 },
    Check { position: u8 },
    Guess { targets: Seq<u8> },
    AssignPlayer { name: Seq<char> },
    /// `assign role <role>`: a role named.
    AssignRoleNamed { role: Role },
    /// `assign role`: any role.
    AssignAnyRole,
    /// `assign` alone, which deals any role.
    AssignUnspecified,
    Timer { seconds: u64 },
    End { file_name: Seq<char> },
    Quit,
}

impl View for Command {
    type V = CommandView;

    open spec fn view(&self) -> CommandView {
        match *self {
            Command::Join { name } => CommandView::Join { name: name@ },
            Command::Leave { name } => CommandView::Leave { name: name@ },
            Command::Start => CommandView::Start,
            Command::Next => CommandView::Next,
            Command::AssignRole => CommandView::AssignRole,
            Command::RevokeRole => CommandView::RevokeRole,
            Command::Warn { position } => CommandView::Warn { position },
            Command::Pardon { position } => CommandView::Pardon { position },
            Command::Nominate { position } => CommandView::Nominate { position },
            Command::Vote { positions } => CommandView::Vote { positions: positions@ },
            Command::Shoot { position } => CommandView::Shoot { position },
            Command::Check { position } => CommandView::Check { position },
            Command::Guess { targets } => CommandView::Guess { targets: targets@ },
            Command::Assign { command } => match command {
                None => CommandView::AssignUnspecified,
                Some(AssignCommand::Player { name }) => CommandView::AssignPlayer { name: name@ },
                Some(AssignCommand::Role { role }) => match role {
                    None => CommandView::AssignAnyRole,
                    Some(r) => CommandView::AssignRoleNamed { role: r },
                },
            },
            Command::Timer { seconds } => CommandView::Timer { seconds },
            Command::End { file_name } => CommandView::End { file_name: file_name@ },
            Command::Quit => CommandView::Quit,
        }
    }
}

/// What a key asks the console to do besides changing its input.
pub enum Request {
    Nothing,
    Run(Command),
    /// A typed command line that names no command, to report.
    Invalid(String),
}

/// A [`Request`] seen through views.
pub enum RequestView {
    Nothing,
    Run(CommandView),
    Invalid(Seq<char>),
}

impl View for Request {
    type V = RequestView;

    open spec fn view(&self) -> RequestView {
        match *self {
            Request::Nothing => RequestView::Nothing,
            Request::Run(c) => RequestView::Run(c@),
            Request::Invalid(s) => RequestView::Invalid(s@),
        }
    }
}

/// What the console reports or asks its host to do after a command.
pub enum Effect {
    /// An event of the engine, to show.
    Engine(Event),
    /// A command the engine refused.
    Error(EngineError),
    /// Start a countdown of this many seconds, replacing any running one.
    StartTimer(u64),
    /// The host asked to quit.
    QuitRequested,
    /// Save the game to this file.
    Save(String),
}

/// An [`Effect`] seen through views.
pub enum EffectView {
    Engine(EventView),
    Error(EngineErrorView),
    StartTimer(u64),
    QuitRequested,
    Save(Seq<char>),
}

impl View for Effect {
    type V = EffectView;

    open spec fn view(&self) -> EffectView {
        match *self {
            Effect::Engine(e) => EffectView::Engine(e@),
            Effect::Error(e) => EffectView::Error(e@),
            Effect::StartTimer(s) => EffectView::StartTimer(s),
            Effect::QuitRequested => EffectView::QuitRequested,
            Effect::Save(f) => EffectView::Save(f@),
        }
    }
}

/// The views of a list of effects.
pub open spec fn effects_view(v: Seq<Effect>) -> Seq<EffectView> {
    v.map_values(|e: Effect| e@)
}

/// The console: the engine, the host's typing, and the countdown shown.
pub struct App {
    pub engine: Engine,
    pub status: AppStatus,
    pub input: String,
    pub input_mode: InputMode,
    pub current_timer: Option<u64>,
}

/// The abstract state of an [`App`].
pub struct AppView {
    pub engine: EngineView,
    pub status: AppStatus,
    pub input: Seq<char>,
    pub mode: InputModeView,
    pub current_timer: Option<u64>,
}

impl View for App {
    type V = AppView;

    open spec fn view(&self) -> AppView {
        AppView {
            engine: self.engine@,
            status: self.status,
            input: self.input@,
            mode: self.input_mode@,
            current_timer: self.current_timer,
        }
    }
}

/// The countdown, in seconds, that an activity gives each player.
pub open spec fn timer_for(state: EngineState) -> Option<u64> {
    match state {
        EngineState::Game(a) => match a {
            Activity::Night(NightActivity::RoleAssignment) => None,
            Activity::Night(NightActivity::SheriffReveal) => Some(5),
            Activity::Night(NightActivity::DonReveal) => Some(5),
            Activity::Night(NightActivity::MafiaBriefing) => Some(60),
            Activity::Night(NightActivity::MafiaShooting) => None,
            Activity::Night(NightActivity::SheriffCheck) => Some(10),
            Activity::Night(NightActivity::DonCheck) => Some(10),
            Activity::Morning(MorningActivity::Guessing) => Some(15),
            Activity::Morning(MorningActivity::DeathSpeech) => Some(60),
            Activity::Noon(NoonActivity::Discussion) => Some(60),
            Activity::Evening(EveningActivity::Voting) => Some(2),
            Activity::Evening(EveningActivity::TieDiscussion) => Some(30),
            Activity::Evening(EveningActivity::TieVoting) => Some(2),
            Activity::Evening(EveningActivity::FinalVoting) => Some(2),
            Activity::Evening(EveningActivity::FinalSpeech) => Some(60),
            Activity::Evening(EveningActivity::NominationAnnouncement) => None,
        },
        EngineState::Lobby(_) => None,
    }
}

/// The countdown, in seconds, that the running activity gives each player.
pub fn timer_for_engine(engine: &Engine) -> (t: Option<u64>)
    ensures
        t == timer_for(engine@.state),
{
    match engine.state {
        EngineState::Game(a) => match a {
            Activity::Night(NightActivity::RoleAssignment) => None,
            Activity::Night(NightActivity::SheriffReveal) => Some(5),
            Activity::Night(NightActivity::DonReveal) => Some(5),
            Activity::Night(NightActivity::MafiaBriefing) => Some(60),
            Activity::Night(NightActivity::MafiaShooting) => None,
            Activity::Night(NightActivity::SheriffCheck) => Some(10),
            Activity::Night(NightActivity::DonCheck) => Some(10),
            Activity::Morning(MorningActivity::Guessing) => Some(15),
            Activity::Morning(MorningActivity::DeathSpeech) => Some(60),
            Activity::Noon(NoonActivity::Discussion) => Some(60),
            Activity::Evening(EveningActivity::Voting) => Some(2),
            Activity::Evening(EveningActivity::TieDiscussion) => Some(30),
            Activity::Evening(EveningActivity::TieVoting) => Some(2),
            Activity::Evening(EveningActivity::FinalVoting) => Some(2),
            Activity::Evening(EveningActivity::FinalSpeech) => Some(60),
            Activity::Evening(EveningActivity::NominationAnnouncement) => None,
        },
        EngineState::Lobby(_) => None,
    }
}


/// The title of the prompt asking for `kind`.
pub open spec fn popup_title(kind: PopupKind) -> Seq<char> {
    match kind {
        PopupKind::Join => "Enter player name"@,
        PopupKind::Leave => "Enter player name"@,
        PopupKind::Warn => "Enter player position to warn"@,
        PopupKind::Pardon => "Enter player position to pardon"@,
        PopupKind::Nominate => "Enter player position to record nomination"@,
        PopupKind::Check => "Enter player position to perform check"@,
        PopupKind::Guess => "Enter player positions to record guess"@,
        PopupKind::Vote => "Enter player positions to record votes"@,
        PopupKind::Shoot => "Enter player position to record shoot"@,
        PopupKind::Help => "Help"@,
    }
}

/// The title of the prompt asking for `kind`.
pub fn popup_title_text(kind: PopupKind) -> (s: &'static str)
    ensures
        s@ == popup_title(kind),
{
    match kind {
        PopupKind::Join => "Enter player name",
        PopupKind::Leave => "Enter player name",
        PopupKind::Warn => "Enter player position to warn",
        PopupKind::Pardon => "Enter player position to pardon",
        PopupKind::Nominate => "Enter player position to record nomination",
        PopupKind::Check => "Enter player position to perform check",
        PopupKind::Guess => "Enter player positions to record guess",
        PopupKind::Vote => "Enter player positions to record votes",
        PopupKind::Shoot => "Enter player position to record shoot",
        PopupKind::Help => "Help",
    }
}

/// The prompt a key opens in normal mode, if any.
pub open spec fn popup_for_key(c: char) -> Option<PopupKind> {
    if c == 'j' {
        Some(PopupKind::Join)
    } else if c == 'l' {
        Some(PopupKind::Leave)
    } else if c == 'w' {
        Some(PopupKind::Warn)
    } else if c == 'p' {
        Some(PopupKind::Pardon)
    } else if c == 'o' {
        Some(PopupKind::Nominate)
    } else if c == 'c' {
        Some(PopupKind::Check)
    } else if c == 'g' {
        Some(PopupKind::Guess)
    } else if c == 'v' {
        Some(PopupKind::Vote)
    } else if c == 's' {
        Some(PopupKind::Shoot)
    } else if c == 'h' {
        Some(PopupKind::Help)
    } else {
        None
    }
}

/// The console with a prompt for `kind` open and the input cleared.
pub open spec fn opened(a: AppView, kind: PopupKind) -> AppView {
    AppView { mode: InputModeView::Popup { title: popup_title(kind), kind }, input: Seq::empty(), ..a }
}

/// The console back in normal mode with the input cleared.
pub open spec fn closed(a: AppView) -> AppView {
    AppView { mode: InputModeView::Normal, input: Seq::empty(), ..a }
}

/// A key in normal mode: `:` opens the command line, letters open prompts
/// or run the next step and the start, Esc quits.
pub open spec fn normal_key(a: AppView, key: Key) -> (AppView, RequestView) {
    match key {
        Key::Char(c) => if c == ':' {
            (AppView { mode: InputModeView::Command, input: Seq::empty(), ..a }, RequestView::Nothing)
        } else if c == 'n' {
            (a, RequestView::Run(CommandView::Next))
        } else if c == 'b' {
            (a, RequestView::Run(CommandView::Start))
        } else {
            match popup_for_key(c) {
                Some(k) => (opened(a, k), RequestView::Nothing),
                None => (a, RequestView::Nothing),
            }
        },
        Key::Esc => (AppView { status: AppStatus::Quit, ..a }, RequestView::Nothing),
        _ => (a, RequestView::Nothing),
    }
}

/// Typing: a character is appended, Backspace removes the last one.
pub open spec fn typed(a: AppView, key: Key) -> AppView {
    match key {
        Key::Char(c) => AppView { input: a.input.push(c), ..a },
        Key::Backspace => if a.input.len() > 0 {
            AppView { input: a.input.drop_last(), ..a }
        } else {
            a
        },
        _ => a,
    }
}

/// A key on the command line: Enter hands the trimmed line over to be read
/// (an empty line is dropped and kept), Esc leaves it.
pub open spec fn command_key(a: AppView, key: Key) -> (AppView, RequestView) {
    match key {
        Key::Esc => (closed(a), RequestView::Nothing),
        Key::Enter => {
            let line = trimmed(a.input);
            if line.len() == 0 {
                (AppView { mode: InputModeView::Normal, ..a }, RequestView::Nothing)
            } else {
                match command_of(words(line)) {
                    Some(c) => (closed(a), RequestView::Run(c)),
                    None => (closed(a), RequestView::Invalid(line)),
                }
            }
        },
        _ => (typed(a, key), RequestView::Nothing),
    }
}

/// The command a prompt gives for the typed value: a non-empty name, a seat
/// number, or the seat numbers among the words typed (at least one).
pub open spec fn popup_command(kind: PopupKind, value: Seq<char>) -> Option<CommandView> {
    match kind {
        PopupKind::Join => if value.len() > 0 {
            Some(CommandView::Join { name: value })
        } else {
            None
        },
        PopupKind::Leave => if value.len() > 0 {
            Some(CommandView::Leave { name: value })
        } else {
            None
        },
        PopupKind::Nominate => match parse_u8_spec(value) {
            Some(p) => Some(CommandView::Nominate { position: p }),
            None => None,
        },
        PopupKind::Shoot => match parse_u8_spec(value) {
            Some(p) => Some(CommandView::Shoot { position: p }),
            None => None,
        },
        PopupKind::Check => match parse_u8_spec(value) {
            Some(p) => Some(CommandView::Check { position: p }),
            None => None,
        },
        PopupKind::Warn => match parse_u8_spec(value) {
            Some(p) => Some(CommandView::Warn { position: p }),
            None => None,
        },
        PopupKind::Pardon => match parse_u8_spec(value) {
            Some(p) => Some(CommandView::Pardon { position: p }),
            None => None,
        },
        PopupKind::Guess => {
            let ps = parsed_numbers(words(value));
            if ps.len() > 0 {
                Some(CommandView::Guess { targets: ps })
            } else {
                None
            }
        },
        PopupKind::Vote => {
            let ps = parsed_numbers(words(value));
            if ps.len() > 0 {
                Some(CommandView::Vote { positions: ps })
            } else {
                None
            }
        },
        PopupKind::Help => None,
    }
}

/// A key in a prompt: Enter runs the command for the trimmed value (if it
/// gives one) and closes the prompt, Esc closes it.
pub open spec fn popup_key(a: AppView, kind: PopupKind, key: Key) -> (AppView, RequestView) {
    match key {
        Key::Esc => (closed(a), RequestView::Nothing),
        Key::Enter => (
            closed(a),
            match popup_command(kind, trimmed(a.input)) {
                Some(c) => RequestView::Run(c),
                None => RequestView::Nothing,
            },
        ),
        _ => (typed(a, key), RequestView::Nothing),
    }
}

/// What a key does in the console's current mode.
pub open spec fn key_outcome(a: AppView, key: Key) -> (AppView, RequestView) {
    match a.mode {
        InputModeView::Normal => normal_key(a, key),
        InputModeView::Command => command_key(a, key),
        InputModeView::Popup { kind, .. } => popup_key(a, kind, key),
    }
}


/// The command a prompt gives for the typed value, if any.
pub fn execute_popup(kind: PopupKind, value: &str) -> (c: Option<Command>)
    ensures
        match c {
            Some(cmd) => popup_command(kind, value@) == Some(cmd@),
            None => popup_command(kind, value@) is None,
        },
{
    match kind {
        PopupKind::Join => if value.unicode_len() > 0 {
            Some(Command::Join { name: value.to_owned() })
        } else {
            None
        },
        PopupKind::Leave => if value.unicode_len() > 0 {
            Some(Command::Leave { name: value.to_owned() })
        } else {
            None
        },
        PopupKind::Nominate => match parse_u8(value) {
            Some(p) => Some(Command::Nominate { position: p }),
            None => None,
        },
        PopupKind::Shoot => match parse_u8(value) {
            Some(p) => Some(Command::Shoot { position: p }),
            None => None,
        },
        PopupKind::Check => match parse_u8(value) {
            Some(p) => Some(Command::Check { position: p }),
            None => None,
        },
        PopupKind::Warn => match parse_u8(value) {
            Some(p) => Some(Command::Warn { position: p }),
            None => None,
        },
        PopupKind::Pardon => match parse_u8(value) {
            Some(p) => Some(Command::Pardon { position: p }),
            None => None,
        },
        PopupKind::Guess => {
            let ps = numbers_in(value);
            if ps.len() > 0 {
                Some(Command::Guess { targets: ps })
            } else {
                None
            }
        },
        PopupKind::Vote => {
            let ps = numbers_in(value);
            if ps.len() > 0 {
                Some(Command::Vote { positions: ps })
            } else {
                None
            }
        },
        PopupKind::Help => None,
    }
}

impl Snapshot for App {
    type Output = snapshot::App;

    fn snapshot(&self) -> (s: snapshot::App)
        ensures
            s.engine.game@ == game_snapshot(self.engine.game@),
            s.engine.phase == shown_phase(self.engine.state),
            s.engine.day == self.engine.day.0,
            s.engine.state == self.engine.state,
            s.engine.actor == self.engine.actor@.current,
            s.input@ == self@.input,
            s.input_mode@ == self@.mode,
            s.current_timer == self@.current_timer,
    {
        snapshot::App {
            engine: self.engine.snapshot(),
            input: self.input.clone(),
            input_mode: self.input_mode.duplicate(),
            current_timer: self.current_timer,
        }
    }
}

impl App {
    /// A console in normal mode over a fresh engine.
    pub fn new() -> (a: App)
        ensures
            a@.engine == fresh_engine(),
            a@.status == AppStatus::Running,
            a@.input == Seq::<char>::empty(),
            a@.mode == InputModeView::Normal,
            a@.current_timer is None,
            a.engine.wf(),
    {
        App {
            engine: Engine::new(),
            status: AppStatus::Running,
            input: String::new(),
            input_mode: InputMode::Normal,
            current_timer: None,
        }
    }

    /// Edits the input for a typing key.
    fn type_key(&mut self, key: Key)
        ensures
            final(self)@ == typed(old(self)@, key),
            final(self).engine == old(self).engine,
    {
        match key {
            Key::Char(c) => push_char(&mut self.input, c),
            Key::Backspace => pop_char(&mut self.input),
            _ => {},
        }
    }

    /// Clears the input and goes back to normal mode.
    fn close(&mut self)
        ensures
            final(self)@ == closed(old(self)@),
            final(self).engine == old(self).engine,
    {
        self.input = String::new();
        self.input_mode = InputMode::Normal;
    }

    /// Opens the prompt for `kind`.
    fn open(&mut self, kind: PopupKind)
        ensures
            final(self)@ == opened(old(self)@, kind),
            final(self).engine == old(self).engine,
    {
        self.input = String::new();
        self.input_mode = InputMode::Popup { title: popup_title_text(kind).to_owned(), kind };
    }

    /// A key in normal mode.
    pub fn handle_normal_mode(&mut self, key: Key) -> (r: Request)
        ensures
            (final(self)@, r@) == normal_key(old(self)@, key),
            final(self).engine == old(self).engine,
    {
        match key {
            Key::Char(c) => {
                if c == ':' {
                    self.input = String::new();
                    self.input_mode = InputMode::Command;
                    return Request::Nothing;
                }
                if c == 'n' {
                    return Request::Run(Command::Next);
                }
                if c == 'b' {
                    return Request::Run(Command::Start);
                }
                let kind = if c == 'j' {
                    PopupKind::Join
                } else if c == 'l' {
                    PopupKind::Leave
                } else if c == 'w' {
                    PopupKind::Warn
                } else if c == 'p' {
                    PopupKind::Pardon
                } else if c == 'o' {
                    PopupKind::Nominate
                } else if c == 'c' {
                    PopupKind::Check
                } else if c == 'g' {
                    PopupKind::Guess
                } else if c == 'v' {
                    PopupKind::Vote
                } else if c == 's' {
                    PopupKind::Shoot
                } else if c == 'h' {
                    PopupKind::Help
                } else {
                    return Request::Nothing;
                };
                self.open(kind);
                Request::Nothing
            },
            Key::Esc => {
                self.status = AppStatus::Quit;
                Request::Nothing
            },
            _ => Request::Nothing,
        }
    }

    /// A key on the command line.
    pub fn handle_command_mode(&mut self, key: Key) -> (r: Request)
        ensures
            (final(self)@, r@) == command_key(old(self)@, key),
            final(self).engine == old(self).engine,
    {
        match key {
            Key::Esc => {
                self.close();
                Request::Nothing
            },
            Key::Enter => {
                let line = trim(self.input.as_str());
                if line.unicode_len() == 0 {
                    self.input_mode = InputMode::Normal;
                    Request::Nothing
                } else {
                    self.close();
                    match parse_command(line.as_str()) {
                        Some(cmd) => Request::Run(cmd),
                        None => Request::Invalid(line),
                    }
                }
            },
            _ => {
                self.type_key(key);
                Request::Nothing
            },
        }
    }

    /// A key in a prompt for `kind`.
    pub fn handle_popup_mode(&mut self, kind: PopupKind, key: Key) -> (r: Request)
        ensures
            (final(self)@, r@) == popup_key(old(self)@, kind, key),
            final(self).engine == old(self).engine,
    {
        match key {
            Key::Esc => {
                self.close();
                Request::Nothing
            },
            Key::Enter => {
                let value = trim(self.input.as_str());
                let cmd = execute_popup(kind, value.as_str());
                self.close();
                match cmd {
                    Some(c) => Request::Run(c),
                    None => Request::Nothing,
                }
            },
            _ => {
                self.type_key(key);
                Request::Nothing
            },
        }
    }

    /// A key, read according to the current mode.
    pub fn handle_key(&mut self, key: Key) -> (r: Request)
        ensures
            (final(self)@, r@) == key_outcome(old(self)@, key),
            final(self).engine == old(self).engine,
    {
        let kind = match &self.input_mode {
            InputMode::Normal => None,
            InputMode::Command => Some(None),
            InputMode::Popup { kind, .. } => Some(Some(*kind)),
        };
        match kind {
            None => self.handle_normal_mode(key),
            Some(None) => self.handle_command_mode(key),
            Some(Some(k)) => self.handle_popup_mode(k, key),
        }
    }
}


/// Seat numbers as positions.
pub open spec fn to_positions(ps: Seq<u8>) -> Seq<Position> {
    ps.map_values(|p: u8| Position(p))
}

/// The engine command a console command stands for, if any.
pub open spec fn engine_command(cmd: CommandView) -> Option<EngineCommandView> {
    match cmd {
        CommandView::Join { name } => Some(EngineCommandView::Join { name }),
        CommandView::Leave { name } => Some(EngineCommandView::Leave { name }),
        CommandView::Start => Some(EngineCommandView::Start),
        CommandView::Next => Some(EngineCommandView::Advance),
        CommandView::AssignRole => Some(EngineCommandView::AssignRole),
        CommandView::RevokeRole => Some(EngineCommandView::RevokeRole),
        CommandView::Warn { position } => Some(EngineCommandView::Warn { target: Position(position) }),
        CommandView::Pardon { position } => Some(EngineCommandView::Pardon { target: Position(position) }),
        CommandView::Nominate { position } => Some(EngineCommandView::Nominate { target: Position(position) }),
        CommandView::Vote { positions } => Some(EngineCommandView::Vote { targets: to_positions(positions) }),
        CommandView::Shoot { position } => Some(EngineCommandView::Shoot { target: Position(position) }),
        CommandView::Check { position } => Some(EngineCommandView::Check { target: Position(position) }),
        CommandView::Guess { targets } => Some(EngineCommandView::Guess { targets: to_positions(targets) }),
        CommandView::AssignPlayer { name } => Some(EngineCommandView::Join { name }),
        CommandView::AssignAnyRole => Some(EngineCommandView::AssignRole),
        CommandView::AssignUnspecified => Some(EngineCommandView::AssignRole),
        CommandView::AssignRoleNamed { .. } => None,
        CommandView::Timer { .. } => None,
        CommandView::End { .. } => None,
        CommandView::Quit => None,
    }
}

/// Whether a command's events start the countdown of the acting player
/// (votes, guesses and assignments only report theirs).
pub open spec fn starts_timers(cmd: CommandView) -> bool {
    !(cmd is Vote || cmd is Guess || cmd is AssignPlayer || cmd is AssignAnyRole || cmd is AssignUnspecified
        || cmd is AssignRoleNamed)
}

/// Whether the console can carry out `cmd`: the engine command it stands
/// for is defined on the engine.
pub open spec fn command_defined(a: AppView, cmd: CommandView) -> bool {
    engine_command(cmd) matches Some(ec) ==> apply_defined(a.engine, ec)
}

/// The effects that report an engine result: each event in order, each
/// move of the turn followed by the countdown of the activity (when
/// `hook` and the activity has one); or the refusal.
pub open spec fn forwarded(events: Seq<EventView>, timer: Option<u64>, hook: bool) -> Seq<EffectView>
    decreases events.len(),
{
    if events.len() == 0 {
        Seq::empty()
    } else {
        let ev = events.last();
        let shown = forwarded(events.drop_last(), timer, hook).push(EffectView::Engine(ev));
        if hook && ev is ActorAdvanced && timer is Some {
            shown.push(EffectView::StartTimer(timer.unwrap()))
        } else {
            shown
        }
    }
}

/// The effects that report an engine result.
pub open spec fn reported(r: Result<Seq<EventView>, EngineErrorView>, timer: Option<u64>, hook: bool) -> Seq<EffectView> {
    match r {
        Ok(events) => forwarded(events, timer, hook),
        Err(e) => seq![EffectView::Error(e)],
    }
}

/// Whether the turn moved to another player somewhere in `events`.
pub open spec fn actor_moved(events: Seq<EventView>) -> bool {
    exists|i: int| 0 <= i < events.len() && (#[trigger] events[i]) is ActorAdvanced
}

/// The countdown shown after an engine result: the activity's, once the
/// turn moved (when `hook`); the one shown before otherwise.
pub open spec fn timer_after(
    shown: Option<u64>,
    r: Result<Seq<EventView>, EngineErrorView>,
    timer: Option<u64>,
    hook: bool,
) -> Option<u64> {
    if hook && timer is Some && (r matches Ok(events) && actor_moved(events)) {
        timer
    } else {
        shown
    }
}

/// Whether `a2` and the effects `fx` are what running the engine command
/// `ec` on `a` can give.
pub open spec fn engine_ran(a: AppView, ec: EngineCommandView, hook: bool, a2: AppView, fx: Seq<EffectView>) -> bool {
    exists|r: Result<Seq<EventView>, EngineErrorView>|
        #[trigger] applied(a.engine, ec, a2.engine, r) && fx == reported(r, timer_for(a2.engine.state), hook)
            && a2 == (AppView {
            engine: a2.engine,
            current_timer: timer_after(a.current_timer, r, timer_for(a2.engine.state), hook),
            ..a
        })
}

/// Whether `a2` and the effects `fx` are what handling `cmd` on `a` can
/// give: engine commands run on the engine and report back; quitting,
/// saving and countdowns go to the host.
pub open spec fn handled(a: AppView, cmd: CommandView, a2: AppView, fx: Seq<EffectView>) -> bool {
    match engine_command(cmd) {
        Some(ec) => engine_ran(a, ec, starts_timers(cmd), a2, fx),
        None => match cmd {
            CommandView::Quit => a2 == (AppView { status: AppStatus::Quit, ..a }) && fx == seq![
                EffectView::QuitRequested,
            ],
            CommandView::End { file_name } => a2 == a && fx == seq![EffectView::Save(file_name)],
            CommandView::Timer { seconds } => a2 == a && fx == seq![EffectView::StartTimer(seconds)],
            _ => a2 == a && fx == Seq::<EffectView>::empty(),
        },
    }
}

/// Seat numbers as positions.
fn positions_of(ps: &Vec<u8>) -> (r: Vec<Position>)
    ensures
        r@ == to_positions(ps@),
{
    let mut r: Vec<Position> = Vec::new();
    let mut i: usize = 0;
    while i < ps.len()
        invariant
            0 <= i <= ps.len(),
            r@ == to_positions(ps@.take(i as int)),
        decreases ps.len() - i,
    {
        r.push(Position::new(ps[i]));
        assert(to_positions(ps@.take(i + 1)) =~= to_positions(ps@.take(i as int)).push(Position(ps@[i as int])));
        i = i + 1;
    }
    assert(ps@.take(ps.len() as int) =~= ps@);
    r
}

impl App {
    /// Reports an engine result: forwards its events, starting the
    /// activity's countdown after each move of the turn when `hook`.
    pub fn handle_engine_result(&mut self, result: Result<Vec<Event>, EngineError>, hook: bool) -> (fx: Vec<Effect>)
        ensures
            effects_view(fx@) == reported(
                crate::engine::result_view(result),
                timer_for(old(self)@.engine.state),
                hook,
            ),
            final(self)@ == (AppView {
                current_timer: timer_after(
                    old(self)@.current_timer,
                    crate::engine::result_view(result),
                    timer_for(old(self)@.engine.state),
                    hook,
                ),
                ..old(self)@
            }),
            final(self).engine == old(self).engine,
    {
        match result {
            Err(e) => {
                let fx = vec![Effect::Error(e)];
                assert(effects_view(fx@) =~= seq![EffectView::Error(e@)]);
                fx
            },
            Ok(events) => {
                let ghost evs = crate::engine::events::events_view(events@);
                let timer = timer_for_engine(&self.engine);
                let mut fx: Vec<Effect> = Vec::new();
                let mut i: usize = 0;
                assert(evs.take(0) =~= Seq::<EventView>::empty());
                while i < events.len()
                    invariant
                        0 <= i <= events.len(),
                        evs == crate::engine::events::events_view(events@),
                        timer == timer_for(self@.engine.state),
                        self.engine == old(self).engine,
                        effects_view(fx@) == forwarded(evs.take(i as int), timer, hook),
                        self@ == (AppView {
                            current_timer: if hook && timer is Some && actor_moved(evs.take(i as int)) {
                                timer
                            } else {
                                old(self)@.current_timer
                            },
                            ..old(self)@
                        }),
                    decreases events.len() - i,
                {
                    let ev = events[i].duplicate();
                    let moved = ev.is_actor_advanced();
                    let ghost before = fx@;
                    proof {
                        assert(evs.take(i + 1).drop_last() =~= evs.take(i as int));
                        assert(evs.take(i + 1).last() == ev@);
                    }
                    fx.push(Effect::Engine(ev));
                    assert(effects_view(fx@) =~= effects_view(before).push(EffectView::Engine(ev@)));
                    if hook && moved && timer.is_some() {
                        let t = timer.unwrap();
                        let ghost before2 = fx@;
                        fx.push(Effect::StartTimer(t));
                        assert(effects_view(fx@) =~= effects_view(before2).push(EffectView::StartTimer(t)));
                        self.current_timer = Some(t);
                        assert(evs.take(i + 1)[i as int] is ActorAdvanced);
                    }
                    proof {
                        if actor_moved(evs.take(i as int)) {
                            let k = choose|k: int| 0 <= k < evs.take(i as int).len() && (#[trigger] evs.take(i as int)[k]) is ActorAdvanced;
                            assert(evs.take(i + 1)[k] == evs.take(i as int)[k]);
                        }
                        if actor_moved(evs.take(i + 1)) && !moved {
                            let k = choose|k: int| 0 <= k < evs.take(i + 1).len() && (#[trigger] evs.take(i + 1)[k]) is ActorAdvanced;
                            assert(evs.take(i as int)[k] == evs.take(i + 1)[k]);
                        }
                    }
                    i = i + 1;
                }
                assert(evs.take(events.len() as int) =~= evs);
                fx
            },
        }
    }
}


/// The engine command a console command stands for.
fn engine_command_of(cmd: Command) -> (ec: EngineCommand)
    requires
        engine_command(cmd@) is Some,
    ensures
        engine_command(cmd@) == Some(ec@),
{
    match cmd {
        Command::Join { name } => EngineCommand::Join { name },
        Command::Leave { name } => EngineCommand::Leave { name },
        Command::Start => EngineCommand::Start,
        Command::Next => EngineCommand::Advance,
        Command::AssignRole => EngineCommand::AssignRole,
        Command::RevokeRole => EngineCommand::RevokeRole,
        Command::Warn { position } => EngineCommand::Warn { target: Position::new(position) },
        Command::Pardon { position } => EngineCommand::Pardon { target: Position::new(position) },
        Command::Nominate { position } => EngineCommand::Nominate { target: Position::new(position) },
        Command::Vote { positions } => EngineCommand::Vote { targets: positions_of(&positions) },
        Command::Shoot { position } => EngineCommand::Shoot { target: Position::new(position) },
        Command::Check { position } => EngineCommand::Check { target: Position::new(position) },
        Command::Guess { targets } => EngineCommand::Guess { targets: positions_of(&targets) },
        Command::Assign { command } => match command {
            Some(AssignCommand::Player { name }) => EngineCommand::Join { name },
            _ => EngineCommand::AssignRole,
        },
        _ => EngineCommand::Start,
    }
}

impl App {
    /// Runs an engine command and reports its result.
    fn run_engine(&mut self, ec: EngineCommand, hook: bool) -> (fx: Vec<Effect>)
        requires
            old(self).engine.wf(),
            apply_defined(old(self)@.engine, ec@),
        ensures
            final(self).engine.wf(),
            engine_ran(old(self)@, ec@, hook, final(self)@, effects_view(fx@)),
    {
        let ghost ecv = ec@;
        let result = self.engine.apply(ec);
        let ghost r = crate::engine::result_view(result);
        let ghost mid = self@;
        let fx = self.handle_engine_result(result, hook);
        assert(applied(old(self)@.engine, ecv, self@.engine, r));
        fx
    }

    /// Whether [`App::handle_command`] can carry out `cmd` here.
    pub fn can_handle(&self, cmd: &Command) -> (b: bool)
        requires
            self.engine.wf(),
        ensures
            b == command_defined(self@, cmd@),
    {
        match cmd {
            Command::Join { .. } | Command::Leave { .. } | Command::Vote { .. } | Command::Guess { .. } => true,
            Command::Warn { position } => self.engine.can_apply(&EngineCommand::Warn { target: Position::new(*position) }),
            Command::Pardon { .. } | Command::Nominate { .. } | Command::Shoot { .. } | Command::Check { .. } => true,
            Command::Start => self.engine.can_apply(&EngineCommand::Start),
            Command::Next => self.engine.can_apply(&EngineCommand::Advance),
            Command::AssignRole => self.engine.can_apply(&EngineCommand::AssignRole),
            Command::RevokeRole => self.engine.can_apply(&EngineCommand::RevokeRole),
            Command::Assign { command } => match command {
                Some(AssignCommand::Player { .. }) => true,
                Some(AssignCommand::Role { role: Some(_) }) => true,
                _ => self.engine.can_apply(&EngineCommand::AssignRole),
            },
            Command::Timer { .. } | Command::End { .. } | Command::Quit => true,
        }
    }

    /// Carries out a console command: engine commands run on the engine
    /// and report their events (starting countdowns); quitting, saving and
    /// countdowns are handed to the host.
    pub fn handle_command(&mut self, cmd: Command) -> (fx: Vec<Effect>)
        requires
            old(self).engine.wf(),
            command_defined(old(self)@, cmd@),
        ensures
            final(self).engine.wf(),
            handled(old(self)@, cmd@, final(self)@, effects_view(fx@)),
    {
        let ghost cv = cmd@;
        match cmd {
            Command::Quit => {
                self.status = AppStatus::Quit;
                let fx = vec![Effect::QuitRequested];
                assert(effects_view(fx@) =~= seq![EffectView::QuitRequested]);
                fx
            },
            Command::End { file_name } => {
                let ghost f = file_name@;
                let fx = vec![Effect::Save(file_name)];
                assert(effects_view(fx@) =~= seq![EffectView::Save(f)]);
                fx
            },
            Command::Timer { seconds } => {
                let fx = vec![Effect::StartTimer(seconds)];
                assert(effects_view(fx@) =~= seq![EffectView::StartTimer(seconds)]);
                fx
            },
            Command::Assign { command: Some(AssignCommand::Role { role: Some(_) }) } => {
                let fx: Vec<Effect> = Vec::new();
                assert(effects_view(fx@) =~= Seq::<EffectView>::empty());
                fx
            },
            other => {
                let hook = match &other {
                    Command::Vote { .. } | Command::Guess { .. } | Command::Assign { .. } => false,
                    _ => true,
                };
                assert(hook == starts_timers(cv));
                let ec = engine_command_of(other);
                self.run_engine(ec, hook)
            },
        }
    }
}

} // verus!
