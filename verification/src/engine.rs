pub mod commands;
pub mod dispatch;
pub mod events;
pub mod flow;
pub mod game;
pub mod laws;
pub mod lobby;
pub mod moves;
pub mod rules;
pub mod state;
pub mod turn;

use vstd::prelude::*;

use self::game::actor::ActorView;
use self::game::{Game, GameView, game_snapshot, index_at};
use crate::snapshot::{self, Snapshot};
use crate::domain::{
    Activity, Day, DayIndex, EngineState, LobbyStatus, NightActivity, NoonActivity, Position, Status,
};

pub use events::Event;
pub use game::actor::Actor;

verus! {

/// Why the engine refused a command.
#[derive(Debug, Clone)]
pub enum EngineError {
    NoAvailableSeats,
    NoAvailableRoles,
    RegistrationClosed,
    PlayerNotFound,
    PlayerAssignmentFailed,
    WrongPhase { expected: Day, current: Activity },
    PlayerDead(Position),
    NoActiveSpeaker,
    AlreadyNominated(Position),
    /// The engine is not gathering players.
    NotInLobby(EngineState),
    /// The lobby is not waiting for players.
    NotLobbyWaiting(EngineState),
    /// The lobby is not full.
    NotLobbyReady(EngineState),
    /// No game is running.
    NotInGame,
    NotRoleAssignment(Activity),
    NotDiscussion(Activity),
    NotDonCheck(Activity),
    NotSheriffCheck(Activity),
    NotNight(Activity),
    NotMorning(Activity),
    NotNoon(Activity),
    NotEvening(Day),
    NotDon(Position),
    NotSheriff(Position),
    /// The named player has no seat.
    NoPosition(String),
    NoActiveActor,
    NoActiveNominee,
    NotInvestigationPhase,
    NotVotingPhase,
    /// A shot outside the night's shooting.
    NotShootingPhase,
    Player(game::player::Error),
    Check(game::check::Error),
    Voting(game::voting::Error),
    /// The game record refused.
    Game(game::Error),
}

/// An [`EngineError`] with names seen as characters.
pub enum EngineErrorView {
    NoAvailableSeats,
    NoAvailableRoles,
    RegistrationClosed,
    PlayerNotFound,
    PlayerAssignmentFailed,
    WrongPhase { expected: Day, current: Activity },
    PlayerDead(Position),
    NoActiveSpeaker,
    AlreadyNominated(Position),
    NotInLobby(EngineState),
    NotLobbyWaiting(EngineState),
    NotLobbyReady(EngineState),
    NotInGame,
    NotRoleAssignment(Activity),
    NotDiscussion(Activity),
    NotDonCheck(Activity),
    NotSheriffCheck(Activity),
    NotNight(Activity),
    NotMorning(Activity),
    NotNoon(Activity),
    NotEvening(Day),
    NotDon(Position),
    NotSheriff(Position),
    NoPosition(Seq<char>),
    NoActiveActor,
    NoActiveNominee,
    NotInvestigationPhase,
    NotVotingPhase,
    NotShootingPhase,
    Player(game::player::Error),
    Check(game::check::Error),
    Voting(game::voting::Error),
    Game(game::ErrorView),
}

impl View for EngineError {
    type V = EngineErrorView;

    open spec fn view(&self) -> EngineErrorView {
        match *self {
            EngineError::NoAvailableSeats => EngineErrorView::NoAvailableSeats,
            EngineError::NoAvailableRoles => EngineErrorView::NoAvailableRoles,
            EngineError::RegistrationClosed => EngineErrorView::RegistrationClosed,
            EngineError::PlayerNotFound => EngineErrorView::PlayerNotFound,
            EngineError::PlayerAssignmentFailed => EngineErrorView::PlayerAssignmentFailed,
            EngineError::WrongPhase { expected, current } => EngineErrorView::WrongPhase {
                expected,
                current,
            },
            EngineError::PlayerDead(p) => EngineErrorView::PlayerDead(p),
            EngineError::NoActiveSpeaker => EngineErrorView::NoActiveSpeaker,
            EngineError::AlreadyNominated(p) => EngineErrorView::AlreadyNominated(p),
            EngineError::NotInLobby(s) => EngineErrorView::NotInLobby(s),
            EngineError::NotLobbyWaiting(s) => EngineErrorView::NotLobbyWaiting(s),
            EngineError::NotLobbyReady(s) => EngineErrorView::NotLobbyReady(s),
            EngineError::NotInGame => EngineErrorView::NotInGame,
            EngineError::NotRoleAssignment(a) => EngineErrorView::NotRoleAssignment(a),
            EngineError::NotDiscussion(a) => EngineErrorView::NotDiscussion(a),
            EngineError::NotDonCheck(a) => EngineErrorView::NotDonCheck(a),
            EngineError::NotSheriffCheck(a) => EngineErrorView::NotSheriffCheck(a),
            EngineError::NotNight(a) => EngineErrorView::NotNight(a),
            EngineError::NotMorning(a) => EngineErrorView::NotMorning(a),
            EngineError::NotNoon(a) => EngineErrorView::NotNoon(a),
            EngineError::NotEvening(d) => EngineErrorView::NotEvening(d),
            EngineError::NotDon(p) => EngineErrorView::NotDon(p),
            EngineError::NotSheriff(p) => EngineErrorView::NotSheriff(p),
            EngineError::NoPosition(n) => EngineErrorView::NoPosition(n@),
            EngineError::NoActiveActor => EngineErrorView::NoActiveActor,
            EngineError::NoActiveNominee => EngineErrorView::NoActiveNominee,
            EngineError::NotInvestigationPhase => EngineErrorView::NotInvestigationPhase,
            EngineError::NotVotingPhase => EngineErrorView::NotVotingPhase,
            EngineError::NotShootingPhase => EngineErrorView::NotShootingPhase,
            EngineError::Player(e) => EngineErrorView::Player(e),
            EngineError::Check(e) => EngineErrorView::Check(e),
            EngineError::Voting(e) => EngineErrorView::Voting(e),
            EngineError::Game(e) => EngineErrorView::Game(e@),
        }
    }
}

/// The game engine: the game record, whose turn it is, the day, and
/// whether the engine is in the lobby or running a game.
#[derive(Debug)]
pub struct Engine {
    pub game: Game,
    pub actor: Actor,
    pub day: DayIndex,
    pub state: EngineState,
}

/// The abstract state of an [`Engine`].
pub struct EngineView {
    pub game: GameView,
    pub actor: ActorView,
    pub day: usize,
    pub state: EngineState,
}

impl View for Engine {
    type V = EngineView;

    open spec fn view(&self) -> EngineView {
        EngineView { game: self.game@, actor: self.actor@, day: self.day.0, state: self.state }
    }
}

/// The outcome of a command: the engine afterwards and what it reports.
pub type Outcome = (EngineView, Result<Seq<events::EventView>, EngineErrorView>);

/// The view of a command's result.
pub open spec fn result_view(r: Result<Vec<Event>, EngineError>) -> Result<
    Seq<events::EventView>,
    EngineErrorView,
> {
    match r {
        Ok(events) => Ok(events::events_view(events@)),
        Err(e) => Err(e@),
    }
}

/// A command that fails, leaving the engine as it was.
pub open spec fn refused(e: EngineView, err: EngineErrorView) -> Outcome {
    (e, Err(err))
}

/// The running activity, if a game is running.
pub open spec fn phase_of(e: EngineView) -> Option<Activity> {
    match e.state {
        EngineState::Game(a) => Some(a),
        EngineState::Lobby(_) => None,
    }
}

/// Whether the player sitting at `pos` is alive (an empty seat is not).
pub open spec fn seat_alive(players: Seq<game::player::PlayerView>, pos: Position) -> bool {
    match index_at(players, pos) {
        Some(i) => players[i].status == Status::Alive,
        None => false,
    }
}

/// Walking the ten seats round from `start`, the first whose player is alive,
/// trying `10 - offset` seats starting `offset` seats after `start`.
pub open spec fn first_alive_from(
    players: Seq<game::player::PlayerView>,
    start: int,
    offset: int,
) -> Option<Position>
    decreases 10 - offset,
{
    if offset >= 10 || offset < 0 {
        None
    } else {
        let pos = Position((((start - 1 + offset) % 10) + 1) as u8);
        if seat_alive(players, pos) {
            Some(pos)
        } else {
            first_alive_from(players, start, offset + 1)
        }
    }
}

/// The seat at which the day's speeches start: the first living player
/// walking round the table from the seat after the day number.
pub open spec fn first_speaker(players: Seq<game::player::PlayerView>, day: usize) -> Option<Position> {
    first_alive_from(players, (day % 10) as int + 1, 0)
}

/// Why `ensure_alive` refuses a seat, if it does.
pub open spec fn alive_check(players: Seq<game::player::PlayerView>, pos: Position) -> Option<EngineErrorView> {
    match index_at(players, pos) {
        None => Some(EngineErrorView::PlayerNotFound),
        Some(i) => if players[i].status == Status::Alive {
            None
        } else {
            Some(EngineErrorView::PlayerDead(pos))
        },
    }
}

/// An engine before anybody joined: an empty game and a lobby waiting for players.
pub open spec fn fresh_engine() -> EngineView {
    EngineView {
        game: game::fresh_game(),
        actor: ActorView { start: Position(1), current: None, completed: false },
        day: 0,
        state: EngineState::Lobby(LobbyStatus::Waiting),
    }
}

/// The phase shown for an engine state: the activity while a game runs.
pub open spec fn shown_phase(state: EngineState) -> Option<Activity> {
    match state {
        EngineState::Game(a) => Some(a),
        EngineState::Lobby(_) => None,
    }
}

impl Snapshot for Engine {
    type Output = snapshot::Engine;

    fn snapshot(&self) -> (s: snapshot::Engine)
        ensures
            s.game@ == game_snapshot(self.game@),
            s.phase == shown_phase(self.state),
            s.day == self.day.0,
            s.state == self.state,
            s.actor == self.actor@.current,
    {
        let phase = match self.state {
            EngineState::Game(a) => Some(a),
            EngineState::Lobby(_) => None,
        };
        snapshot::Engine {
            game: self.game.snapshot(),
            actor: self.actor.snapshot(),
            phase,
            day: self.day.0,
            state: self.state,
        }
    }
}

impl Engine {
    /// A consistent engine.
    pub open spec fn wf(&self) -> bool {
        self.game.wf()
    }

    pub fn new() -> (e: Engine)
        ensures
            e@ == fresh_engine(),
            e.wf(),
    {
        Engine {
            game: Game::new(),
            actor: Actor::new(Position::new(1)),
            day: DayIndex::new(0),
            state: EngineState::Lobby(LobbyStatus::Waiting),
        }
    }

    /// The running activity.
    pub fn phase(&self) -> (r: Result<Activity, EngineError>)
        ensures
            match phase_of(self@) {
                Some(a) => r == Ok::<Activity, EngineError>(a),
                None => r matches Err(EngineError::NotInGame),
            },
    {
        match self.state {
            EngineState::Game(phase) => Ok(phase),
            _ => Err(EngineError::NotInGame),
        }
    }

    /// Changes the running activity.
    pub fn set_phase(&mut self, phase: Activity) -> (r: Result<(), EngineError>)
        ensures
            phase_of(old(self)@) is Some ==> r is Ok && final(self)@ == (EngineView {
                state: EngineState::Game(phase),
                ..old(self)@
            }),
            phase_of(old(self)@) is None ==> (r matches Err(EngineError::NotInGame)) && final(self)@
                == old(self)@,
            final(self).game == old(self).game,
    {
        match self.state {
            EngineState::Game(_) => {
                self.state = EngineState::Game(phase);
                Ok(())
            },
            _ => Err(EngineError::NotInGame),
        }
    }

    /// The seat at which the speeches of `day` start, walking round the table
    /// from the seat after the day number to the first living player.
    pub fn first_speaker_at(&self, day: usize) -> (r: Option<Position>)
        ensures
            r == first_speaker(self.game@.players, day),
    {
        let start: u8 = (day % 10) as u8 + 1;
        let mut offset: u8 = 0;
        while offset < 10
            invariant
                0 <= offset <= 10,
                start as int == (day % 10) as int + 1,
                first_speaker(self.game@.players, day) == first_alive_from(
                    self.game@.players,
                    start as int,
                    offset as int,
                ),
            decreases 10 - offset,
        {
            let pos = Position::new(((start - 1 + offset) % 10) + 1);
            let alive = match self.game.player_by_position(pos) {
                Some(p) => p.is_alive(),
                None => false,
            };
            if alive {
                return Some(pos);
            }
            offset = offset + 1;
        }
        None
    }

    /// The seat at which the day's speeches start.
    pub fn first_speaker_of_day(&self) -> (p: Position)
        requires
            first_speaker(self.game@.players, self.day.0) is Some,
        ensures
            first_speaker(self.game@.players, self.day.0) == Some(p),
    {
        self.first_speaker_at(self.day.0).unwrap()
    }

    /// Refuses unless the player at `position` is alive.
    pub fn ensure_alive(&self, position: Position) -> (r: Result<(), EngineError>)
        ensures
            match alive_check(self.game@.players, position) {
                None => r is Ok,
                Some(err) => r matches Err(e) && e@ == err,
            },
    {
        match self.game.player_by_position(position) {
            None => Err(EngineError::PlayerNotFound),
            Some(p) => if p.is_alive() {
                Ok(())
            } else {
                Err(EngineError::PlayerDead(position))
            },
        }
    }

    // ------------------------------
    // Guards
    // ------------------------------
    pub fn ensure_lobby(&self) -> (r: Result<(), EngineError>)
        ensures
            (self@.state is Lobby) == (r is Ok),
            r matches Err(e) ==> e@ == EngineErrorView::NotInLobby(self@.state),
    {
        match self.state {
            EngineState::Lobby(_) => Ok(()),
            other => Err(EngineError::NotInLobby(other)),
        }
    }

    pub fn ensure_lobby_waiting(&self) -> (r: Result<(), EngineError>)
        ensures
            (self@.state == EngineState::Lobby(LobbyStatus::Waiting)) == (r is Ok),
            r matches Err(e) ==> e@ == EngineErrorView::NotLobbyWaiting(self@.state),
    {
        match self.state {
            EngineState::Lobby(LobbyStatus::Waiting) => Ok(()),
            other => Err(EngineError::NotLobbyWaiting(other)),
        }
    }

    pub fn ensure_lobby_ready(&self) -> (r: Result<(), EngineError>)
        ensures
            (self@.state == EngineState::Lobby(LobbyStatus::Ready)) == (r is Ok),
            r matches Err(e) ==> e@ == EngineErrorView::NotLobbyReady(self@.state),
    {
        match self.state {
            EngineState::Lobby(LobbyStatus::Ready) => Ok(()),
            other => Err(EngineError::NotLobbyReady(other)),
        }
    }

    pub fn ensure_role_assignment(&self) -> (r: Result<(), EngineError>)
        ensures
            match phase_of(self@) {
                None => r matches Err(e) && e@ == EngineErrorView::NotInGame,
                Some(a) => if a == Activity::Night(NightActivity::RoleAssignment) {
                    r is Ok
                } else {
                    r matches Err(e) && e@ == EngineErrorView::NotRoleAssignment(a)
                },
            },
    {
        let phase = self.phase()?;
        match phase {
            Activity::Night(NightActivity::RoleAssignment) => Ok(()),
            other => Err(EngineError::NotRoleAssignment(other)),
        }
    }

    pub fn ensure_discussion(&self) -> (r: Result<(), EngineError>)
        ensures
            match phase_of(self@) {
                None => r matches Err(e) && e@ == EngineErrorView::NotInGame,
                Some(a) => if a == Activity::Noon(NoonActivity::Discussion) {
                    r is Ok
                } else {
                    r matches Err(e) && e@ == EngineErrorView::NotDiscussion(a)
                },
            },
    {
        let phase = self.phase()?;
        match phase {
            Activity::Noon(NoonActivity::Discussion) => Ok(()),
            other => Err(EngineError::NotDiscussion(other)),
        }
    }

    pub fn ensure_night(&self) -> (r: Result<(), EngineError>)
        ensures
            match phase_of(self@) {
                None => r matches Err(e) && e@ == EngineErrorView::NotInGame,
                Some(a) => if a is Night {
                    r is Ok
                } else {
                    r matches Err(e) && e@ == EngineErrorView::NotNight(a)
                },
            },
    {
        let phase = self.phase()?;
        match phase {
            Activity::Night(_) => Ok(()),
            other => Err(EngineError::NotNight(other)),
        }
    }

    pub fn ensure_morning(&self) -> (r: Result<(), EngineError>)
        ensures
            match phase_of(self@) {
                None => r matches Err(e) && e@ == EngineErrorView::NotInGame,
                Some(a) => if a is Morning {
                    r is Ok
                } else {
                    r matches Err(e) && e@ == EngineErrorView::NotMorning(a)
                },
            },
    {
        let phase = self.phase()?;
        match phase {
            Activity::Morning(_) => Ok(()),
            other => Err(EngineError::NotMorning(other)),
        }
    }

    pub fn ensure_noon(&self) -> (r: Result<(), EngineError>)
        ensures
            match phase_of(self@) {
                None => r matches Err(e) && e@ == EngineErrorView::NotInGame,
                Some(a) => if a is Noon {
                    r is Ok
                } else {
                    r matches Err(e) && e@ == EngineErrorView::NotNoon(a)
                },
            },
    {
        let phase = self.phase()?;
        match phase {
            Activity::Noon(_) => Ok(()),
            other => Err(EngineError::NotNoon(other)),
        }
    }

    pub fn ensure_evening(&self) -> (r: Result<(), EngineError>)
        ensures
            match phase_of(self@) {
                None => r matches Err(e) && e@ == EngineErrorView::NotInGame,
                Some(a) => if a is Evening {
                    r is Ok
                } else {
                    r matches Err(e) && e@ == EngineErrorView::NotEvening(crate::domain::phase::daytime_of(a))
                },
            },
    {
        let phase = self.phase()?;
        let day = phase.daytime();
        match day {
            Day::Evening => Ok(()),
            other => Err(EngineError::NotEvening(other)),
        }
    }

    /// Refuses unless the running activity belongs to the `expected` part of the day.
    pub fn ensure_phase(&self, expected: Day) -> (r: Result<(), EngineError>)
        ensures
            match phase_of(self@) {
                None => r matches Err(e) && e@ == EngineErrorView::NotInGame,
                Some(a) => if crate::domain::phase::daytime_of(a) == expected {
                    r is Ok
                } else {
                    r matches Err(e) && e@ == EngineErrorView::WrongPhase { expected, current: a }
                },
            },
    {
        let phase = self.phase()?;
        if phase.daytime() != expected {
            return Err(EngineError::WrongPhase { expected, current: phase });
        }
        Ok(())
    }

    /// Refuses unless it is the Don's check and the Don sits at `position`.
    pub fn ensure_don_check(&self, position: Position) -> (r: Result<(), EngineError>)
        requires
            phase_of(self@) == Some(Activity::Night(NightActivity::DonCheck)) ==> (
            game::index_with_role(self.game@.players, crate::domain::Role::Don) matches Some(i)
                && self.game@.players[i].position is Some),
        ensures
            match phase_of(self@) {
                None => r matches Err(e) && e@ == EngineErrorView::NotInGame,
                Some(a) => if a == Activity::Night(NightActivity::DonCheck) {
                    let i = game::index_with_role(self.game@.players, crate::domain::Role::Don).unwrap();
                    if self.game@.players[i].position == Some(position) {
                        r is Ok
                    } else {
                        r matches Err(e) && e@ == EngineErrorView::NotDon(position)
                    }
                } else {
                    r matches Err(e) && e@ == EngineErrorView::NotDonCheck(a)
                },
            },
    {
        let phase = self.phase()?;
        match phase {
            Activity::Night(NightActivity::DonCheck) => {
                let by = self.game.don().unwrap();
                if by.position().unwrap() != position {
                    return Err(EngineError::NotDon(position));
                }
                Ok(())
            },
            other => Err(EngineError::NotDonCheck(other)),
        }
    }

    /// Refuses unless it is the Sheriff's check and the Sheriff sits at `position`.
    pub fn ensure_sheriff_check(&self, position: Position) -> (r: Result<(), EngineError>)
        requires
            phase_of(self@) == Some(Activity::Night(NightActivity::SheriffCheck)) ==> (
            game::index_with_role(self.game@.players, crate::domain::Role::Sheriff) matches Some(i)
                && self.game@.players[i].position is Some),
        ensures
            match phase_of(self@) {
                None => r matches Err(e) && e@ == EngineErrorView::NotInGame,
                Some(a) => if a == Activity::Night(NightActivity::SheriffCheck) {
                    let i = game::index_with_role(self.game@.players, crate::domain::Role::Sheriff).unwrap();
                    if self.game@.players[i].position == Some(position) {
                        r is Ok
                    } else {
                        r matches Err(e) && e@ == EngineErrorView::NotSheriff(position)
                    }
                } else {
                    r matches Err(e) && e@ == EngineErrorView::NotSheriffCheck(a)
                },
            },
    {
        let phase = self.phase()?;
        match phase {
            Activity::Night(NightActivity::SheriffCheck) => {
                let by = self.game.sheriff().unwrap();
                if by.position().unwrap() != position {
                    return Err(EngineError::NotSheriff(position));
                }
                Ok(())
            },
            other => Err(EngineError::NotSheriffCheck(other)),
        }
    }
}

} // verus!
