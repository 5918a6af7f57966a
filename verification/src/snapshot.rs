use vstd::prelude::*;

use std::collections::HashMap;

use crate::app::input::InputMode;
use crate::domain::{Activity, EngineState, Position, Role, Status};

verus! {

/// A plain copy of a value's state, for showing or saving it.
pub trait Snapshot {
    type Output;

    fn snapshot(&self) -> Self::Output;
}

/// A player as shown: name, seat, role, warnings and status.
#[derive(Clone, Debug)]
pub struct Player {
    pub name: String,
    pub position: Option<Position>,
    pub role: Option<Role>,
    pub warnings: u8,
    pub status: Status,
}

/// The abstract state of a [`Player`] snapshot.
pub struct PlayerView {
    pub name: Seq<char>,
    pub position: Option<Position>,
    pub role: Option<Role>,
    pub warnings: u8,
    pub status: Status,
}

impl View for Player {
    type V = PlayerView;

    open spec fn view(&self) -> PlayerView {
        PlayerView {
            name: self.name@,
            position: self.position,
            role: self.role,
            warnings: self.warnings,
            status: self.status,
        }
    }
}

/// The seats checked by the Sheriff and by the Don in one night.
#[derive(Clone, Copy, Default, Debug, PartialEq, Eq, Structural)]
pub struct Check {
    pub sheriff: Option<Position>,
    pub don: Option<Position>,
}

/// The nominations, nominees and votes of one voting, keyed by seat number.
#[derive(Default, Clone, Debug)]
pub struct Voting {
    pub nominations: HashMap<u8, Position>,
    pub nominees: Vec<Position>,
    pub votes: HashMap<u8, Vec<Position>>,
}

/// The abstract state of a [`Voting`] snapshot.
pub struct VotingView {
    pub nominations: Map<u8, Position>,
    pub nominees: Seq<Position>,
    pub votes: Map<u8, Seq<Position>>,
}

impl View for Voting {
    type V = VotingView;

    open spec fn view(&self) -> VotingView {
        VotingView {
            nominations: self.nominations@,
            nominees: self.nominees@,
            votes: self.votes@.map_values(|l: Vec<Position>| l@),
        }
    }
}

/// What happened in a round: its voting, the night's shot and checks, and
/// who left the table.
#[derive(Clone, Debug)]
pub struct Round {
    pub voting: Voting,
    pub mafia_kill: Option<Position>,
    pub sheriff_check: Option<Position>,
    pub don_check: Option<Position>,
    pub eliminated: Vec<Position>,
    pub removed: Vec<Position>,
}

/// The record of a game, its maps keyed by day number.
#[derive(Clone, Debug)]
pub struct Game {
    pub players: Vec<Player>,
    pub kill: HashMap<usize, Position>,
    pub voting: HashMap<usize, Voting>,
    pub tie_voting: HashMap<usize, Voting>,
    pub final_voting: HashMap<usize, Vec<Position>>,
    pub check: HashMap<usize, Check>,
}

/// The abstract state of a [`Game`] snapshot.
pub struct GameView {
    pub players: Seq<PlayerView>,
    pub kill: Map<usize, Position>,
    pub voting: Map<usize, VotingView>,
    pub tie_voting: Map<usize, VotingView>,
    pub final_voting: Map<usize, Seq<Position>>,
    pub check: Map<usize, Check>,
}

impl View for Game {
    type V = GameView;

    open spec fn view(&self) -> GameView {
        GameView {
            players: self.players@.map_values(|p: Player| p@),
            kill: self.kill@,
            voting: self.voting@.map_values(|v: Voting| v@),
            tie_voting: self.tie_voting@.map_values(|v: Voting| v@),
            final_voting: self.final_voting@.map_values(|l: Vec<Position>| l@),
            check: self.check@,
        }
    }
}

/// The engine as shown: the game, the phase while a game runs, the day, the
/// state and the player whose turn it is.
#[derive(Clone, Debug)]
pub struct Engine {
    pub game: Game,
    pub phase: Option<Activity>,
    pub day: usize,
    pub state: EngineState,
    pub actor: Option<Position>,
}

/// The application as shown: the engine, the typed input and the timer.
#[derive(Clone, Debug)]
pub struct App {
    pub engine: Engine,
    pub input: String,
    pub input_mode: InputMode,
    pub current_timer: Option<u64>,
}

} // verus!
