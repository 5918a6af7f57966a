use vstd::prelude::*;

use super::lobby::LobbyStatus;
use super::phase::Activity;

verus! {

/// The engine is either gathering players or running a game.
#[derive(Debug, Clone, Copy, PartialEq, Eq, Structural)]
pub enum EngineState {
    Lobby(LobbyStatus),
    Game(Activity),
}

} // verus!
