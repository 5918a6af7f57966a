//! Lobby requests applied to the engine's game record.
use vstd::prelude::*;

use crate::action::engine::EngineAction;
use crate::domain::{EngineState, LobbyStatus};
use crate::engine::game::{self, GameView, PlayerOp, index_named, op_outcome};
use crate::engine::{Engine, EngineView};

verus! {

/// Why a lobby request was refused.
#[derive(Debug, Clone)]
pub enum ReduceError {
    /// Nobody of that name is at the table.
    PlayerNotFound,
    /// The named player has no seat.
    NoPosition(String),
    /// The game record refused.
    Game(game::Error),
}

/// Whether a request left the seat pool with one free seat in a full lobby,
/// reopening it.
pub open spec fn reopened(e: EngineView, g: GameView) -> EngineState {
    if e.state == EngineState::Lobby(LobbyStatus::Ready) && g.positions_pool.len() == 1 {
        EngineState::Lobby(LobbyStatus::Waiting)
    } else {
        e.state
    }
}

/// The engine after the player called `name` gave back their seat and left
/// the table, if they were seated.
pub open spec fn left(e: EngineView, name: Seq<char>) -> Option<EngineView> {
    match index_named(e.game.players, name) {
        None => None,
        Some(i) => match e.game.players[i].position {
            None => None,
            Some(p) => {
                let pool = e.game.positions_pool;
                let g = GameView {
                    players: e.game.players.remove(i),
                    positions_pool: if pool.contains(p) {
                        pool
                    } else {
                        pool.push(p)
                    },
                    ..e.game
                };
                Some(EngineView { game: g, state: reopened(e, g), ..e })
            },
        },
    }
}

/// Seat and role are taken back from the player called `name`; gives the
/// player's events.
pub fn revoke_position(state: &mut Engine, name: &str) -> (r: Result<Vec<game::Event>, ReduceError>)
    requires
        old(state).wf(),
    ensures
        final(state).wf(),
        match index_named(old(state)@.game.players, name@) {
            None => (r matches Err(ReduceError::PlayerNotFound)) && final(state)@ == old(state)@,
            Some(i) => match old(state)@.game.players[i].position {
                None => (r matches Err(ReduceError::NoPosition(n)) && n@ == name@) && final(state)@ == old(state)@,
                Some(p) => r is Ok && final(state)@ == (EngineView {
                    game: GameView {
                        players: old(state)@.game.players.update(
                            i,
                            op_outcome(PlayerOp::RevokePosition, old(state)@.game.players[i]).0,
                        ),
                        positions_pool: if old(state)@.game.positions_pool.contains(p) {
                            old(state)@.game.positions_pool
                        } else {
                            old(state)@.game.positions_pool.push(p)
                        },
                        ..old(state)@.game
                    },
                    ..old(state)@
                }),
            },
        },
{
    let owned: String = name.to_owned();
    let i = match state.game.index_by_name(&owned) {
        Some(i) => i,
        None => return Err(ReduceError::PlayerNotFound),
    };
    let position = match state.game.player_at(i).position() {
        Some(p) => p,
        None => return Err(ReduceError::NoPosition(owned)),
    };
    let mut events = match state.game.apply_to_player(i, PlayerOp::RevokePosition) {
        Ok(events) => events,
        Err(e) => return Err(ReduceError::Game(game::Error::Player(e))),
    };
    state.game.return_position(position);
    let mut out: Vec<game::Event> = Vec::new();
    while events.len() > 0
        decreases events.len(),
    {
        let ev = events.remove(0);
        out.push(game::Event::Player(ev));
    }
    Ok(out)
}

/// A lobby request: a join adds the player to the game record; a leave
/// takes the seat back, removes the player, and reopens a full lobby.
pub fn reduce(state: &mut Engine, action: EngineAction) -> (r: Result<Vec<game::Event>, ReduceError>)
    requires
        old(state).wf(),
    ensures
        final(state).wf(),
        match action {
            EngineAction::Join { name } => final(state)@ == (EngineView {
                game: crate::engine::lobby::after_add_player(old(state)@.game, name@),
                ..old(state)@
            }) && (r is Ok <==> (name@.len() > 0 && index_named(old(state)@.game.players, name@) is None
                && old(state)@.game.players.len() < game::PLAYER_COUNT)),
            EngineAction::Leave { name } => match left(old(state)@, name@) {
                Some(e2) => final(state)@ == e2 && (r matches Ok(events) && events.len() == 1 && (
                events[0] matches game::Event::PlayerLeft { name: n } && n@ == name@)),
                None => r is Err && final(state)@ == old(state)@,
            },
        },
{
    match action {
        EngineAction::Join { name } => join(state, name.as_str()),
        EngineAction::Leave { name } => leave(state, name.as_str()),
    }
}

/// Adds a player to the game record.
fn join(state: &mut Engine, name: &str) -> (r: Result<Vec<game::Event>, ReduceError>)
    requires
        old(state).wf(),
    ensures
        final(state).wf(),
        final(state)@ == (EngineView {
            game: crate::engine::lobby::after_add_player(old(state)@.game, name@),
            ..old(state)@
        }),
        r is Ok <==> (name@.len() > 0 && index_named(old(state)@.game.players, name@) is None && old(
            state,
        )@.game.players.len() < game::PLAYER_COUNT),
{
    match state.game.add_player(name) {
        Ok(events) => Ok(events),
        Err(e) => Err(ReduceError::Game(e)),
    }
}

/// Takes the seat back from the player called `name`, removes the player,
/// and reopens a full lobby.
fn leave(state: &mut Engine, name: &str) -> (r: Result<Vec<game::Event>, ReduceError>)
    requires
        old(state).wf(),
    ensures
        final(state).wf(),
        match left(old(state)@, name@) {
            Some(e2) => final(state)@ == e2 && (r matches Ok(events) && events.len() == 1 && (
            events[0] matches game::Event::PlayerLeft { name: n } && n@ == name@)),
            None => r is Err && final(state)@ == old(state)@,
        },
{
    let _ = revoke_position(state, name)?;
    let ghost mid = state@;
    proof {
        let i = index_named(old(state)@.game.players, name@).unwrap();
        let ps = state@.game.players;
        let f = game::is_named(name@);
        crate::seqs::lemma_first_match(old(state)@.game.players, f);
        assert(f(ps[i]));
        assert forall|j: int| 0 <= j < i implies !f(#[trigger] ps[j]) by {
            assert(ps[j] == old(state)@.game.players[j]);
        }
        crate::seqs::lemma_first_match_at(ps, f, i);
    }
    let res = state.game.remove_player(name);
    proof {
        let i = index_named(old(state)@.game.players, name@).unwrap();
        assert(state@.game.players =~= old(state)@.game.players.remove(i));
    }
    let events = match res {
        Ok(ev) => ev,
        Err(e) => return Err(ReduceError::Game(e)),
    };
    if state.state == EngineState::Lobby(LobbyStatus::Ready) && state.game.available_positions().len() == 1 {
        state.state = EngineState::Lobby(LobbyStatus::Waiting);
    }
    let owned: String = name.to_owned();
    Ok(vec![game::Event::PlayerLeft { name: owned }])
}

} // verus!
