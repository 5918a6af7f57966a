use vstd::prelude::*;

use super::game::player::PlayerView;
use super::game::{
    self, GameView, PlayerOp, player::fresh_player, index_named, op_outcome, player_key, seat_index,
};
use super::{
    Engine, EngineError, EngineErrorView, EngineView, Event, Outcome, first_alive_from, first_speaker,
    refused, result_view, seat_alive,
};
use crate::domain::{Activity, EngineState, LobbyStatus, NightActivity, Position};
use crate::engine::events::EventView;
use crate::engine::game::actor::ActorView;
use crate::random::choose_from;
use crate::seqs::{bucket_concat, lemma_first_match, lemma_found_buckets};

verus! {

/// The game after `add_player(name)`, whether it succeeded or not.
pub open spec fn after_add_player(g: GameView, name: Seq<char>) -> GameView {
    if name.len() == 0 || index_named(g.players, name) is Some || g.players.len()
        >= game::PLAYER_COUNT {
        g
    } else {
        GameView { players: g.players.push(fresh_player(name)), ..g }
    }
}

/// The rest of a join once the seat `pick` was drawn: find the player
/// called `name`, take the seat from the pool, give it to them, and close
/// the lobby when no seat is left. A join that cannot seat anyone takes no
/// seat.
pub open spec fn seat_outcome(e: EngineView, name: Seq<char>, pick: Option<Position>) -> Outcome {
    if e.state != EngineState::Lobby(LobbyStatus::Waiting) {
        refused(e, EngineErrorView::NotLobbyWaiting(e.state))
    } else {
        match pick {
            None => refused(e, EngineErrorView::NoAvailableSeats),
            Some(p) => match index_named(e.game.players, name) {
                None => refused(e, EngineErrorView::PlayerNotFound),
                Some(j) => match seat_index(e.game.positions_pool, p) {
                    None => refused(e, EngineErrorView::NoAvailableSeats),
                    Some(k) => {
                        let g2 = GameView {
                            positions_pool: e.game.positions_pool.remove(k),
                            players: e.game.players.update(
                                j,
                                op_outcome(PlayerOp::AssignPosition(p), e.game.players[j]).0,
                            ),
                            ..e.game
                        };
                        (
                            EngineView {
                                game: g2,
                                state: if g2.positions_pool.len() == 0 {
                                    EngineState::Lobby(LobbyStatus::Ready)
                                } else {
                                    e.state
                                },
                                ..e
                            },
                            Ok(seq![EventView::PlayerJoined { name }]),
                        )
                    },
                },
            },
        }
    }
}

/// A join: in a waiting lobby, add the player (an empty name, a name
/// already taken or a full table is refused with the game record's error,
/// and nothing changes), then seat them at the drawn seat.
pub open spec fn join_outcome(e: EngineView, name: Seq<char>, pick: Option<Position>) -> Outcome {
    if e.state != EngineState::Lobby(LobbyStatus::Waiting) {
        refused(e, EngineErrorView::NotLobbyWaiting(e.state))
    } else {
        match game::add_player_error(e.game, name) {
            Some(err) => refused(e, EngineErrorView::Game(err)),
            None => seat_outcome(EngineView { game: after_add_player(e.game, name), ..e }, name, pick),
        }
    }
}

/// Some draw `choose_from` can make from `pool`.
pub open spec fn any_pick<T>(pool: Seq<T>) -> Option<T> {
    if pool.len() == 0 {
        None
    } else {
        Some(pool[0])
    }
}

/// Whether `pick` is a draw `choose_from` can make from `pool`.
pub open spec fn valid_pick<T>(pool: Seq<T>, pick: Option<T>) -> bool {
    &&& (pool.len() == 0 <==> pick is None)
    &&& (pick matches Some(x) ==> pool.contains(x))
}

/// A leave: in the lobby, take the seat back from the player called `name`,
/// remove the player, and reopen a full lobby.
pub open spec fn leave_outcome(e: EngineView, name: Seq<char>) -> Outcome {
    if !(e.state is Lobby) {
        refused(e, EngineErrorView::NotInLobby(e.state))
    } else {
        match index_named(e.game.players, name) {
            None => refused(e, EngineErrorView::PlayerNotFound),
            Some(i) => match e.game.players[i].position {
                None => refused(e, EngineErrorView::NoPosition(name)),
                Some(p) => {
                    let pool = e.game.positions_pool;
                    let g = GameView {
                        players: e.game.players.remove(i),
                        positions_pool: if pool.contains(p) {
                            pool
                        } else {
                            pool.push(p)
                        },
                        ..e.game
                    };
                    (
                        EngineView {
                            game: g,
                            state: if e.state == EngineState::Lobby(LobbyStatus::Ready)
                                && g.positions_pool.len() == 1 {
                                EngineState::Lobby(LobbyStatus::Waiting)
                            } else {
                                e.state
                            },
                            ..e
                        },
                        Ok(seq![EventView::PlayerLeft { name }]),
                    )
                },
            },
        }
    }
}

/// The players sorted by seat, unseated players first.
pub open spec fn seated_in_order(players: Seq<PlayerView>) -> Seq<PlayerView> {
    bucket_concat(players, |p: PlayerView| player_key(p), 257)
}

/// Sorting the players by seat keeps who is found at each seat.
proof fn lemma_sorting_keeps_seat_alive(players: Seq<PlayerView>, pos: Position)
    ensures
        seat_alive(seated_in_order(players), pos) == seat_alive(players, pos),
{
    let f = game::sits_at(pos);
    let key = |p: PlayerView| player_key(p);
    assert forall|x: PlayerView| #[trigger] f(x) implies key(x) == (pos.0 + 1) as nat by {}
    lemma_found_buckets(players, key, 257, f, (pos.0 + 1) as nat);
    let sorted = seated_in_order(players);
    lemma_first_match(sorted, f);
    lemma_first_match(players, f);
}

/// Two tables alive at the same seats give the same walk for a first speaker.
proof fn lemma_first_alive_from_agree(a: Seq<PlayerView>, b: Seq<PlayerView>, start: int, offset: int)
    requires
        forall|pos: Position| #[trigger] seat_alive(a, pos) == seat_alive(b, pos),
    ensures
        first_alive_from(a, start, offset) == first_alive_from(b, start, offset),
    decreases 10 - offset,
{
    if 0 <= offset < 10 {
        lemma_first_alive_from_agree(a, b, start, offset + 1);
    }
}

/// Seating the players in seat order does not change who speaks first.
pub proof fn lemma_sorting_keeps_first_speaker(players: Seq<PlayerView>, day: usize)
    ensures
        first_speaker(seated_in_order(players), day) == first_speaker(players, day),
{
    let sorted = seated_in_order(players);
    assert forall|pos: Position| #[trigger] seat_alive(sorted, pos) == seat_alive(players, pos) by {
        lemma_sorting_keeps_seat_alive(players, pos);
    }
    lemma_first_alive_from_agree(sorted, players, (day % 10) as int + 1, 0);
}

/// Whether starting the game is defined: a full lobby must have someone
/// alive to speak first.
pub open spec fn start_defined(e: EngineView) -> bool {
    e.state == EngineState::Lobby(LobbyStatus::Ready) ==> first_speaker(e.game.players, e.day) is Some
}

/// A start: in a full lobby, sort the players by seat and open the night of
/// role assignment with the first speaker of the day.
pub open spec fn start_outcome(e: EngineView) -> Outcome {
    if e.state != EngineState::Lobby(LobbyStatus::Ready) {
        refused(e, EngineErrorView::NotLobbyReady(e.state))
    } else {
        let ps = seated_in_order(e.game.players);
        (
            EngineView {
                game: GameView { players: ps, ..e.game },
                state: EngineState::Game(Activity::Night(NightActivity::RoleAssignment)),
                actor: ActorView {
                    start: first_speaker(ps, e.day).unwrap(),
                    current: None,
                    completed: false,
                },
                ..e
            },
            Ok(seq![EventView::GameStarted]),
        )
    }
}

/// A started game has its players in seat order, players without a seat
/// first.
pub proof fn lemma_start_sorts_players_by_seat(e: EngineView)
    requires
        start_outcome(e).1 is Ok,
    ensures
        crate::seqs::sorted_by(start_outcome(e).0.game.players, |p: PlayerView| player_key(p)),
{
    crate::seqs::lemma_bucket_concat_sorted(e.game.players, |p: PlayerView| player_key(p), 257);
}

impl Engine {
    /// Joins a player: adds them and seats them at a random free seat.
    pub fn join(&mut self, name: &str) -> (r: Result<Vec<Event>, EngineError>)
        requires
            old(self).wf(),
        ensures
            final(self).wf(),
            exists|pick: Option<Position>|
                valid_pick(after_add_player(old(self)@.game, name@).positions_pool, pick) && (
                final(self)@,
                result_view(r),
            ) == #[trigger] join_outcome(old(self)@, name@, pick),
    {
        match self.ensure_lobby_waiting() {
            Ok(()) => {},
            Err(e) => {
                proof {
                    let w = any_pick(after_add_player(old(self)@.game, name@).positions_pool);
                    assert((self@, result_view(Err::<Vec<Event>, EngineError>(e))) == join_outcome(old(self)@, name@, w));
                }
                return Err(e);
            },
        }
        match self.game.add_player(name) {
            Ok(_) => {},
            Err(err) => {
                proof {
                    let w = any_pick(after_add_player(old(self)@.game, name@).positions_pool);
                    assert((self@, result_view(Err::<Vec<Event>, EngineError>(EngineError::Game(err)))) == join_outcome(old(self)@, name@, w));
                }
                return Err(EngineError::Game(err));
            },
        }
        assert(self@ == EngineView { game: after_add_player(old(self)@.game, name@), ..old(self)@ });
        let pick = choose_from(self.game.available_positions());
        let r = self.seat_joined(name, pick);
        assert(valid_pick(after_add_player(old(self)@.game, name@).positions_pool, pick));
        assert((self@, result_view(r)) == join_outcome(old(self)@, name@, pick));
        r
    }

    /// The rest of a join once the seat `pick` was drawn.
    pub fn seat_joined(&mut self, name: &str, pick: Option<Position>) -> (r: Result<Vec<Event>, EngineError>)
        requires
            old(self).wf(),
        ensures
            final(self).wf(),
            (final(self)@, result_view(r)) == seat_outcome(old(self)@, name@, pick),
    {
        self.ensure_lobby_waiting()?;
        let position = match pick {
            Some(p) => p,
            None => return Err(EngineError::NoAvailableSeats),
        };
        let owned: String = name.to_owned();
        let i = match self.game.index_by_name(&owned) {
            Some(i) => i,
            None => return Err(EngineError::PlayerNotFound),
        };
        match self.game.take_position(position) {
            Ok(()) => {},
            Err(_) => return Err(EngineError::NoAvailableSeats),
        }
        let _ = self.game.apply_to_player(i, PlayerOp::AssignPosition(position));
        if self.game.available_positions().len() == 0 {
            self.state = EngineState::Lobby(LobbyStatus::Ready);
        }
        let events = vec![Event::PlayerJoined { name: owned }];
        assert(crate::engine::events::events_view(events@) =~= seq![EventView::PlayerJoined { name: name@ }]);
        Ok(events)
    }

    /// Takes a player's seat back into the pool.
    pub fn leave(&mut self, name: &str) -> (r: Result<Vec<Event>, EngineError>)
        requires
            old(self).wf(),
        ensures
            final(self).wf(),
            (final(self)@, result_view(r)) == leave_outcome(old(self)@, name@),
    {
        self.ensure_lobby()?;
        let owned: String = name.to_owned();
        let i = match self.game.index_by_name(&owned) {
            Some(i) => i,
            None => return Err(EngineError::PlayerNotFound),
        };
        let position = match self.game.player_at(i).position() {
            Some(p) => p,
            None => return Err(EngineError::NoPosition(owned)),
        };
        let _ = self.game.apply_to_player(i, PlayerOp::RevokePosition);
        self.game.return_position(position);
        proof {
            let ps = self.game@.players;
            let f = game::is_named(name@);
            crate::seqs::lemma_first_match(old(self)@.game.players, f);
            assert(f(ps[i as int]));
            assert forall|j: int| 0 <= j < i implies !f(#[trigger] ps[j]) by {
                assert(ps[j] == old(self)@.game.players[j]);
            }
            crate::seqs::lemma_first_match_at(ps, f, i as int);
        }
        let _ = self.game.remove_player(name);
        proof {
            assert(self.game@.players =~= old(self)@.game.players.remove(i as int));
        }
        if self.state == EngineState::Lobby(LobbyStatus::Ready) && self.game.available_positions().len() == 1 {
            self.state = EngineState::Lobby(LobbyStatus::Waiting);
        }
        let events = vec![Event::PlayerLeft { name: owned }];
        assert(crate::engine::events::events_view(events@) =~= seq![EventView::PlayerLeft { name: name@ }]);
        Ok(events)
    }

    /// Starts the game: players sit in seat order and roles are dealt.
    pub fn start(&mut self) -> (r: Result<Vec<Event>, EngineError>)
        requires
            old(self).wf(),
            start_defined(old(self)@),
        ensures
            final(self).wf(),
            (final(self)@, result_view(r)) == start_outcome(old(self)@),
    {
        self.ensure_lobby_ready()?;
        proof {
            lemma_sorting_keeps_first_speaker(self.game@.players, self.day.0);
        }
        self.game.sort_players_by_position();
        self.state = EngineState::Game(Activity::Night(NightActivity::RoleAssignment));
        let first = self.first_speaker_of_day();
        self.actor.reset(first);
        let events = vec![Event::GameStarted];
        assert(crate::engine::events::events_view(events@) =~= seq![EventView::GameStarted]);
        Ok(events)
    }
}

} // verus!
