pub mod actor;
pub mod nomination;
pub mod phase;
pub mod player;
pub mod role;
pub mod round;
pub mod table;
pub mod vote;

use vstd::prelude::*;

use std::collections::HashMap;

use self::actor::{Actor, ActorView};
use self::phase::Phase;
use self::player::{LifeStatus, Player, PlayerView, pardoned, warned};
use self::role::Role;
use self::round::{Round, RoundId, RoundView, fresh_round};
use self::round::voting::{with_nomination, with_vote};
use self::table::chair::Chair;
use self::table::{Table, TableView, empty_player, is_chair, is_role, named};
use crate::seqs::first_match;

verus! {

broadcast use vstd::std_specs::hash::group_hash_axioms;

/// Why the game state refused a request.
#[derive(Debug, Clone, Copy, PartialEq, Eq, Structural)]
pub enum StateError {
    PlayerNotFound(Chair),
    NoAvailableSeats,
    NoAvailableRoles,
    InvalidChair,
}

/// Game state: the table, the phase, the rounds played, and whose turn it is.
#[derive(Debug)]
pub struct State {
    pub table: Table,
    pub phase: Phase,
    pub rounds: HashMap<usize, Round>,
    pub current_round: RoundId,
    pub actor: Actor,
}

/// The abstract state of a [`State`].
pub struct StateView {
    pub table: TableView,
    pub phase: Phase,
    pub rounds: Map<usize, RoundView>,
    pub current_round: usize,
    pub actor: ActorView,
}

impl View for State {
    type V = StateView;

    open spec fn view(&self) -> StateView {
        StateView {
            table: self.table@,
            phase: self.phase,
            rounds: self.rounds@.map_values(|r: Round| r@),
            current_round: self.current_round.0,
            actor: self.actor@,
        }
    }
}

/// The current round, or a fresh one when it has not started yet.
pub open spec fn round_or_fresh(s: StateView) -> RoundView {
    if s.rounds.contains_key(s.current_round) {
        s.rounds[s.current_round]
    } else {
        fresh_round()
    }
}

/// The state with the player on `chair` replaced.
pub open spec fn with_player(s: StateView, chair: Chair, p: PlayerView) -> StateView {
    StateView { table: TableView { seats: s.table.seats.update(chair@ - 1, p), ..s.table }, ..s }
}

/// The state with the current round replaced.
pub open spec fn with_round(s: StateView, r: RoundView) -> StateView {
    StateView { rounds: s.rounds.insert(s.current_round, r), ..s }
}

/// Replacing a round and then viewing the rounds is viewing them and then
/// replacing the round's view.
proof fn lemma_rounds_insert(m: Map<usize, Round>, k: usize, r: Round)
    ensures
        m.insert(k, r).map_values(|x: Round| x@) == m.map_values(|x: Round| x@).insert(k, r@),
{
    assert(m.insert(k, r).map_values(|x: Round| x@) =~= m.map_values(|x: Round| x@).insert(k, r@));
}

impl State {
    /// A consistent state: a table of ten chairs.
    pub open spec fn wf(&self) -> bool {
        self.table.wf()
    }

    /// A fresh game in the lobby, the turn starting at chair 1.
    pub fn new() -> (s: State)
        ensures
            s.wf(),
            s@.phase == Phase::Lobby,
            s@.rounds == Map::<usize, RoundView>::empty(),
            s@.current_round == 0,
            s@.actor.start@ == 1,
            s@.actor.current is None,
            !s@.actor.completed,
            s@.table.seats == Seq::new(10, |k: int| empty_player()),
            s@.table.available_roles == table::table_roles(),
    {
        let table = Table::new();
        let first = table.chair(1).unwrap();
        let s = State {
            table,
            phase: Phase::Lobby,
            rounds: HashMap::new(),
            current_round: RoundId(0),
            actor: Actor::new(first),
        };
        assert(s@.rounds =~= Map::<usize, RoundView>::empty());
        s
    }

    pub fn phase(&self) -> (p: Phase)
        ensures
            p == self@.phase,
    {
        self.phase
    }

    pub fn set_phase(&mut self, phase: Phase)
        ensures
            final(self)@ == (StateView { phase, ..old(self)@ }),
    {
        self.phase = phase;
    }

    pub fn available_roles(&self) -> (s: &[Role])
        ensures
            s@ == self@.table.available_roles,
    {
        self.table.available_roles()
    }

    pub fn available_seats(&self) -> (s: &[Chair])
        ensures
            s@ == self@.table.available_seats,
    {
        self.table.available_seats()
    }

    /// Takes a role from the pool.
    pub fn take_role(&mut self, role: Role) -> (r: Result<(), StateError>)
        ensures
            match first_match(old(self)@.table.available_roles, is_role(role)) {
                Some(k) => r is Ok && final(self)@ == (StateView {
                    table: TableView {
                        available_roles: old(self)@.table.available_roles.remove(k),
                        ..old(self)@.table
                    },
                    ..old(self)@
                }),
                None => r == Err::<(), StateError>(StateError::NoAvailableRoles) && final(self)@ == old(self)@,
            },
    {
        match self.table.take_role(role) {
            Ok(()) => Ok(()),
            Err(_) => Err(StateError::NoAvailableRoles),
        }
    }

    pub fn return_role(&mut self, role: Role)
        ensures
            final(self)@ == (StateView {
                table: TableView { available_roles: old(self)@.table.available_roles.push(role), ..old(self)@.table },
                ..old(self)@
            }),
    {
        self.table.return_role(role)
    }

    /// Takes a chair from the free ones.
    pub fn take_seat(&mut self, chair: Chair) -> (r: Result<(), StateError>)
        ensures
            match first_match(old(self)@.table.available_seats, is_chair(chair)) {
                Some(k) => r is Ok && final(self)@ == (StateView {
                    table: TableView {
                        available_seats: old(self)@.table.available_seats.remove(k),
                        ..old(self)@.table
                    },
                    ..old(self)@
                }),
                None => r == Err::<(), StateError>(StateError::NoAvailableSeats) && final(self)@ == old(self)@,
            },
    {
        match self.table.take_seat(chair) {
            Ok(()) => Ok(()),
            Err(_) => Err(StateError::NoAvailableSeats),
        }
    }

    pub fn return_seat(&mut self, chair: Chair)
        ensures
            final(self)@ == (StateView {
                table: TableView {
                    available_seats: if old(self)@.table.available_seats.contains(chair) {
                        old(self)@.table.available_seats
                    } else {
                        old(self)@.table.available_seats.push(chair)
                    },
                    ..old(self)@.table
                },
                ..old(self)@
            }),
    {
        self.table.return_seat(chair)
    }

    /// The player on a chair.
    pub fn player(&self, chair: Chair) -> (r: Result<&Player, StateError>)
        requires
            self.wf(),
        ensures
            r matches Ok(p) && p@ == self@.table.seats[chair@ - 1],
    {
        match self.table.get_player(&chair) {
            Ok(p) => Ok(p),
            Err(_) => Err(StateError::PlayerNotFound(chair)),
        }
    }

    /// The player on a chair, to be changed in place.
    pub fn player_mut(&mut self, chair: Chair) -> (r: Result<&mut Player, StateError>)
        requires
            old(self).wf(),
        ensures
            r is Ok,
            r.unwrap()@ == old(self)@.table.seats[chair@ - 1],
            final(self)@ == with_player(old(self)@, chair, final(r.unwrap())@),
    {
        match self.table.get_player_mut(&chair) {
            Ok(p) => Ok(p),
            Err(_) => Err(StateError::PlayerNotFound(chair)),
        }
    }

    /// The first chair, in seat order, of the player with the given name.
    pub fn chair_of_player(&self, name: &str) -> (r: Option<Chair>)
        requires
            self.wf(),
        ensures
            match first_match(self@.table.seats, named(name@)) {
                Some(k) => r matches Some(c) && c@ == k + 1,
                None => r is None,
            },
    {
        self.table.get_chair(name)
    }

    /// Seats a player on a chair.
    pub fn assign_player(&mut self, chair: Chair, player: Player) -> (r: Result<(), StateError>)
        requires
            old(self).wf(),
        ensures
            final(self).wf(),
            r is Ok,
            final(self)@ == with_player(old(self)@, chair, player@),
    {
        match self.table.seat_player(chair, player) {
            Ok(()) => Ok(()),
            Err(_) => Err(StateError::InvalidChair),
        }
    }

    /// Empties a chair.
    pub fn remove_player(&mut self, chair: Chair) -> (r: Result<(), StateError>)
        requires
            old(self).wf(),
        ensures
            final(self).wf(),
            r is Ok,
            final(self)@ == with_player(old(self)@, chair, empty_player()),
    {
        self.player(chair)?;
        let _ = self.table.clear_seat(chair);
        Ok(())
    }

    /// Adds a warning to the player on a chair and gives the new count; a
    /// removed player is refused.
    pub fn increment_player_warning(&mut self, chair: Chair) -> (r: Result<u8, StateError>)
        requires
            old(self).wf(),
            old(self)@.table.seats[chair@ - 1].life_status != LifeStatus::Removed
                ==> old(self)@.table.seats[chair@ - 1].warnings < 255,
        ensures
            final(self).wf(),
            ({
                let p = old(self)@.table.seats[chair@ - 1];
                if p.life_status == LifeStatus::Removed {
                    r == Err::<u8, StateError>(StateError::InvalidChair) && final(self)@ == old(self)@
                } else {
                    r == Ok::<u8, StateError>(warned(p).warnings) && final(self)@ == with_player(
                        old(self)@,
                        chair,
                        warned(p),
                    )
                }
            }),
    {
        let mut p = self.player(chair)?.duplicate();
        match p.increment_warning() {
            Ok(()) => {},
            Err(_) => return Err(StateError::InvalidChair),
        }
        let w = p.warnings();
        self.table.set_player(&chair, p);
        Ok(w)
    }

    /// Takes a warning back from the player on a chair and gives the new
    /// count; a player without warnings is refused.
    pub fn deincrement_player_warning(&mut self, chair: Chair) -> (r: Result<u8, StateError>)
        requires
            old(self).wf(),
        ensures
            final(self).wf(),
            ({
                let p = old(self)@.table.seats[chair@ - 1];
                if p.warnings == 0 {
                    r == Err::<u8, StateError>(StateError::InvalidChair) && final(self)@ == old(self)@
                } else {
                    r == Ok::<u8, StateError>(pardoned(p).warnings) && final(self)@ == with_player(
                        old(self)@,
                        chair,
                        pardoned(p),
                    )
                }
            }),
    {
        let mut p = self.player(chair)?.duplicate();
        match p.deincrement_warning() {
            Ok(()) => {},
            Err(_) => return Err(StateError::InvalidChair),
        }
        let w = p.warnings();
        self.table.set_player(&chair, p);
        Ok(w)
    }

    /// The current round, started fresh if it has not been yet.
    pub fn current_round_mut(&mut self) -> (r: &mut Round)
        ensures
            r@ == round_or_fresh(old(self)@),
            final(self).rounds@ == old(self).rounds@.insert(old(self).current_round.0, *final(r)),
            final(self).table == old(self).table,
            final(self).phase == old(self).phase,
            final(self).current_round == old(self).current_round,
            final(self).actor == old(self).actor,
    {
        self.rounds.entry(self.current_round.0).or_insert(Round::new())
    }

    /// Marks the player on a chair with `status` and records it in the current round.
    fn mark_player(&mut self, chair: Chair, status: LifeStatus) -> (r: Result<(), StateError>)
        requires
            old(self).wf(),
            status != LifeStatus::Alive,
        ensures
            final(self).wf(),
            r is Ok,
            ({
                let p = old(self)@.table.seats[chair@ - 1];
                let s1 = with_player(old(self)@, chair, PlayerView { life_status: status, ..p });
                let r0 = round_or_fresh(old(self)@);
                final(self)@ == with_round(
                    s1,
                    match status {
                        LifeStatus::Killed => RoundView { mafia_kill: Some(chair), ..r0 },
                        LifeStatus::Eliminated => RoundView { eliminated: r0.eliminated.push(chair), ..r0 },
                        _ => RoundView { removed: r0.removed.push(chair), ..r0 },
                    },
                )
            }),
    {
        let mut p = self.player(chair)?.duplicate();
        match status {
            LifeStatus::Killed => p.mark_killed(),
            LifeStatus::Eliminated => p.mark_eliminated(),
            _ => p.mark_removed(),
        }
        self.table.set_player(&chair, p);
        let ghost before = self.rounds@;
        let ghost k = self.current_round.0;
        let round = self.current_round_mut();
        match status {
            LifeStatus::Killed => round.record_mafia_kill(chair),
            LifeStatus::Eliminated => round.record_elimination(chair),
            _ => round.record_removal(chair),
        }
        proof {
            lemma_rounds_insert(before, k, self.rounds@[k]);
            assert(self.rounds@ == before.insert(k, self.rounds@[k]));
        }
        Ok(())
    }

    /// The player on a chair is shot; the current round records the shot.
    pub fn mark_player_killed(&mut self, chair: Chair) -> (r: Result<(), StateError>)
        requires
            old(self).wf(),
        ensures
            final(self).wf(),
            r is Ok,
            final(self)@ == with_round(
                with_player(
                    old(self)@,
                    chair,
                    PlayerView { life_status: LifeStatus::Killed, ..old(self)@.table.seats[chair@ - 1] },
                ),
                RoundView { mafia_kill: Some(chair), ..round_or_fresh(old(self)@) },
            ),
    {
        self.mark_player(chair, LifeStatus::Killed)
    }

    /// The player on a chair is voted out; the current round records it.
    pub fn mark_player_eliminated(&mut self, chair: Chair) -> (r: Result<(), StateError>)
        requires
            old(self).wf(),
        ensures
            final(self).wf(),
            r is Ok,
            final(self)@ == with_round(
                with_player(
                    old(self)@,
                    chair,
                    PlayerView { life_status: LifeStatus::Eliminated, ..old(self)@.table.seats[chair@ - 1] },
                ),
                RoundView {
                    eliminated: round_or_fresh(old(self)@).eliminated.push(chair),
                    ..round_or_fresh(old(self)@)
                },
            ),
    {
        self.mark_player(chair, LifeStatus::Eliminated)
    }

    /// The player on a chair is removed; the current round records it.
    pub fn mark_player_removed(&mut self, chair: Chair) -> (r: Result<(), StateError>)
        requires
            old(self).wf(),
        ensures
            final(self).wf(),
            r is Ok,
            final(self)@ == with_round(
                with_player(
                    old(self)@,
                    chair,
                    PlayerView { life_status: LifeStatus::Removed, ..old(self)@.table.seats[chair@ - 1] },
                ),
                RoundView {
                    removed: round_or_fresh(old(self)@).removed.push(chair),
                    ..round_or_fresh(old(self)@)
                },
            ),
    {
        self.mark_player(chair, LifeStatus::Removed)
    }

    /// Moves on to the next round, starting it fresh.
    pub fn start_new_round(&mut self)
        requires
            old(self)@.current_round < usize::MAX,
        ensures
            final(self)@ == (StateView {
                current_round: (old(self)@.current_round + 1) as usize,
                rounds: old(self)@.rounds.insert((old(self)@.current_round + 1) as usize, fresh_round()),
                ..old(self)@
            }),
    {
        self.current_round = self.current_round.next();
        let r = Round::new();
        let ghost rv = r@;
        self.rounds.insert(self.current_round.0, r);
        assert(self@.rounds =~= old(self)@.rounds.insert((old(self)@.current_round + 1) as usize, rv));
    }

    /// Records a nomination in the current round.
    pub fn add_nomination(&mut self, nominator: Chair, nominee: Chair) -> (r: Result<(), StateError>)
        ensures
            r is Ok,
            final(self)@ == with_round(
                old(self)@,
                RoundView {
                    voting: match round_or_fresh(old(self)@).voting {
                        Some(v) => Some(with_nomination(v, nominator, nominee)),
                        None => None,
                    },
                    ..round_or_fresh(old(self)@)
                },
            ),
    {
        let ghost before = self.rounds@;
        let ghost k = self.current_round.0;
        self.current_round_mut().record_nomination(nominator, nominee);
        proof {
            lemma_rounds_insert(before, k, self.rounds@[k]);
            assert(self.rounds@ == before.insert(k, self.rounds@[k]));
        }
        Ok(())
    }

    /// Records a vote in the current round.
    pub fn add_vote(&mut self, voter: Chair, nominee: Chair) -> (r: Result<(), StateError>)
        ensures
            r is Ok,
            final(self)@ == with_round(
                old(self)@,
                RoundView {
                    voting: match round_or_fresh(old(self)@).voting {
                        Some(v) => Some(with_vote(v, voter, nominee)),
                        None => None,
                    },
                    ..round_or_fresh(old(self)@)
                },
            ),
    {
        let ghost before = self.rounds@;
        let ghost k = self.current_round.0;
        self.current_round_mut().record_vote(voter, nominee);
        proof {
            lemma_rounds_insert(before, k, self.rounds@[k]);
            assert(self.rounds@ == before.insert(k, self.rounds@[k]));
        }
        Ok(())
    }
}

} // verus!
