use vstd::prelude::*;

use super::game::check::CheckView;
use super::game::voting::{self, VotingView, batch_prefix, nominated};
use super::game::{
    self, GameView, PlayerOp, check_of_day, final_votes_of_day, index_at, op_outcome, role_index,
    tie_voting_of_day, voting_of_day,
};
use super::lobby::valid_pick;
use super::{
    Engine, EngineError, EngineErrorView, EngineView, Event, Outcome, alive_check, phase_of, refused,
    result_view,
};
use crate::domain::{Activity, EveningActivity, NightActivity, NoonActivity, Position, Role};
use crate::engine::events::{EventView, events_view};
use crate::random::choose_from;

verus! {

/// The game with the player at index `i` changed by `op`.
pub open spec fn with_op(g: GameView, i: int, op: PlayerOp) -> GameView {
    GameView { players: g.players.update(i, op_outcome(op, g.players[i]).0), ..g }
}

/// Why the role assignment guard refuses, if it does.
pub open spec fn role_assignment_check(e: EngineView) -> Option<EngineErrorView> {
    match phase_of(e) {
        None => Some(EngineErrorView::NotInGame),
        Some(a) => if a == Activity::Night(NightActivity::RoleAssignment) {
            None
        } else {
            Some(EngineErrorView::NotRoleAssignment(a))
        },
    }
}

/// Whether dealing a role to the player at `position` is defined: during
/// role assignment somebody must sit there.
pub open spec fn assign_role_defined(e: EngineView, position: Position) -> bool {
    role_assignment_check(e) is None ==> index_at(e.game.players, position) is Some
}

/// Dealing the drawn role `pick` to the player at `position`, unless they
/// already hold one.
pub open spec fn assign_role_outcome(e: EngineView, position: Position, pick: Option<Role>) -> Outcome {
    match role_assignment_check(e) {
        Some(err) => refused(e, err),
        None => {
            let i = index_at(e.game.players, position).unwrap();
            if e.game.players[i].role is Some {
                (e, Ok(Seq::empty()))
            } else {
                match pick {
                    None => refused(e, EngineErrorView::NoAvailableRoles),
                    Some(r) => match role_index(e.game.roles_pool, r) {
                        None => refused(e, EngineErrorView::NoAvailableRoles),
                        Some(k) => {
                            let g1 = GameView { roles_pool: e.game.roles_pool.remove(k), ..e.game };
                            (
                                EngineView { game: with_op(g1, i, PlayerOp::AssignRole(r)), ..e },
                                Ok(Seq::empty()),
                            )
                        },
                    },
                }
            }
        },
    }
}

/// Whether taking back the role of the player at `position` is defined:
/// during role assignment somebody holding a role must sit there.
pub open spec fn revoke_role_defined(e: EngineView, position: Position) -> bool {
    role_assignment_check(e) is None ==> (index_at(e.game.players, position) matches Some(i)
        && e.game.players[i].role is Some)
}

/// Taking back the role of the player at `position` into the pool.
pub open spec fn revoke_role_outcome(e: EngineView, position: Position) -> Outcome {
    match role_assignment_check(e) {
        Some(err) => refused(e, err),
        None => {
            let i = index_at(e.game.players, position).unwrap();
            let g1 = GameView {
                roles_pool: e.game.roles_pool.push(e.game.players[i].role.unwrap()),
                ..e.game
            };
            (EngineView { game: with_op(g1, i, PlayerOp::RevokeRole), ..e }, Ok(Seq::empty()))
        },
    }
}

/// Whether warning the player at `target` is defined: a live player's
/// warnings must fit in a byte.
pub open spec fn warn_defined(e: EngineView, target: Position) -> bool {
    alive_check(e.game.players, target) is None ==> e.game.players[index_at(
        e.game.players,
        target,
    ).unwrap()].warnings < 255
}

/// A warning (`warn`) or a pardon (`!warn`) of a live player.
pub open spec fn warning_outcome(e: EngineView, target: Position, warn: bool) -> Outcome {
    match alive_check(e.game.players, target) {
        Some(err) => refused(e, err),
        None => {
            let i = index_at(e.game.players, target).unwrap();
            let op = if warn {
                PlayerOp::Warn
            } else {
                PlayerOp::Pardon
            };
            let out = op_outcome(op, e.game.players[i]);
            let e1 = EngineView { game: with_op(e.game, i, op), ..e };
            match out.1 {
                Err(pe) => (e1, Err(EngineErrorView::Player(pe))),
                Ok(_) => (
                    e1,
                    Ok(
                        seq![
                            if warn {
                                EventView::PlayerWarned { target, warnings: out.0.warnings }
                            } else {
                                EventView::PlayerPardoned { target, warnings: out.0.warnings }
                            },
                        ],
                    ),
                ),
            }
        },
    }
}

/// During the night's shooting the Mafia shoots a live player: the player
/// dies and the shot is recorded as the day's kill unless one was recorded
/// already. A shot at any other time is refused.
pub open spec fn shoot_outcome(e: EngineView, target: Position) -> Outcome {
    if phase_of(e) is None {
        refused(e, EngineErrorView::NotInGame)
    } else if phase_of(e) != Some(Activity::Night(NightActivity::MafiaShooting)) {
        refused(e, EngineErrorView::NotShootingPhase)
    } else {
        match alive_check(e.game.players, target) {
        Some(err) => refused(e, err),
        None => {
            let i = index_at(e.game.players, target).unwrap();
            let g1 = with_op(e.game, i, PlayerOp::MarkDead);
            let g2 = GameView {
                kill: if g1.kill.contains_key(e.day) {
                    g1.kill
                } else {
                    g1.kill.insert(e.day, target)
                },
                ..g1
            };
            (EngineView { game: g2, ..e }, Ok(seq![EventView::PlayerKilled { target }]))
        },
        }
    }
}

/// A night check by the acting Sheriff or Don of a live player; each checks
/// once a night.
pub open spec fn check_outcome(e: EngineView, target: Position) -> Outcome {
    match phase_of(e) {
        None => refused(e, EngineErrorView::NotInGame),
        Some(a) => if a == Activity::Night(NightActivity::SheriffCheck) || a == Activity::Night(
            NightActivity::DonCheck,
        ) {
            let sheriff = a == Activity::Night(NightActivity::SheriffCheck);
            match e.actor.current {
                None => refused(e, EngineErrorView::NoActiveActor),
                Some(by) => match alive_check(e.game.players, by) {
                    Some(err) => refused(e, err),
                    None => match alive_check(e.game.players, target) {
                        Some(err) => refused(e, err),
                        None => {
                            let c = check_of_day(e.game, e.day);
                            if sheriff && c.sheriff is Some {
                                refused(e, EngineErrorView::Check(game::check::Error::SheriffAlreadyChecked))
                            } else if !sheriff && c.don is Some {
                                refused(e, EngineErrorView::Check(game::check::Error::DonAlreadyChecked))
                            } else {
                                let c2 = if sheriff {
                                    CheckView { sheriff: Some(target), ..c }
                                } else {
                                    CheckView { don: Some(target), ..c }
                                };
                                (
                                    EngineView {
                                        game: GameView { check: e.game.check.insert(e.day, c2), ..e.game },
                                        ..e
                                    },
                                    Ok(Seq::empty()),
                                )
                            }
                        },
                    },
                },
            }
        } else {
            refused(e, EngineErrorView::NotInvestigationPhase)
        },
    }
}

/// The acting speaker nominates a live player during the discussion.
pub open spec fn nominate_outcome(e: EngineView, target: Position) -> Outcome {
    match phase_of(e) {
        None => refused(e, EngineErrorView::NotInGame),
        Some(a) => if a != Activity::Noon(NoonActivity::Discussion) {
            refused(e, EngineErrorView::NotDiscussion(a))
        } else {
            match e.actor.current {
                None => refused(e, EngineErrorView::NoActiveSpeaker),
                Some(by) => match alive_check(e.game.players, by) {
                    Some(err) => refused(e, err),
                    None => match alive_check(e.game.players, target) {
                        Some(err) => refused(e, err),
                        None => {
                            let v0 = voting_of_day(e.game, e.day);
                            match nominated(v0, by, target) {
                                Ok(v2) => (
                                    EngineView {
                                        game: GameView { voting: e.game.voting.insert(e.day, v2), ..e.game },
                                        ..e
                                    },
                                    Ok(seq![EventView::PlayerNominated { by, target }]),
                                ),
                                Err(ve) => (
                                    EngineView {
                                        game: GameView { voting: e.game.voting.insert(e.day, v0), ..e.game },
                                        ..e
                                    },
                                    Err(EngineErrorView::Voting(ve)),
                                ),
                            }
                        },
                    },
                },
            }
        },
    }
}

/// A voting round after a batch of votes for `nominee` (invalid voters skipped),
/// and the batch's error, if any.
pub open spec fn batch_result(v0: VotingView, nominee: Position, voters: Seq<Position>) -> (
    VotingView,
    Option<voting::Error>,
) {
    if !v0.nominees.contains(nominee) {
        (v0, Some(voting::Error::InvalidNominee(nominee)))
    } else {
        let st = batch_prefix(v0, nominee, voters, false, voters.len());
        (st.view, st.error)
    }
}

/// Votes cast during a voting activity: for the nominee whose turn it is in
/// the main and tie rounds, as "yes" votes in the final round.
pub open spec fn vote_outcome(e: EngineView, voters: Seq<Position>) -> Outcome {
    match phase_of(e) {
        None => refused(e, EngineErrorView::NotInGame),
        Some(a) => if a == Activity::Evening(EveningActivity::Voting) || a == Activity::Evening(
            EveningActivity::TieVoting,
        ) {
            let tie = a == Activity::Evening(EveningActivity::TieVoting);
            match e.actor.current {
                None => refused(e, EngineErrorView::NoActiveNominee),
                Some(nominee) => {
                    let v0 = if tie {
                        tie_voting_of_day(e.game, e.day)
                    } else {
                        voting_of_day(e.game, e.day)
                    };
                    let (v1, err) = batch_result(v0, nominee, voters);
                    let g1 = if tie {
                        GameView { tie_voting: e.game.tie_voting.insert(e.day, v1), ..e.game }
                    } else {
                        GameView { voting: e.game.voting.insert(e.day, v1), ..e.game }
                    };
                    (
                        EngineView { game: g1, ..e },
                        match err {
                            Some(ve) => Err(EngineErrorView::Voting(ve)),
                            None => Ok(Seq::empty()),
                        },
                    )
                },
            }
        } else if a == Activity::Evening(EveningActivity::FinalVoting) {
            (
                EngineView {
                    game: GameView {
                        final_voting: e.game.final_voting.insert(
                            e.day,
                            final_votes_of_day(e.game, e.day) + voters,
                        ),
                        ..e.game
                    },
                    ..e
                },
                Ok(Seq::empty()),
            )
        } else {
            refused(e, EngineErrorView::NotVotingPhase)
        },
    }
}

/// Guesses of the first player shot, recorded in the order given.
pub open spec fn guess_outcome(e: EngineView, targets: Seq<Position>) -> Outcome {
    (EngineView { game: GameView { guess: e.game.guess + targets, ..e.game }, ..e }, Ok(Seq::empty()))
}

impl Engine {
    /// Deals a random role from the pool to the player at `position`.
    pub fn assign_role(&mut self, position: Position) -> (r: Result<Vec<Event>, EngineError>)
        requires
            old(self).wf(),
            assign_role_defined(old(self)@, position),
        ensures
            final(self).wf(),
            exists|pick: Option<Role>|
                valid_pick(old(self)@.game.roles_pool, pick) && (final(self)@, result_view(r))
                    == #[trigger] assign_role_outcome(old(self)@, position, pick),
    {
        let pick = choose_from(self.game.available_roles());
        self.assign_drawn_role(position, pick)
    }

    /// Deals the drawn role `pick` to the player at `position`, unless they
    /// already hold one.
    pub fn assign_drawn_role(&mut self, position: Position, pick: Option<Role>) -> (r: Result<Vec<Event>, EngineError>)
        requires
            old(self).wf(),
            assign_role_defined(old(self)@, position),
        ensures
            final(self).wf(),
            (final(self)@, result_view(r)) == assign_role_outcome(old(self)@, position, pick),
    {
        self.ensure_role_assignment()?;
        let i = self.game.index_by_position(position).unwrap();
        proof {
            crate::seqs::lemma_first_match(self.game@.players, game::sits_at(position));
        }
        if self.game.player_at(i).role().is_some() {
            let events: Vec<Event> = Vec::new();
            assert(events_view(events@) =~= Seq::<EventView>::empty());
            return Ok(events);
        }
        let role = match pick {
            Some(r) => r,
            None => return Err(EngineError::NoAvailableRoles),
        };
        match self.game.take_role(role) {
            Ok(()) => {},
            Err(_) => return Err(EngineError::NoAvailableRoles),
        }
        let _ = self.game.apply_to_player(i, PlayerOp::AssignRole(role));
        let events: Vec<Event> = Vec::new();
        assert(events_view(events@) =~= Seq::<EventView>::empty());
        Ok(events)
    }

    /// Takes back the role of the player at `position` into the pool.
    pub fn revoke_role(&mut self, position: Position) -> (r: Result<Vec<Event>, EngineError>)
        requires
            old(self).wf(),
            revoke_role_defined(old(self)@, position),
        ensures
            final(self).wf(),
            (final(self)@, result_view(r)) == revoke_role_outcome(old(self)@, position),
    {
        self.ensure_role_assignment()?;
        let i = self.game.index_by_position(position).unwrap();
        proof {
            crate::seqs::lemma_first_match(self.game@.players, game::sits_at(position));
        }
        let role = self.game.player_at(i).role().unwrap();
        self.game.return_role(role);
        let _ = self.game.apply_to_player(i, PlayerOp::RevokeRole);
        let events: Vec<Event> = Vec::new();
        assert(events_view(events@) =~= Seq::<EventView>::empty());
        Ok(events)
    }

    // ------------------------------
    // Player actions
    // ------------------------------
    /// Warns a live player.
    pub fn warn(&mut self, target: Position) -> (r: Result<Vec<Event>, EngineError>)
        requires
            old(self).wf(),
            warn_defined(old(self)@, target),
        ensures
            final(self).wf(),
            (final(self)@, result_view(r)) == warning_outcome(old(self)@, target, true),
    {
        self.ensure_alive(target)?;
        let i = self.game.index_by_position(target).unwrap();
        proof {
            crate::seqs::lemma_first_match(self.game@.players, game::sits_at(target));
        }
        let res = self.game.apply_to_player(i, PlayerOp::Warn);
        match res {
            Err(e) => Err(EngineError::Player(e)),
            Ok(_) => {
                let warnings = self.game.player_at(i).warnings();
                let events = vec![Event::PlayerWarned { target, warnings }];
                assert(events_view(events@) =~= seq![EventView::PlayerWarned { target, warnings }]);
                Ok(events)
            },
        }
    }

    /// Takes back a warning of a live player.
    pub fn pardon(&mut self, target: Position) -> (r: Result<Vec<Event>, EngineError>)
        requires
            old(self).wf(),
        ensures
            final(self).wf(),
            (final(self)@, result_view(r)) == warning_outcome(old(self)@, target, false),
    {
        self.ensure_alive(target)?;
        let i = self.game.index_by_position(target).unwrap();
        proof {
            crate::seqs::lemma_first_match(self.game@.players, game::sits_at(target));
        }
        let res = self.game.apply_to_player(i, PlayerOp::Pardon);
        match res {
            Err(e) => Err(EngineError::Player(e)),
            Ok(_) => {
                let warnings = self.game.player_at(i).warnings();
                let events = vec![Event::PlayerPardoned { target, warnings }];
                assert(events_view(events@) =~= seq![EventView::PlayerPardoned { target, warnings }]);
                Ok(events)
            },
        }
    }

    /// The Mafia shoots a live player.
    pub fn shoot(&mut self, target: Position) -> (r: Result<Vec<Event>, EngineError>)
        requires
            old(self).wf(),
        ensures
            final(self).wf(),
            (final(self)@, result_view(r)) == shoot_outcome(old(self)@, target),
    {
        let phase = self.phase()?;
        match phase {
            Activity::Night(NightActivity::MafiaShooting) => {},
            _ => return Err(EngineError::NotShootingPhase),
        }
        self.ensure_alive(target)?;
        let i = self.game.index_by_position(target).unwrap();
        proof {
            crate::seqs::lemma_first_match(self.game@.players, game::sits_at(target));
        }
        let _ = self.game.apply_to_player(i, PlayerOp::MarkDead);
        let _ = self.game.record_mafia_kill(self.day, target);
        let events = vec![Event::PlayerKilled { target }];
        assert(events_view(events@) =~= seq![EventView::PlayerKilled { target }]);
        Ok(events)
    }

    /// The acting Sheriff or Don checks a live player.
    pub fn check(&mut self, target: Position) -> (r: Result<Vec<Event>, EngineError>)
        requires
            old(self).wf(),
        ensures
            final(self).wf(),
            (final(self)@, result_view(r)) == check_outcome(old(self)@, target),
    {
        let phase = self.phase()?;
        let sheriff = match phase {
            Activity::Night(NightActivity::SheriffCheck) => true,
            Activity::Night(NightActivity::DonCheck) => false,
            _ => return Err(EngineError::NotInvestigationPhase),
        };
        let by = match self.actor.current() {
            Some(b) => b,
            None => return Err(EngineError::NoActiveActor),
        };
        self.ensure_alive(by)?;
        self.ensure_alive(target)?;
        let res = if sheriff {
            self.game.record_sheriff_check(self.day, target)
        } else {
            self.game.record_don_check(self.day, target)
        };
        match res {
            Ok(_) => {
                let events: Vec<Event> = Vec::new();
                assert(events_view(events@) =~= Seq::<EventView>::empty());
                Ok(events)
            },
            Err(game::Error::Check(ce)) => Err(EngineError::Check(ce)),
            Err(_) => Err(EngineError::NotInvestigationPhase),
        }
    }

    /// The acting speaker nominates a live player.
    pub fn nominate(&mut self, target: Position) -> (r: Result<Vec<Event>, EngineError>)
        requires
            old(self).wf(),
        ensures
            final(self).wf(),
            (final(self)@, result_view(r)) == nominate_outcome(old(self)@, target),
    {
        self.ensure_discussion()?;
        let by = match self.actor.current() {
            Some(b) => b,
            None => return Err(EngineError::NoActiveSpeaker),
        };
        self.ensure_alive(by)?;
        self.ensure_alive(target)?;
        let res = self.game.add_nomination(self.day, by, target);
        match res {
            Ok(_) => {
                let events = vec![Event::PlayerNominated { by, target }];
                assert(events_view(events@) =~= seq![EventView::PlayerNominated { by, target }]);
                Ok(events)
            },
            Err(game::Error::Voting(ve)) => Err(EngineError::Voting(ve)),
            Err(_) => Err(EngineError::NotDiscussion(Activity::Noon(NoonActivity::Discussion))),
        }
    }

    /// Records votes during a voting activity.
    pub fn vote(&mut self, voters: Vec<Position>) -> (r: Result<Vec<Event>, EngineError>)
        requires
            old(self).wf(),
        ensures
            final(self).wf(),
            (final(self)@, result_view(r)) == vote_outcome(old(self)@, voters@),
    {
        let phase = self.phase()?;
        match phase {
            Activity::Evening(EveningActivity::Voting) | Activity::Evening(EveningActivity::TieVoting) => {
                let tie = match phase {
                    Activity::Evening(EveningActivity::TieVoting) => true,
                    _ => false,
                };
                let nominee = match self.actor.current() {
                    Some(n) => n,
                    None => return Err(EngineError::NoActiveNominee),
                };
                let res = self.game.add_votes(self.day, tie, nominee, voters.as_slice());
                match res {
                    Ok(_) => {
                        let events: Vec<Event> = Vec::new();
                        assert(events_view(events@) =~= Seq::<EventView>::empty());
                        Ok(events)
                    },
                    Err(ve) => Err(EngineError::Voting(ve)),
                }
            },
            Activity::Evening(EveningActivity::FinalVoting) => {
                self.game.add_final_votes(self.day, voters.as_slice());
                let events: Vec<Event> = Vec::new();
                assert(events_view(events@) =~= Seq::<EventView>::empty());
                Ok(events)
            },
            _ => Err(EngineError::NotVotingPhase),
        }
    }
}

impl Engine {
    /// Records guesses of the first player shot.
    pub fn guess(&mut self, targets: Vec<Position>) -> (r: Result<Vec<Event>, EngineError>)
        requires
            old(self).wf(),
        ensures
            final(self).wf(),
            (final(self)@, result_view(r)) == guess_outcome(old(self)@, targets@),
    {
        let mut i: usize = 0;
        assert(targets@.take(0) =~= Seq::<Position>::empty());
        assert(old(self)@.game.guess + targets@.take(0) =~= old(self)@.game.guess);
        while i < targets.len()
            invariant
                0 <= i <= targets.len(),
                self.wf(),
                self@ == (EngineView {
                    game: GameView { guess: old(self)@.game.guess + targets@.take(i as int), ..old(self)@.game },
                    ..old(self)@
                }),
            decreases targets.len() - i,
        {
            let _ = self.game.record_guess(targets[i]);
            assert(old(self)@.game.guess + targets@.take(i + 1) =~= (old(self)@.game.guess + targets@.take(i as int)).push(targets@[i as int]));
            i = i + 1;
        }
        assert(targets@.take(targets.len() as int) =~= targets@);
        let events: Vec<Event> = Vec::new();
        assert(events_view(events@) =~= Seq::<EventView>::empty());
        Ok(events)
    }
}

} // verus!
