use vstd::prelude::*;

use super::game::actor::ActorView;
use super::game::player::PlayerView;
use super::game::voting::{fresh_voting, nominee_turn_step, winners_of};
use super::game::{
    self, all_seated, Criterion, Eligibility, GameView, alive_count, alive_seats, eliminated_game,
    index_with_role, table_turn_step,
};
use super::{
    Engine, EngineError, EngineErrorView, EngineView, Event, Outcome, first_speaker, phase_of,
    refused, result_view,
};
use crate::domain::{
    Activity, EngineState, EveningActivity, MorningActivity, NightActivity, NoonActivity, Position,
    Role,
};
use crate::engine::events::{EventView, events_view};

verus! {

/// Whether every player holds a role.
pub open spec fn all_have_roles(players: Seq<PlayerView>) -> bool {
    forall|i: int| 0 <= i < players.len() ==> (#[trigger] players[i]).role is Some
}

/// The nominees of a day's main voting round (none without one).
pub open spec fn day_nominees(g: GameView, day: usize) -> Seq<Position> {
    if g.voting.contains_key(day) {
        g.voting[day].nominees
    } else {
        Seq::empty()
    }
}

/// Whether the activity that follows `a` is defined: the voting activities
/// need their round (or their final votes) for the day.
pub open spec fn next_defined(e: EngineView, a: Activity) -> bool {
    match a {
        Activity::Evening(EveningActivity::Voting) => e.game.voting.contains_key(e.day),
        Activity::Evening(EveningActivity::TieVoting) => e.game.tie_voting.contains_key(e.day),
        Activity::Evening(EveningActivity::FinalVoting) => e.game.final_voting.contains_key(e.day),
        _ => true,
    }
}

/// The activity that follows `a`: the night deals roles, reveals the Sheriff
/// and the Don, briefs the Mafia; later nights shoot and check; a morning
/// follows a shot (with guessing on the second day); the day's discussion
/// leads to the nominations, or back to night when nobody (or, on the first
/// day, a single player) was nominated; a vote with one winner leads to the
/// final speech, a tie to a tie round, a second tie to a yes/no vote.
pub open spec fn next_activity(e: EngineView, a: Activity) -> Activity {
    match a {
        Activity::Night(NightActivity::RoleAssignment) => if all_have_roles(e.game.players) {
            Activity::Night(NightActivity::SheriffReveal)
        } else {
            Activity::Night(NightActivity::RoleAssignment)
        },
        Activity::Night(NightActivity::SheriffReveal) => Activity::Night(NightActivity::DonReveal),
        Activity::Night(NightActivity::DonReveal) => Activity::Night(NightActivity::MafiaBriefing),
        Activity::Night(NightActivity::MafiaBriefing) => Activity::Noon(NoonActivity::Discussion),
        Activity::Night(NightActivity::MafiaShooting) => Activity::Night(NightActivity::SheriffCheck),
        Activity::Night(NightActivity::SheriffCheck) => Activity::Night(NightActivity::DonCheck),
        Activity::Night(NightActivity::DonCheck) => if e.day == 1 && e.game.kill.contains_key(e.day) {
            Activity::Morning(MorningActivity::Guessing)
        } else if e.game.kill.contains_key(e.day) {
            Activity::Morning(MorningActivity::DeathSpeech)
        } else {
            Activity::Noon(NoonActivity::Discussion)
        },
        Activity::Morning(MorningActivity::Guessing) => Activity::Morning(MorningActivity::DeathSpeech),
        Activity::Morning(MorningActivity::DeathSpeech) => Activity::Noon(NoonActivity::Discussion),
        Activity::Noon(NoonActivity::Discussion) => {
            let n = day_nominees(e.game, e.day);
            if n.len() > 0 {
                if e.day == 0 && n.len() == 1 {
                    Activity::Night(NightActivity::MafiaShooting)
                } else {
                    Activity::Evening(EveningActivity::NominationAnnouncement)
                }
            } else {
                Activity::Night(NightActivity::MafiaShooting)
            }
        },
        Activity::Evening(EveningActivity::NominationAnnouncement) => Activity::Evening(
            EveningActivity::Voting,
        ),
        Activity::Evening(EveningActivity::Voting) => if winners_of(e.game.voting[e.day]).len() == 1 {
            Activity::Evening(EveningActivity::FinalSpeech)
        } else {
            Activity::Evening(EveningActivity::TieDiscussion)
        },
        Activity::Evening(EveningActivity::TieDiscussion) => Activity::Evening(
            EveningActivity::TieVoting,
        ),
        Activity::Evening(EveningActivity::TieVoting) => if winners_of(e.game.tie_voting[e.day]).len()
            == 1 {
            Activity::Evening(EveningActivity::FinalSpeech)
        } else {
            Activity::Evening(EveningActivity::FinalVoting)
        },
        Activity::Evening(EveningActivity::FinalVoting) => if e.game.final_voting[e.day].len()
            > alive_count(e.game.players) / 2 {
            Activity::Evening(EveningActivity::FinalSpeech)
        } else {
            Activity::Night(NightActivity::MafiaShooting)
        },
        Activity::Evening(EveningActivity::FinalSpeech) => Activity::Night(NightActivity::MafiaShooting),
    }
}

/// The seat of the first player holding `role`, if there is one with a seat.
pub open spec fn seat_of_role(players: Seq<PlayerView>, role: Role) -> Option<Position> {
    match index_with_role(players, role) {
        Some(i) => players[i].position,
        None => None,
    }
}

/// An actor starting a fresh turn at `start`.
pub open spec fn fresh_actor(start: Position) -> ActorView {
    ActorView { start, current: None, completed: false }
}

/// A turn around the table under `c`: while players remain the turn moves on
/// and reports the new actor; once it is over the engine moves to `next`
/// with a fresh turn starting at `then_start`.
pub open spec fn table_arm(e: EngineView, c: Criterion, next: Activity, then_start: Option<Position>) -> Outcome {
    let a1 = table_turn_step(e.game.players, c, e.actor).0;
    if a1.completed {
        (
            EngineView { actor: fresh_actor(then_start.unwrap()), state: EngineState::Game(next), ..e },
            Ok(seq![EventView::PhaseAdvanced { phase: next }]),
        )
    } else {
        (EngineView { actor: a1, ..e }, Ok(seq![EventView::ActorAdvanced { chair: a1.current.unwrap() }]))
    }
}

/// Whether a turn around the table is defined: a finished turn needs the
/// next start seat, an unfinished one an actor.
pub open spec fn table_arm_defined(e: EngineView, c: Criterion, then_start: Option<Position>) -> bool {
    let a1 = table_turn_step(e.game.players, c, e.actor).0;
    if a1.completed {
        then_start is Some
    } else {
        a1.current is Some
    }
}

/// The main voting activity: the turn moves through the nominees; once it is
/// over, a single winner is eliminated and gives the final speech, otherwise
/// the winners go to a tie round open to the players alive.
pub open spec fn voting_arm(e: EngineView, next: Activity) -> Outcome {
    let v = e.game.voting[e.day];
    let a1 = nominee_turn_step(v, e.actor).0;
    if !a1.completed {
        (EngineView { actor: a1, ..e }, Ok(Seq::empty()))
    } else {
        let w = winners_of(v);
        if w.len() == 1 {
            (
                EngineView {
                    game: eliminated_game(e.game, e.day, w),
                    actor: fresh_actor(w[0]),
                    state: EngineState::Game(next),
                    ..e
                },
                Ok(seq![EventView::PhaseAdvanced { phase: next }]),
            )
        } else {
            (
                EngineView {
                    game: GameView {
                        tie_voting: e.game.tie_voting.insert(
                            e.day,
                            fresh_voting(w, alive_seats(e.game.players)),
                        ),
                        ..e.game
                    },
                    actor: fresh_actor(w[0]),
                    state: EngineState::Game(next),
                    ..e
                },
                Ok(seq![EventView::PhaseAdvanced { phase: next }]),
            )
        }
    }
}

/// The tie discussion: the turn moves through the tied nominees; once it is
/// over, the tie vote starts with the first of them.
pub open spec fn tie_discussion_arm(e: EngineView, next: Activity) -> Outcome {
    let v = e.game.tie_voting[e.day];
    let a1 = nominee_turn_step(v, e.actor).0;
    if !a1.completed {
        (EngineView { actor: a1, ..e }, Ok(Seq::empty()))
    } else {
        (
            EngineView { actor: fresh_actor(v.nominees[0]), state: EngineState::Game(next), ..e },
            Ok(seq![EventView::PhaseAdvanced { phase: next }]),
        )
    }
}

/// The tie vote: once the turn is over, a single winner is eliminated and
/// gives the final speech; another tie leads to the yes/no vote.
pub open spec fn tie_voting_arm(e: EngineView, next: Activity) -> Outcome {
    let v = e.game.tie_voting[e.day];
    let a1 = nominee_turn_step(v, e.actor).0;
    if !a1.completed {
        (EngineView { actor: a1, ..e }, Ok(Seq::empty()))
    } else {
        let w = winners_of(v);
        if w.len() == 1 {
            (
                EngineView {
                    game: eliminated_game(e.game, e.day, w),
                    actor: fresh_actor(w[0]),
                    state: EngineState::Game(next),
                    ..e
                },
                Ok(seq![EventView::PhaseAdvanced { phase: next }]),
            )
        } else {
            (
                EngineView { actor: a1, state: EngineState::Game(next), ..e },
                Ok(seq![EventView::PhaseAdvanced { phase: next }]),
            )
        }
    }
}

/// The nominees of a day's tie round (none without one).
pub open spec fn tie_nominees(g: GameView, day: usize) -> Seq<Position> {
    if g.tie_voting.contains_key(day) {
        g.tie_voting[day].nominees
    } else {
        Seq::empty()
    }
}

/// Whether the yes/no vote carries: more than half of the living players said yes.
pub open spec fn final_vote_carries(e: EngineView) -> bool {
    e.game.final_voting[e.day].len() > alive_count(e.game.players) / 2
}

/// The yes/no vote: when it carries, all tied nominees are eliminated and
/// the first of them speaks; otherwise the day is over.
pub open spec fn final_voting_arm(e: EngineView, next: Activity) -> Outcome {
    let ns = tie_nominees(e.game, e.day);
    if final_vote_carries(e) {
        (
            EngineView {
                game: eliminated_game(e.game, e.day, ns),
                actor: fresh_actor(ns[0]),
                state: EngineState::Game(next),
                ..e
            },
            Ok(seq![EventView::PhaseAdvanced { phase: next }]),
        )
    } else {
        (
            EngineView {
                actor: fresh_actor(first_speaker(e.game.players, e.day).unwrap()),
                day: (e.day + 1) as usize,
                state: EngineState::Game(next),
                ..e
            },
            Ok(seq![EventView::PhaseAdvanced { phase: next }]),
        )
    }
}

/// The final speeches of the players eliminated that day; once over, the day ends.
pub open spec fn final_speech_arm(e: EngineView, next: Activity) -> Outcome {
    let el = e.game.eliminated[e.day];
    let a1 = table_turn_step(e.game.players, Criterion::EliminatedAmong(el), e.actor).0;
    if !a1.completed {
        (EngineView { actor: a1, ..e }, Ok(Seq::empty()))
    } else {
        (
            EngineView { actor: a1, day: (e.day + 1) as usize, state: EngineState::Game(next), ..e },
            Ok(seq![EventView::PhaseAdvanced { phase: next }]),
        )
    }
}


/// Moving on to `next` with a fresh turn starting at `start`.
pub open spec fn moved_on(e: EngineView, next: Activity, start: Position) -> Outcome {
    (
        EngineView { actor: fresh_actor(start), state: EngineState::Game(next), ..e },
        Ok(seq![EventView::PhaseAdvanced { phase: next }]),
    )
}

/// The seat shot on the engine's day, if any.
pub open spec fn killed_of(e: EngineView) -> Option<Position> {
    if e.game.kill.contains_key(e.day) {
        Some(e.game.kill[e.day])
    } else {
        None
    }
}

/// The day's discussion: the turn goes round the living players; once it is
/// over the engine moves on, to the next day when the night follows, with
/// the first speaker of the day it is then.
pub open spec fn discussion_arm(e: EngineView, next: Activity) -> Outcome {
    let a1 = table_turn_step(e.game.players, Criterion::Alive, e.actor).0;
    if !a1.completed {
        (EngineView { actor: a1, ..e }, Ok(Seq::empty()))
    } else {
        let day = if next == Activity::Night(NightActivity::MafiaShooting) {
            (e.day + 1) as usize
        } else {
            e.day
        };
        (
            EngineView {
                actor: fresh_actor(first_speaker(e.game.players, day).unwrap()),
                day,
                state: EngineState::Game(next),
                ..e
            },
            Ok(seq![EventView::PhaseAdvanced { phase: next }]),
        )
    }
}

/// Whether the discussion step is defined: a finished discussion needs the
/// next day number and a living first speaker.
pub open spec fn discussion_defined(e: EngineView, next: Activity) -> bool {
    let a1 = table_turn_step(e.game.players, Criterion::Alive, e.actor).0;
    a1.completed ==> if next == Activity::Night(NightActivity::MafiaShooting) {
        e.day < usize::MAX && first_speaker(e.game.players, (e.day + 1) as usize) is Some
    } else {
        first_speaker(e.game.players, e.day) is Some
    }
}

/// Whether the main voting step is defined: once the turn is over somebody
/// must have won, and a single winner must have a seat.
pub open spec fn voting_defined(e: EngineView) -> bool {
    let v = e.game.voting[e.day];
    let a1 = nominee_turn_step(v, e.actor).0;
    a1.completed ==> winners_of(v).len() > 0 && (winners_of(v).len() == 1 ==> all_seated(
        e.game.players,
        winners_of(v),
    ))
}

/// Whether the tie discussion step is defined: the tie round exists, and
/// has a nominee to start the vote with once the turn is over.
pub open spec fn tie_discussion_defined(e: EngineView) -> bool {
    let v = e.game.tie_voting[e.day];
    &&& e.game.tie_voting.contains_key(e.day)
    &&& nominee_turn_step(v, e.actor).0.completed ==> v.nominees.len() > 0
}

/// Whether the tie vote step is defined: a single winner must have a seat.
pub open spec fn tie_voting_defined(e: EngineView) -> bool {
    let v = e.game.tie_voting[e.day];
    let a1 = nominee_turn_step(v, e.actor).0;
    a1.completed && winners_of(v).len() == 1 ==> all_seated(e.game.players, winners_of(v))
}

/// Whether the yes/no vote step is defined: a carried vote needs seated
/// nominees, a failed one a living first speaker and a next day.
pub open spec fn final_voting_defined(e: EngineView) -> bool {
    let ns = tie_nominees(e.game, e.day);
    if final_vote_carries(e) {
        ns.len() > 0 && all_seated(e.game.players, ns)
    } else {
        first_speaker(e.game.players, e.day) is Some && e.day < usize::MAX
    }
}

/// Whether the final speech step is defined: the day has eliminated players
/// and, once the speeches are over, a next day.
pub open spec fn final_speech_defined(e: EngineView) -> bool {
    &&& e.game.eliminated.contains_key(e.day)
    &&& table_turn_step(
        e.game.players,
        Criterion::EliminatedAmong(e.game.eliminated[e.day]),
        e.actor,
    ).0.completed ==> e.day < usize::MAX
}

/// Where the turn after the Don's check starts: with the first speaker when
/// the discussion follows, with the player shot otherwise.
pub open spec fn after_don_check(e: EngineView, next: Activity) -> Option<Position> {
    if next == Activity::Noon(NoonActivity::Discussion) {
        first_speaker(e.game.players, e.day)
    } else {
        killed_of(e)
    }
}

/// Whether advancing is defined on `e`: whatever the running activity needs
/// (a Sheriff, a Don, a shot player, a voting round, a living first
/// speaker, a next day) is there.
pub open spec fn advance_defined(e: EngineView) -> bool {
    match phase_of(e) {
        None => true,
        Some(a) => {
            let next = next_activity(e, a);
            let ps = e.game.players;
            next_defined(e, a) && match a {
                Activity::Night(NightActivity::RoleAssignment) => table_arm_defined(
                    e,
                    Criterion::WithoutRole,
                    seat_of_role(ps, Role::Sheriff),
                ),
                Activity::Night(NightActivity::SheriffReveal) => table_arm_defined(
                    e,
                    Criterion::Sheriff,
                    seat_of_role(ps, Role::Don),
                ),
                Activity::Night(NightActivity::DonReveal) => table_arm_defined(
                    e,
                    Criterion::Don,
                    first_speaker(ps, e.day),
                ),
                Activity::Night(NightActivity::MafiaBriefing) => first_speaker(ps, e.day) is Some,
                Activity::Night(NightActivity::MafiaShooting) => seat_of_role(ps, Role::Sheriff) is Some,
                Activity::Night(NightActivity::SheriffCheck) => table_arm_defined(
                    e,
                    Criterion::Sheriff,
                    seat_of_role(ps, Role::Don),
                ),
                Activity::Night(NightActivity::DonCheck) => table_arm_defined(
                    e,
                    Criterion::Don,
                    after_don_check(e, next),
                ),
                Activity::Morning(MorningActivity::Guessing) => killed_of(e) is Some && table_arm_defined(
                    e,
                    Criterion::Killed(killed_of(e).unwrap()),
                    killed_of(e),
                ),
                Activity::Morning(MorningActivity::DeathSpeech) => killed_of(e) is Some
                    && table_arm_defined(
                    e,
                    Criterion::Killed(killed_of(e).unwrap()),
                    first_speaker(ps, e.day),
                ),
                Activity::Noon(NoonActivity::Discussion) => discussion_defined(e, next),
                Activity::Evening(EveningActivity::NominationAnnouncement) => day_nominees(e.game, e.day).len()
                    > 0,
                Activity::Evening(EveningActivity::Voting) => voting_defined(e),
                Activity::Evening(EveningActivity::TieDiscussion) => tie_discussion_defined(e),
                Activity::Evening(EveningActivity::TieVoting) => tie_voting_defined(e),
                Activity::Evening(EveningActivity::FinalVoting) => final_voting_defined(e),
                Activity::Evening(EveningActivity::FinalSpeech) => final_speech_defined(e),
            }
        },
    }
}

/// One step of the game: the running activity moves its turn on, or, once
/// the turn is over, hands over to the next activity with its own turn.
pub open spec fn advance_outcome(e: EngineView) -> Outcome {
    match phase_of(e) {
        None => refused(e, EngineErrorView::NotInGame),
        Some(a) => {
            let next = next_activity(e, a);
            let ps = e.game.players;
            match a {
                Activity::Night(NightActivity::RoleAssignment) => table_arm(
                    e,
                    Criterion::WithoutRole,
                    next,
                    seat_of_role(ps, Role::Sheriff),
                ),
                Activity::Night(NightActivity::SheriffReveal) => table_arm(
                    e,
                    Criterion::Sheriff,
                    next,
                    seat_of_role(ps, Role::Don),
                ),
                Activity::Night(NightActivity::DonReveal) => table_arm(
                    e,
                    Criterion::Don,
                    next,
                    first_speaker(ps, e.day),
                ),
                Activity::Night(NightActivity::MafiaBriefing) => moved_on(
                    e,
                    next,
                    first_speaker(ps, e.day).unwrap(),
                ),
                Activity::Night(NightActivity::MafiaShooting) => moved_on(
                    e,
                    next,
                    seat_of_role(ps, Role::Sheriff).unwrap(),
                ),
                Activity::Night(NightActivity::SheriffCheck) => table_arm(
                    e,
                    Criterion::Sheriff,
                    next,
                    seat_of_role(ps, Role::Don),
                ),
                Activity::Night(NightActivity::DonCheck) => table_arm(
                    e,
                    Criterion::Don,
                    next,
                    after_don_check(e, next),
                ),
                Activity::Morning(MorningActivity::Guessing) => table_arm(
                    e,
                    Criterion::Killed(killed_of(e).unwrap()),
                    next,
                    killed_of(e),
                ),
                Activity::Morning(MorningActivity::DeathSpeech) => table_arm(
                    e,
                    Criterion::Killed(killed_of(e).unwrap()),
                    next,
                    first_speaker(ps, e.day),
                ),
                Activity::Noon(NoonActivity::Discussion) => discussion_arm(e, next),
                Activity::Evening(EveningActivity::NominationAnnouncement) => moved_on(
                    e,
                    next,
                    day_nominees(e.game, e.day)[0],
                ),
                Activity::Evening(EveningActivity::Voting) => voting_arm(e, next),
                Activity::Evening(EveningActivity::TieDiscussion) => tie_discussion_arm(e, next),
                Activity::Evening(EveningActivity::TieVoting) => tie_voting_arm(e, next),
                Activity::Evening(EveningActivity::FinalVoting) => final_voting_arm(e, next),
                Activity::Evening(EveningActivity::FinalSpeech) => final_speech_arm(e, next),
            }
        },
    }
}


impl Engine {
    /// The seat of the Sheriff, if there is one with a seat.
    fn sheriff_seat(&self) -> (r: Option<Position>)
        ensures
            r == seat_of_role(self.game@.players, Role::Sheriff),
    {
        match self.game.sheriff() {
            Some(p) => p.position(),
            None => None,
        }
    }

    /// The seat of the Don, if there is one with a seat.
    fn don_seat(&self) -> (r: Option<Position>)
        ensures
            r == seat_of_role(self.game@.players, Role::Don),
    {
        match self.game.don() {
            Some(p) => p.position(),
            None => None,
        }
    }

    /// Whether every player holds a role.
    fn all_have_roles(&self) -> (b: bool)
        ensures
            b == all_have_roles(self.game@.players),
    {
        let n = self.game.player_count();
        let mut i: usize = 0;
        while i < n
            invariant
                0 <= i <= n,
                n == self.game@.players.len(),
                forall|j: int| 0 <= j < i ==> (#[trigger] self.game@.players[j]).role is Some,
            decreases n - i,
        {
            if self.game.player_at(i).role().is_none() {
                return false;
            }
            i = i + 1;
        }
        true
    }

    /// The activity that follows `phase`.
    pub fn next(&self, phase: Activity) -> (n: Activity)
        requires
            self.wf(),
            next_defined(self@, phase),
        ensures
            n == next_activity(self@, phase),
    {
        match phase {
            Activity::Night(NightActivity::RoleAssignment) => if self.all_have_roles() {
                Activity::Night(NightActivity::SheriffReveal)
            } else {
                Activity::Night(NightActivity::RoleAssignment)
            },
            Activity::Night(NightActivity::SheriffReveal) => Activity::Night(NightActivity::DonReveal),
            Activity::Night(NightActivity::DonReveal) => Activity::Night(NightActivity::MafiaBriefing),
            Activity::Night(NightActivity::MafiaBriefing) => Activity::Noon(NoonActivity::Discussion),
            Activity::Night(NightActivity::MafiaShooting) => Activity::Night(NightActivity::SheriffCheck),
            Activity::Night(NightActivity::SheriffCheck) => Activity::Night(NightActivity::DonCheck),
            Activity::Night(NightActivity::DonCheck) => {
                let killed = self.game.get_kill(self.day).is_some();
                if self.day.is_second() && killed {
                    Activity::Morning(MorningActivity::Guessing)
                } else if killed {
                    Activity::Morning(MorningActivity::DeathSpeech)
                } else {
                    Activity::Noon(NoonActivity::Discussion)
                }
            },
            Activity::Morning(MorningActivity::Guessing) => Activity::Morning(MorningActivity::DeathSpeech),
            Activity::Morning(MorningActivity::DeathSpeech) => Activity::Noon(NoonActivity::Discussion),
            Activity::Noon(NoonActivity::Discussion) => {
                let count = match self.game.voting_of(self.day) {
                    Some(v) => v.nominee_count(),
                    None => 0,
                };
                if count > 0 {
                    if self.day.is_first() && count == 1 {
                        Activity::Night(NightActivity::MafiaShooting)
                    } else {
                        Activity::Evening(EveningActivity::NominationAnnouncement)
                    }
                } else {
                    Activity::Night(NightActivity::MafiaShooting)
                }
            },
            Activity::Evening(EveningActivity::NominationAnnouncement) => Activity::Evening(
                EveningActivity::Voting,
            ),
            Activity::Evening(EveningActivity::Voting) => {
                let v = self.game.voting_of(self.day).unwrap();
                if v.winners().len() == 1 {
                    Activity::Evening(EveningActivity::FinalSpeech)
                } else {
                    Activity::Evening(EveningActivity::TieDiscussion)
                }
            },
            Activity::Evening(EveningActivity::TieDiscussion) => Activity::Evening(
                EveningActivity::TieVoting,
            ),
            Activity::Evening(EveningActivity::TieVoting) => {
                let v = self.game.tie_voting_of(self.day).unwrap();
                if v.winners().len() == 1 {
                    Activity::Evening(EveningActivity::FinalSpeech)
                } else {
                    Activity::Evening(EveningActivity::FinalVoting)
                }
            },
            Activity::Evening(EveningActivity::FinalVoting) => {
                let yes = self.game.final_votes_of(self.day).unwrap().len();
                let alive = self.game.alive_players();
                if yes > alive / 2 {
                    Activity::Evening(EveningActivity::FinalSpeech)
                } else {
                    Activity::Night(NightActivity::MafiaShooting)
                }
            },
            Activity::Evening(EveningActivity::FinalSpeech) => Activity::Night(NightActivity::MafiaShooting),
        }
    }

    /// Moves on to `next` with a fresh turn starting at `start`.
    fn move_on(&mut self, next: Activity, start: Position) -> (events: Vec<Event>)
        ensures
            (final(self)@, Ok::<Seq<EventView>, EngineErrorView>(events_view(events@))) == moved_on(
                old(self)@,
                next,
                start,
            ),
            final(self).game == old(self).game,
    {
        self.actor.reset(start);
        self.state = EngineState::Game(next);
        let events = vec![Event::PhaseAdvanced { phase: next }];
        assert(events_view(events@) =~= seq![EventView::PhaseAdvanced { phase: next }]);
        events
    }

    /// One step of a turn around the table under `c`.
    fn around_table(&mut self, c: &Eligibility, next: Activity, then_start: Option<Position>) -> (events: Vec<Event>)
        requires
            table_arm_defined(old(self)@, c@, then_start),
        ensures
            (final(self)@, Ok::<Seq<EventView>, EngineErrorView>(events_view(events@))) == table_arm(
                old(self)@,
                c@,
                next,
                then_start,
            ),
            final(self).game == old(self).game,
    {
        let _ = self.game.next_actor(&mut self.actor, c);
        if self.actor.is_completed() {
            self.move_on(next, then_start.unwrap())
        } else {
            let chair = self.actor.current().unwrap();
            let events = vec![Event::ActorAdvanced { chair }];
            assert(events_view(events@) =~= seq![EventView::ActorAdvanced { chair }]);
            events
        }
    }

    /// One step of the day's discussion.
    fn discuss(&mut self, next: Activity) -> (events: Vec<Event>)
        requires
            discussion_defined(old(self)@, next),
        ensures
            (final(self)@, Ok::<Seq<EventView>, EngineErrorView>(events_view(events@))) == discussion_arm(
                old(self)@,
                next,
            ),
            final(self).game == old(self).game,
    {
        let _ = self.game.next_actor(&mut self.actor, &Eligibility::Alive);
        if self.actor.is_completed() {
            if next == Activity::Night(NightActivity::MafiaShooting) {
                self.day.advance();
            }
            let first = self.first_speaker_of_day();
            self.move_on(next, first)
        } else {
            let events: Vec<Event> = Vec::new();
            assert(events_view(events@) =~= Seq::<EventView>::empty());
            events
        }
    }
}


impl Engine {
    /// One step of the main vote.
    fn count_votes(&mut self, next: Activity) -> (events: Vec<Event>)
        requires
            old(self).wf(),
            old(self)@.game.voting.contains_key(old(self)@.day),
            voting_defined(old(self)@),
        ensures
            final(self).wf(),
            (final(self)@, Ok::<Seq<EventView>, EngineErrorView>(events_view(events@))) == voting_arm(
                old(self)@,
                next,
            ),
    {
        let v = self.game.voting_of(self.day).unwrap();
        let winners = v.winners();
        let _ = v.next_actor(&mut self.actor);
        if !self.actor.is_completed() {
            let events: Vec<Event> = Vec::new();
            assert(events_view(events@) =~= Seq::<EventView>::empty());
            return events;
        }
        if winners.len() == 1 {
            self.game.eliminate(self.day, winners.as_slice());
        } else {
            self.game.start_tie_voting(self.day, winners.as_slice());
        }
        self.move_on(next, winners[0])
    }

    /// One step of the tie discussion.
    fn discuss_tie(&mut self, next: Activity) -> (events: Vec<Event>)
        requires
            old(self).wf(),
            tie_discussion_defined(old(self)@),
        ensures
            (final(self)@, Ok::<Seq<EventView>, EngineErrorView>(events_view(events@))) == tie_discussion_arm(
                old(self)@,
                next,
            ),
            final(self).game == old(self).game,
    {
        let v = self.game.tie_voting_of(self.day).unwrap();
        let _ = v.next_actor(&mut self.actor);
        if !self.actor.is_completed() {
            let events: Vec<Event> = Vec::new();
            assert(events_view(events@) =~= Seq::<EventView>::empty());
            return events;
        }
        let first = v.get_nominees()[0];
        self.move_on(next, first)
    }

    /// One step of the tie vote.
    fn count_tie_votes(&mut self, next: Activity) -> (events: Vec<Event>)
        requires
            old(self).wf(),
            old(self)@.game.tie_voting.contains_key(old(self)@.day),
            tie_voting_defined(old(self)@),
        ensures
            final(self).wf(),
            (final(self)@, Ok::<Seq<EventView>, EngineErrorView>(events_view(events@))) == tie_voting_arm(
                old(self)@,
                next,
            ),
    {
        let v = self.game.tie_voting_of(self.day).unwrap();
        let winners = v.winners();
        let _ = v.next_actor(&mut self.actor);
        if !self.actor.is_completed() {
            let events: Vec<Event> = Vec::new();
            assert(events_view(events@) =~= Seq::<EventView>::empty());
            return events;
        }
        if winners.len() == 1 {
            self.game.eliminate(self.day, winners.as_slice());
            self.move_on(next, winners[0])
        } else {
            self.state = EngineState::Game(next);
            let events = vec![Event::PhaseAdvanced { phase: next }];
            assert(events_view(events@) =~= seq![EventView::PhaseAdvanced { phase: next }]);
            events
        }
    }

    /// The outcome of the yes/no vote.
    fn count_final_votes(&mut self, next: Activity) -> (events: Vec<Event>)
        requires
            old(self).wf(),
            old(self)@.game.final_voting.contains_key(old(self)@.day),
            final_voting_defined(old(self)@),
        ensures
            final(self).wf(),
            (final(self)@, Ok::<Seq<EventView>, EngineErrorView>(events_view(events@))) == final_voting_arm(
                old(self)@,
                next,
            ),
    {
        let yes = self.game.final_votes_of(self.day).unwrap().len();
        let alive = self.game.alive_players();
        let nominees: Vec<Position> = match self.game.tie_voting_of(self.day) {
            Some(v) => super::game::voting::copy_positions(v.get_nominees()),
            None => Vec::new(),
        };
        assert(nominees@ == tie_nominees(old(self)@.game, old(self)@.day));
        if yes > alive / 2 {
            self.game.eliminate(self.day, nominees.as_slice());
            self.move_on(next, nominees[0])
        } else {
            let first = self.first_speaker_of_day();
            self.actor.reset(first);
            self.day.advance();
            self.state = EngineState::Game(next);
            let events = vec![Event::PhaseAdvanced { phase: next }];
            assert(events_view(events@) =~= seq![EventView::PhaseAdvanced { phase: next }]);
            events
        }
    }

    /// One step of the final speeches.
    fn final_speeches(&mut self, next: Activity) -> (events: Vec<Event>)
        requires
            final_speech_defined(old(self)@),
        ensures
            (final(self)@, Ok::<Seq<EventView>, EngineErrorView>(events_view(events@))) == final_speech_arm(
                old(self)@,
                next,
            ),
            final(self).game == old(self).game,
    {
        let eliminated = super::game::voting::copy_positions(self.game.get_eliminated(self.day).unwrap().as_slice());
        let c = Eligibility::EliminatedAmong(eliminated);
        let _ = self.game.next_actor(&mut self.actor, &c);
        if !self.actor.is_completed() {
            let events: Vec<Event> = Vec::new();
            assert(events_view(events@) =~= Seq::<EventView>::empty());
            return events;
        }
        self.state = EngineState::Game(next);
        self.day.advance();
        let events = vec![Event::PhaseAdvanced { phase: next }];
        assert(events_view(events@) =~= seq![EventView::PhaseAdvanced { phase: next }]);
        events
    }
}


impl Engine {
    /// Moves the game one step on: the running activity's turn moves to the
    /// next player, or, once it is over, the next activity begins.
    pub fn advance(&mut self) -> (r: Result<Vec<Event>, EngineError>)
        requires
            old(self).wf(),
            advance_defined(old(self)@),
        ensures
            final(self).wf(),
            (final(self)@, result_view(r)) == advance_outcome(old(self)@),
    {
        let current = self.phase()?;
        let next = self.next(current);
        let events = match current {
            Activity::Night(NightActivity::RoleAssignment) => {
                let then = self.sheriff_seat();
                self.around_table(&Eligibility::WithoutRole, next, then)
            },
            Activity::Night(NightActivity::SheriffReveal) => {
                let then = self.don_seat();
                self.around_table(&Eligibility::Sheriff, next, then)
            },
            Activity::Night(NightActivity::DonReveal) => {
                let then = self.first_speaker_at(self.day.0);
                self.around_table(&Eligibility::Don, next, then)
            },
            Activity::Night(NightActivity::MafiaBriefing) => {
                let first = self.first_speaker_of_day();
                self.move_on(next, first)
            },
            Activity::Night(NightActivity::MafiaShooting) => {
                let sheriff = self.sheriff_seat().unwrap();
                self.move_on(next, sheriff)
            },
            Activity::Night(NightActivity::SheriffCheck) => {
                let then = self.don_seat();
                self.around_table(&Eligibility::Sheriff, next, then)
            },
            Activity::Night(NightActivity::DonCheck) => {
                let then = if next == Activity::Noon(NoonActivity::Discussion) {
                    self.first_speaker_at(self.day.0)
                } else {
                    self.game.get_kill(self.day)
                };
                self.around_table(&Eligibility::Don, next, then)
            },
            Activity::Morning(MorningActivity::Guessing) => {
                let killed = self.game.get_kill(self.day);
                self.around_table(&Eligibility::Killed(killed.unwrap()), next, killed)
            },
            Activity::Morning(MorningActivity::DeathSpeech) => {
                let killed = self.game.get_kill(self.day).unwrap();
                let then = self.first_speaker_at(self.day.0);
                self.around_table(&Eligibility::Killed(killed), next, then)
            },
            Activity::Noon(NoonActivity::Discussion) => self.discuss(next),
            Activity::Evening(EveningActivity::NominationAnnouncement) => {
                let first = self.game.voting_of(self.day).unwrap().get_nominees()[0];
                self.move_on(next, first)
            },
            Activity::Evening(EveningActivity::Voting) => self.count_votes(next),
            Activity::Evening(EveningActivity::TieDiscussion) => self.discuss_tie(next),
            Activity::Evening(EveningActivity::TieVoting) => self.count_tie_votes(next),
            Activity::Evening(EveningActivity::FinalVoting) => self.count_final_votes(next),
            Activity::Evening(EveningActivity::FinalSpeech) => self.final_speeches(next),
        };
        Ok(events)
    }
}


impl Engine {
    /// Whether a step of a turn around the table under `c` is defined.
    fn table_step_defined(&self, c: &Eligibility, then_start: Option<Position>) -> (b: bool)
        ensures
            b == table_arm_defined(self@, c@, then_start),
    {
        let mut a = self.actor;
        let _ = self.game.next_actor(&mut a, c);
        if a.is_completed() {
            then_start.is_some()
        } else {
            a.current().is_some()
        }
    }

    /// Whether [`Engine::advance`] is defined here: whatever the running
    /// activity needs is there.
    pub fn can_advance(&self) -> (b: bool)
        requires
            self.wf(),
        ensures
            b == advance_defined(self@),
    {
        let current = match self.state {
            EngineState::Game(a) => a,
            EngineState::Lobby(_) => return true,
        };
        let next_ok = match current {
            Activity::Evening(EveningActivity::Voting) => self.game.voting_of(self.day).is_some(),
            Activity::Evening(EveningActivity::TieVoting) => self.game.tie_voting_of(self.day).is_some(),
            Activity::Evening(EveningActivity::FinalVoting) => self.game.final_votes_of(self.day).is_some(),
            _ => true,
        };
        if !next_ok {
            return false;
        }
        let next = self.next(current);
        let day = self.day.0;
        match current {
            Activity::Night(NightActivity::RoleAssignment) => {
                let then = self.sheriff_seat();
                self.table_step_defined(&Eligibility::WithoutRole, then)
            },
            Activity::Night(NightActivity::SheriffReveal) => {
                let then = self.don_seat();
                self.table_step_defined(&Eligibility::Sheriff, then)
            },
            Activity::Night(NightActivity::DonReveal) => {
                let then = self.first_speaker_at(day);
                self.table_step_defined(&Eligibility::Don, then)
            },
            Activity::Night(NightActivity::MafiaBriefing) => self.first_speaker_at(day).is_some(),
            Activity::Night(NightActivity::MafiaShooting) => self.sheriff_seat().is_some(),
            Activity::Night(NightActivity::SheriffCheck) => {
                let then = self.don_seat();
                self.table_step_defined(&Eligibility::Sheriff, then)
            },
            Activity::Night(NightActivity::DonCheck) => {
                let then = if next == Activity::Noon(NoonActivity::Discussion) {
                    self.first_speaker_at(day)
                } else {
                    self.game.get_kill(self.day)
                };
                self.table_step_defined(&Eligibility::Don, then)
            },
            Activity::Morning(MorningActivity::Guessing) => match self.game.get_kill(self.day) {
                None => false,
                Some(k) => self.table_step_defined(&Eligibility::Killed(k), Some(k)),
            },
            Activity::Morning(MorningActivity::DeathSpeech) => match self.game.get_kill(self.day) {
                None => false,
                Some(k) => {
                    let then = self.first_speaker_at(day);
                    self.table_step_defined(&Eligibility::Killed(k), then)
                },
            },
            Activity::Noon(NoonActivity::Discussion) => {
                let mut a = self.actor;
                let _ = self.game.next_actor(&mut a, &Eligibility::Alive);
                if !a.is_completed() {
                    true
                } else if next == Activity::Night(NightActivity::MafiaShooting) {
                    day < usize::MAX && self.first_speaker_at(day + 1).is_some()
                } else {
                    self.first_speaker_at(day).is_some()
                }
            },
            Activity::Evening(EveningActivity::NominationAnnouncement) => match self.game.voting_of(self.day) {
                Some(v) => v.nominee_count() > 0,
                None => false,
            },
            Activity::Evening(EveningActivity::Voting) => {
                let v = self.game.voting_of(self.day).unwrap();
                let mut a = self.actor;
                let _ = v.next_actor(&mut a);
                if !a.is_completed() {
                    true
                } else {
                    let w = v.winners();
                    w.len() > 0 && (w.len() != 1 || self.game.seats_all_taken(w.as_slice()))
                }
            },
            Activity::Evening(EveningActivity::TieDiscussion) => match self.game.tie_voting_of(self.day) {
                None => false,
                Some(v) => {
                    let mut a = self.actor;
                    let _ = v.next_actor(&mut a);
                    !a.is_completed() || v.nominee_count() > 0
                },
            },
            Activity::Evening(EveningActivity::TieVoting) => {
                let v = self.game.tie_voting_of(self.day).unwrap();
                let mut a = self.actor;
                let _ = v.next_actor(&mut a);
                if !a.is_completed() {
                    true
                } else {
                    let w = v.winners();
                    w.len() != 1 || self.game.seats_all_taken(w.as_slice())
                }
            },
            Activity::Evening(EveningActivity::FinalVoting) => {
                let yes = self.game.final_votes_of(self.day).unwrap().len();
                let alive = self.game.alive_players();
                let nominees: Vec<Position> = match self.game.tie_voting_of(self.day) {
                    Some(v) => super::game::voting::copy_positions(v.get_nominees()),
                    None => Vec::new(),
                };
                if yes > alive / 2 {
                    nominees.len() > 0 && self.game.seats_all_taken(nominees.as_slice())
                } else {
                    self.first_speaker_at(day).is_some() && day < usize::MAX
                }
            },
            Activity::Evening(EveningActivity::FinalSpeech) => match self.game.get_eliminated(self.day) {
                None => false,
                Some(list) => {
                    let c = Eligibility::EliminatedAmong(super::game::voting::copy_positions(list.as_slice()));
                    let mut a = self.actor;
                    let _ = self.game.next_actor(&mut a, &c);
                    !a.is_completed() || day < usize::MAX
                },
            },
        }
    }
}

} // verus!
