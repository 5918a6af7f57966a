//! What the game's rules require of each step, stated over all engines.
use vstd::prelude::*;
use vstd::multiset::Multiset;

use super::flow::{advance_defined, advance_outcome, next_activity};
use super::game::player::{PlayerView, warned};
use super::game::check::CheckView;
use super::game::{Criterion, GameView, PlayerOp, check_of_day, index_at, op_outcome, table_turn_step};
use super::moves::{check_outcome, revoke_role_defined, revoke_role_outcome};
use super::{EngineView, first_speaker, phase_of, seat_alive};
use crate::domain::{
    Activity, EngineState, EveningActivity, NightActivity, NoonActivity, Position, Role, Status,
};

verus! {

broadcast use {vstd::multiset::group_multiset_axioms, vstd::seq_lib::group_to_multiset_ensures};

/// Only the first day (day 0) skips the vote on a single nominee: on any
/// other day, or with more than one nominee, the discussion is followed by
/// the announcement of the nominations; on the first day a single nominee
/// sends the game straight into the night's shooting.
pub proof fn lemma_nominations_lead_to_the_vote(e: EngineView)
    requires
        e.game.voting.contains_key(e.day),
        e.game.voting[e.day].nominees.len() > 0,
    ensures
        (e.day != 0 || e.game.voting[e.day].nominees.len() != 1) ==> next_activity(
            e,
            Activity::Noon(NoonActivity::Discussion),
        ) == Activity::Evening(EveningActivity::NominationAnnouncement),
        (e.day == 0 && e.game.voting[e.day].nominees.len() == 1) ==> next_activity(
            e,
            Activity::Noon(NoonActivity::Discussion),
        ) == Activity::Night(NightActivity::MafiaShooting),
{
}

/// When the discussion's turn is over on a day with nominees, the step
/// announces the nominations (keeping the day), except for a single nominee
/// on the first day.
pub proof fn lemma_discussion_ends_in_the_vote(e: EngineView)
    requires
        phase_of(e) == Some(Activity::Noon(NoonActivity::Discussion)),
        advance_defined(e),
        table_turn_step(e.game.players, Criterion::Alive, e.actor).0.completed,
        e.game.voting.contains_key(e.day),
        e.game.voting[e.day].nominees.len() > 0,
        e.day != 0 || e.game.voting[e.day].nominees.len() != 1,
    ensures
        advance_outcome(e).1 is Ok,
        advance_outcome(e).0.state == EngineState::Game(
            Activity::Evening(EveningActivity::NominationAnnouncement),
        ),
        advance_outcome(e).0.day == e.day,
{
    lemma_nominations_lead_to_the_vote(e);
}

/// A fourth warning removes the player from the game, lifting the silence;
/// any later warning is refused.
pub proof fn lemma_fourth_warning_removes(v: PlayerView)
    requires
        v.warnings == 3,
        v.status != Status::Removed,
    ensures
        op_outcome(PlayerOp::Warn, v).1 is Ok,
        op_outcome(PlayerOp::Warn, v).0.warnings == 4,
        op_outcome(PlayerOp::Warn, v).0.status == Status::Removed,
        !op_outcome(PlayerOp::Warn, v).0.silenced,
        op_outcome(PlayerOp::Warn, op_outcome(PlayerOp::Warn, v).0).1 == Err::<
            Seq<super::game::player::EventView>,
            super::game::player::Error,
        >(super::game::player::Error::MaxWarningsReached),
{
}

/// Warnings below the fourth never remove anybody: the player keeps their
/// status, and exactly the third one silences.
pub proof fn lemma_early_warnings_keep_the_player(v: PlayerView)
    requires
        v.warnings < 3,
    ensures
        warned(v).status == v.status,
        warned(v).warnings == v.warnings + 1,
        warned(v).silenced == (v.warnings == 2 || v.silenced),
{
}

/// A check is recorded as the checker's own: during the Sheriff's check it
/// sets the day's Sheriff check to the target and leaves the Don's as it was;
/// during the Don's check the other way round. Nothing else of the game
/// changes.
pub proof fn lemma_checks_are_recorded_as_their_own(e: EngineView, target: Position)
    requires
        check_outcome(e, target).1 is Ok,
    ensures
        ({
            let e2 = check_outcome(e, target).0;
            let before = check_of_day(e.game, e.day);
            let after = check_of_day(e2.game, e.day);
            &&& phase_of(e) == Some(Activity::Night(NightActivity::SheriffCheck)) ==> after == (CheckView {
                sheriff: Some(target),
                don: before.don,
            })
            &&& phase_of(e) == Some(Activity::Night(NightActivity::DonCheck)) ==> after == (CheckView {
                sheriff: before.sheriff,
                don: Some(target),
            })
            &&& e2 == (EngineView { game: GameView { check: e2.game.check, ..e.game }, ..e })
        }),
{
}

/// The roles held by the players, counted with repeats.
pub open spec fn held_roles(players: Seq<PlayerView>) -> Multiset<Role>
    decreases players.len(),
{
    if players.len() == 0 {
        Multiset::empty()
    } else {
        let rest = held_roles(players.drop_last());
        match players.last().role {
            Some(r) => rest.insert(r),
            None => rest,
        }
    }
}

/// Every role of the game: those still in the pool and those held.
pub open spec fn roles_in_play(g: GameView) -> Multiset<Role> {
    g.roles_pool.to_multiset().add(held_roles(g.players))
}

/// Taking the role of one player away takes one copy of it from the roles held.
proof fn lemma_held_roles_without(players: Seq<PlayerView>, i: int, p: PlayerView, r: Role)
    requires
        0 <= i < players.len(),
        players[i].role == Some(r),
        p.role is None,
    ensures
        held_roles(players.update(i, p)).insert(r) == held_roles(players),
    decreases players.len(),
{
    let q = players.update(i, p);
    assert(q.drop_last() =~= if i == players.len() - 1 {
        players.drop_last()
    } else {
        players.drop_last().update(i, p)
    });
    if i < players.len() - 1 {
        lemma_held_roles_without(players.drop_last(), i, p, r);
        assert(q.last() == players.last());
        match players.last().role {
            Some(x) => {
                assert(held_roles(q) == held_roles(q.drop_last()).insert(x));
                assert(held_roles(q).insert(r) =~= held_roles(q.drop_last()).insert(r).insert(x));
            },
            None => {},
        }
    } else {
        assert(held_roles(q).insert(r) =~= held_roles(players));
    }
}

/// Taking back a role keeps every role in play: the player loses it and it
/// goes back into the pool, so the roles in the pool and the roles held,
/// counted together, stay the same.
pub proof fn lemma_revoked_role_returns_to_the_pool(e: EngineView, position: Position)
    requires
        revoke_role_defined(e, position),
        revoke_role_outcome(e, position).1 is Ok,
    ensures
        ({
            let g2 = revoke_role_outcome(e, position).0.game;
            let i = index_at(e.game.players, position).unwrap();
            &&& roles_in_play(g2) == roles_in_play(e.game)
            &&& g2.players[i].role is None
            &&& g2.roles_pool.len() == e.game.roles_pool.len() + 1
        }),
{
    let g = e.game;
    let i = index_at(g.players, position).unwrap();
    let r = g.players[i].role.unwrap();
    let g2 = revoke_role_outcome(e, position).0.game;
    crate::seqs::lemma_first_match(g.players, super::game::sits_at(position));
    let p = op_outcome(PlayerOp::RevokeRole, g.players[i]).0;
    assert(g2.players == g.players.update(i, p));
    lemma_held_roles_without(g.players, i, p, r);
    assert(g2.roles_pool == g.roles_pool.push(r));
    assert(g2.roles_pool.to_multiset() == g.roles_pool.to_multiset().insert(r));
    assert(roles_in_play(g2) =~= roles_in_play(g));
}

/// The first speaker moves one seat round the table each day: on day `d`,
/// when seat `d % 10 + 1` holds a living player, that seat speaks first.
pub proof fn lemma_first_speaker_moves_with_the_day(players: Seq<PlayerView>, day: usize)
    requires
        seat_alive(players, Position(((day % 10) + 1) as u8)),
    ensures
        first_speaker(players, day) == Some(Position(((day % 10) + 1) as u8)),
{
    let s = (day % 10) as int + 1;
    assert(((s - 1 + 0) % 10) + 1 == s);
}

} // verus!
