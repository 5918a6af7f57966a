//! Properties that hold across the engine's operations.
use vstd::prelude::*;

use super::flow::{advance_defined, advance_outcome, next_activity, tie_nominees};
use super::game::actor::ActorView;
use super::game::voting::{VotingView, nominee_turn_step, winners_of};
use super::turn::{as_answers, cycle_outputs, cycle_run, index_in, lemma_cycle_step_hands_to_eligible, turn_seats};
use super::game::{Criterion, PlayerOp, index_at, op_outcome, sits_at, all_seated, eligible_at, lemma_eliminate_all_same_seats, same_table, table_turn_step, turn_order};
use super::game::player::PlayerView;
use super::lobby::{join_outcome, leave_outcome, start_outcome, valid_pick};
use super::game::{self as game, GameView, index_named, is_named, is_seat, seat_index, PLAYER_COUNT};
use super::moves::{
    assign_role_defined, assign_role_outcome, check_outcome, revoke_role_outcome, shoot_outcome,
    warning_outcome, with_op,
};
use super::{EngineView, phase_of};
use super::events::EventView;
use crate::domain::{Position, Role};

verus! {

/// A step of the game never fails while a game runs, and either keeps the
/// running activity or enters the one that follows it.
pub proof fn lemma_advance_follows_flow(e: EngineView)
    requires
        phase_of(e) is Some,
        advance_defined(e),
    ensures
        advance_outcome(e).1 is Ok,
        phase_of(advance_outcome(e).0) == phase_of(e) || phase_of(advance_outcome(e).0) == Some(
            next_activity(e, phase_of(e).unwrap()),
        ),
{
}

/// The day moves on by exactly one when, and only when, play wraps into the
/// next night's shooting; every other step keeps the day.
pub proof fn lemma_advance_day_moves_into_the_night(e: EngineView)
    requires
        phase_of(e) is Some,
        advance_defined(e),
    ensures
        ({
            let e2 = advance_outcome(e).0;
            let shooting = crate::domain::EngineState::Game(
                crate::domain::Activity::Night(crate::domain::NightActivity::MafiaShooting),
            );
            e2.day == if e.state != shooting && e2.state == shooting {
                e.day + 1
            } else {
                e.day as int
            }
        }),
{
}

/// A step of the game reports exactly what it did: either it keeps the
/// activity and reports nothing, or it enters the activity that
/// [`next_activity`] names and reports that, or it keeps the activity,
/// hands the turn to a seat and reports that seat.
pub proof fn lemma_advance_reports_its_step(e: EngineView)
    requires
        phase_of(e) is Some,
        advance_defined(e),
    ensures
        ({
            let ph = phase_of(e).unwrap();
            let n0 = next_activity(e, ph);
            let (e2, r) = advance_outcome(e);
            &&& r is Ok
            &&& {
                let evs = r->Ok_0;
                ||| (evs == Seq::<EventView>::empty() && e2.state == e.state)
                ||| (evs == seq![EventView::PhaseAdvanced { phase: n0 }] && e2.state
                    == crate::domain::EngineState::Game(n0))
                ||| (exists|c: Position|
                    evs == seq![EventView::ActorAdvanced { chair: c }] && e2.state == e.state
                        && e2.actor.current == Some(c))
            }
        }),
{
    let (e2, r) = advance_outcome(e);
    if let Ok(evs) = r {
        if evs.len() == 1 {
            if let EventView::ActorAdvanced { chair } = evs[0] {
                assert(evs == seq![EventView::ActorAdvanced { chair }]);
            }
        }
    }
}

/// A step of the game moves nobody: every player keeps their seat, name and role.
pub proof fn lemma_advance_keeps_table(e: EngineView)
    requires
        advance_defined(e),
    ensures
        same_table(advance_outcome(e).0.game.players, e.game.players),
{
    let ps = e.game.players;
    assert(same_table(ps, ps));
    match phase_of(e) {
        Some(a) => {
            let v = e.game.voting[e.day];
            let t = e.game.tie_voting[e.day];
            if all_seated(ps, winners_of(v)) {
                lemma_eliminate_all_same_seats(ps, winners_of(v));
            }
            if all_seated(ps, winners_of(t)) {
                lemma_eliminate_all_same_seats(ps, winners_of(t));
            }
            if all_seated(ps, tie_nominees(e.game, e.day)) {
                lemma_eliminate_all_same_seats(ps, tie_nominees(e.game, e.day));
            }
        },
        None => {},
    }
}

/// A turn around the table is handed only to a player who may act under
/// its criterion (the one without a role, the Sheriff, the Don, the player
/// shot, the living, the eliminated).
pub proof fn lemma_table_turn_goes_to_eligible(players: Seq<PlayerView>, c: Criterion, a: ActorView)
    ensures
        table_turn_step(players, c, a).1 matches Some(p) ==> eligible_at(players, c, p)
            && table_turn_step(players, c, a).0.current == Some(p),
{
    let order = turn_order(players);
    let eligible = Seq::new(order.len(), |k: int| eligible_at(players, c, order[k]));
    lemma_cycle_step_hands_to_eligible(order, eligible, eligible_at(players, c, a.start), a);
    if let Some(p) = table_turn_step(players, c, a).1 {
        if p != a.start || !eligible_at(players, c, a.start) {
            let j = choose|j: int| 0 <= j < order.len() && eligible[j] && #[trigger] order[j] == p;
            assert(eligible[j]);
        }
    }
}

/// During a vote the turn is handed only to a nominee.
pub proof fn lemma_nominee_turn_goes_to_nominee(v: VotingView, a: ActorView)
    ensures
        nominee_turn_step(v, a).1 matches Some(p) ==> (p == a.start || v.nominees.contains(p))
            && nominee_turn_step(v, a).0.current == Some(p),
{
    let eligible = Seq::new(v.nominees.len(), |i: int| true);
    lemma_cycle_step_hands_to_eligible(v.nominees, eligible, true, a);
    if let Some(p) = nominee_turn_step(v, a).1 {
        if p != a.start {
            let j = choose|j: int| 0 <= j < v.nominees.len() && eligible[j] && #[trigger] v.nominees[j] == p;
            assert(v.nominees.contains(p));
        }
    }
}

/// A refused command leaves the engine as it was: warnings, pardons,
/// shots, checks, dealing and taking back roles, leaving, starting and
/// stepping on.
pub proof fn lemma_refusals_change_nothing(e: EngineView, target: Position, pick: Option<Role>, name: Seq<char>)
    ensures
        warning_outcome(e, target, true).1 is Err ==> warning_outcome(e, target, true).0 == e,
        warning_outcome(e, target, false).1 is Err ==> warning_outcome(e, target, false).0 == e,
        shoot_outcome(e, target).1 is Err ==> shoot_outcome(e, target).0 == e,
        check_outcome(e, target).1 is Err ==> check_outcome(e, target).0 == e,
        assign_role_defined(e, target) && assign_role_outcome(e, target, pick).1 is Err
            ==> assign_role_outcome(e, target, pick).0 == e,
        revoke_role_outcome(e, target).1 is Err ==> revoke_role_outcome(e, target).0 == e,
        leave_outcome(e, name).1 is Err ==> leave_outcome(e, name).0 == e,
        start_outcome(e).1 is Err ==> start_outcome(e).0 == e,
        advance_outcome(e).1 is Err ==> advance_outcome(e).0 == e,
{
    let ps = e.game.players;
    crate::seqs::lemma_first_match(ps, sits_at(target));
    if let Some(i) = index_at(ps, target) {
        assert(ps.update(i, ps[i]) =~= ps);
        let g = e.game;
        assert(with_op(g, i, PlayerOp::Warn) == g || op_outcome(PlayerOp::Warn, ps[i]).1 is Ok);
        assert(with_op(g, i, PlayerOp::Pardon) == g || op_outcome(PlayerOp::Pardon, ps[i]).1 is Ok);
    }
}

/// A newcomer who joins and then leaves leaves the lobby as it was: the
/// same players in the same order, the same state, the same free seats (the
/// seat goes back to the end of the pool), and nothing else changed.
pub proof fn lemma_leave_undoes_join(e: EngineView, name: Seq<char>, pick: Option<Position>)
    requires
        name.len() > 0,
        index_named(e.game.players, name) is None,
        e.game.players.len() < PLAYER_COUNT,
        join_outcome(e, name, pick).1 is Ok,
    ensures
        ({
            let e1 = join_outcome(e, name, pick).0;
            let e2 = leave_outcome(e1, name).0;
            &&& leave_outcome(e1, name).1 is Ok
            &&& e2.game.positions_pool.to_set() == e.game.positions_pool.to_set()
            &&& e2 == (EngineView {
                game: GameView { positions_pool: e2.game.positions_pool, ..e.game },
                ..e
            })
        }),
{
    let g = e.game;
    let ps = g.players;
    let n = ps.len() as int;
    let p = pick.unwrap();
    let pool = g.positions_pool;
    let k = seat_index(pool, p).unwrap();
    crate::seqs::lemma_first_match(pool, is_seat(p));
    crate::seqs::lemma_first_match(ps, is_named(name));
    let ps1 = ps.push(crate::engine::game::player::fresh_player(name));
    assert forall|j: int| 0 <= j < n implies !is_named(name)(#[trigger] ps1[j]) by {
        assert(ps1[j] == ps[j]);
        assert(!is_named(name)(ps[j]));
    }
    crate::seqs::lemma_first_match_at(ps1, is_named(name), n);
    let ps2 = ps1.update(n, op_outcome(PlayerOp::AssignPosition(p), ps1[n]).0);
    assert forall|j: int| 0 <= j < n implies !is_named(name)(#[trigger] ps2[j]) by {
        assert(ps2[j] == ps[j]);
        assert(!is_named(name)(ps[j]));
    }
    crate::seqs::lemma_first_match_at(ps2, is_named(name), n);
    assert(ps2.remove(n) =~= ps);
    let pool1 = pool.remove(k);
    let pool2 = if pool1.contains(p) { pool1 } else { pool1.push(p) };
    assert(pool2.to_set() =~= pool.to_set()) by {
        assert forall|x: Position| pool.contains(x) implies pool2.contains(x) by {
            let i = choose|i: int| 0 <= i < pool.len() && pool[i] == x;
            if x != p {
                if i < k {
                    assert(pool1[i] == x);
                } else {
                    assert(pool1[i - 1] == x);
                }
                if !pool1.contains(p) {
                    let m = choose|m: int| 0 <= m < pool1.len() && pool1[m] == x;
                    assert(pool2[m] == x);
                }
            } else {
                if !pool1.contains(p) {
                    assert(pool2[pool1.len() as int] == p);
                }
            }
        }
        assert forall|x: Position| pool2.contains(x) implies pool.contains(x) by {
            let i = choose|i: int| 0 <= i < pool2.len() && pool2[i] == x;
            if i < pool1.len() {
                assert(pool1[i] == x);
                if i < k {
                    assert(pool[i] == x);
                } else {
                    assert(pool[i + 1] == x);
                }
            } else {
                assert(x == p);
                assert(pool[k] == p);
            }
        }
    }
}

/// A refused join takes no seat and adds nobody: an empty name, a name
/// already taken, a full table or a lobby that is not waiting leaves the
/// engine as it was, whenever a free seat was drawn.
pub proof fn lemma_refused_join_changes_nothing(e: EngineView, name: Seq<char>, pick: Option<Position>)
    requires
        valid_pick(e.game.positions_pool, pick),
        pick is Some,
        join_outcome(e, name, pick).1 is Err,
    ensures
        join_outcome(e, name, pick).0 == e,
{
    let p = pick.unwrap();
    let pool = e.game.positions_pool;
    crate::seqs::lemma_first_match(pool, is_seat(p));
    let i = choose|i: int| 0 <= i < pool.len() && pool[i] == p;
    assert(is_seat(p)(pool[i]));
    if game::add_player_error(e.game, name) is None && e.state == crate::domain::EngineState::Lobby(
        crate::domain::LobbyStatus::Waiting,
    ) {
        let ps = e.game.players;
        let n = ps.len() as int;
        let ps1 = ps.push(crate::engine::game::player::fresh_player(name));
        crate::seqs::lemma_first_match(ps, is_named(name));
        assert forall|j: int| 0 <= j < n implies !is_named(name)(#[trigger] ps1[j]) by {
            assert(ps1[j] == ps[j]);
        }
        crate::seqs::lemma_first_match_at(ps1, is_named(name), n);
    }
}

/// The actor after `n` steps of a turn around the table under `c`.
pub open spec fn table_turn_run(players: Seq<PlayerView>, c: Criterion, a: ActorView, n: nat) -> ActorView
    decreases n,
{
    if n == 0 {
        a
    } else {
        table_turn_step(players, c, table_turn_run(players, c, a, (n - 1) as nat)).0
    }
}

/// A turn around the table is the cyclic turn over the seats in order.
proof fn lemma_table_turn_run_is_cycle_run(players: Seq<PlayerView>, c: Criterion, start: Position, n: nat)
    ensures
        ({
            let order = turn_order(players);
            let a0 = ActorView { start, current: None, completed: false };
            &&& table_turn_run(players, c, a0, n) == cycle_run(
                order,
                Seq::new(order.len(), |k: int| eligible_at(players, c, order[k])),
                eligible_at(players, c, start),
                a0,
                n,
            )
            &&& table_turn_run(players, c, a0, n).start == start
        }),
    decreases n,
{
    if n > 0 {
        lemma_table_turn_run_is_cycle_run(players, c, start, (n - 1) as nat);
    }
}

/// A turn around the table that starts at a seated player who may act ends
/// within one round: after one step more than there are seated players, and
/// every step after, the turn is over.
pub proof fn lemma_table_turn_ends(players: Seq<PlayerView>, c: Criterion, start: Position, n: nat)
    requires
        turn_order(players).no_duplicates(),
        turn_order(players).contains(start),
        eligible_at(players, c, start),
        n > turn_order(players).len(),
    ensures
        table_turn_run(players, c, ActorView { start, current: None, completed: false }, n).completed,
{
    let order = turn_order(players);
    let eligible = Seq::new(order.len(), |k: int| eligible_at(players, c, order[k]));
    lemma_table_turn_run_is_cycle_run(players, c, start, n);
    let j = choose|j: int| 0 <= j < order.len() && order[j] == start;
    crate::engine::turn::lemma_index_of_own_seat(order, j);
    crate::engine::turn::lemma_cycle_turn_ends(order, eligible, start, n);
}

/// What `n` steps of a turn around the table under `c` hand out, one entry
/// a step.
pub open spec fn table_turn_outputs(players: Seq<PlayerView>, c: Criterion, a: ActorView, n: nat) -> Seq<
    Option<Position>,
>
    decreases n,
{
    if n == 0 {
        Seq::empty()
    } else {
        let (a1, o) = table_turn_step(players, c, a);
        seq![o] + table_turn_outputs(players, c, a1, (n - 1) as nat)
    }
}

/// A turn around the table is the cyclic turn over the seats in order.
proof fn lemma_table_outputs_are_cycle_outputs(players: Seq<PlayerView>, c: Criterion, a: ActorView, n: nat)
    ensures
        ({
            let order = turn_order(players);
            table_turn_outputs(players, c, a, n) == cycle_outputs(
                order,
                Seq::new(order.len(), |k: int| eligible_at(players, c, order[k])),
                eligible_at(players, c, a.start),
                a,
                n,
            )
        }),
    decreases n,
{
    if n > 0 {
        let a1 = table_turn_step(players, c, a).0;
        assert(a1.start == a.start);
        lemma_table_outputs_are_cycle_outputs(players, c, a1, (n - 1) as nat);
    }
}

/// The order in which a turn around the table hands out seats: the start
/// seat first, then each later seated player round the table who may act
/// under `c`, once each, and then nothing, ever after.
pub proof fn lemma_table_turn_order(players: Seq<PlayerView>, c: Criterion, start: Position, n: nat)
    requires
        turn_order(players).no_duplicates(),
        turn_order(players).contains(start),
        eligible_at(players, c, start),
    ensures
        ({
            let order = turn_order(players);
            let eligible = Seq::new(order.len(), |k: int| eligible_at(players, c, order[k]));
            let seats = turn_seats(order, eligible, index_in(order, start).unwrap(), 0);
            n > seats.len() + 1 ==> table_turn_outputs(
                players,
                c,
                ActorView { start, current: None, completed: false },
                n,
            ) == seq![Some(start)] + as_answers(seats) + Seq::new(
                (n - seats.len() - 1) as nat,
                |i: int| None::<Position>,
            )
        }),
{
    let order = turn_order(players);
    let eligible = Seq::new(order.len(), |k: int| eligible_at(players, c, order[k]));
    let j = choose|j: int| 0 <= j < order.len() && order[j] == start;
    crate::engine::turn::lemma_index_of_own_seat(order, j);
    lemma_table_outputs_are_cycle_outputs(players, c, ActorView { start, current: None, completed: false }, n);
    crate::engine::turn::lemma_cycle_turn_order(order, eligible, start, n);
}

} // verus!
