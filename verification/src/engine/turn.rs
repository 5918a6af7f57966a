use vstd::prelude::*;

use super::game::actor::{Actor, ActorView};
use crate::domain::position::Position;

verus! {

#[derive(Debug, Clone, Copy, PartialEq, Eq, Structural)]
pub enum TurnContext {
    RoleAssignment,
    DayDiscussion,
    VotingDiscussion,
    VoteCasting,
    /// Single actor turn
    FinalSpeech(Position),
    SheriffCheck(Position),
    DonCheck(Position),
}

/// The first index at which `p` stands in `order`.
pub open spec fn index_in(order: Seq<Position>, p: Position) -> Option<int>
    decreases order.len(),
{
    if order.len() == 0 {
        None
    } else if order[0] == p {
        Some(0)
    } else {
        match index_in(order.drop_first(), p) {
            Some(i) => Some(i + 1),
            None => None,
        }
    }
}

/// The index `i` steps after `idx`, wrapping round the end once.
pub open spec fn wrap(len: int, idx: int, i: int) -> int {
    if idx + i < len {
        idx + i
    } else {
        idx + i - len
    }
}

/// Walking cyclically from `idx`, the first eligible index among the steps
/// `i`, `i + 1`, ..., `eligible.len()`.
pub open spec fn first_eligible_from(eligible: Seq<bool>, idx: int, i: int) -> Option<int>
    decreases eligible.len() + 1 - i,
{
    if i > eligible.len() || i < 1 {
        None
    } else {
        let j = wrap(eligible.len() as int, idx, i);
        if eligible[j] {
            Some(j)
        } else {
            first_eligible_from(eligible, idx, i + 1)
        }
    }
}

/// One step of a turn that walks `order` cyclically: the first call gives
/// the turn to the start seat (when it may act); later calls move to the
/// next eligible seat after the current one; coming back round to the start
/// seat, or finding nobody eligible, completes the turn.
pub open spec fn cycle_step(
    order: Seq<Position>,
    eligible: Seq<bool>,
    start_eligible: bool,
    a: ActorView,
) -> (ActorView, Option<Position>) {
    if a.completed {
        (a, None)
    } else if a.current is None && start_eligible {
        (ActorView { current: Some(a.start), ..a }, Some(a.start))
    } else {
        let cur = match a.current {
            Some(c) => c,
            None => a.start,
        };
        match index_in(order, cur) {
            None => (a, None),
            Some(idx) => match first_eligible_from(eligible, idx, 1) {
                None => (ActorView { completed: true, ..a }, None),
                Some(j) => if order[j] == a.start && a.current is Some {
                    (ActorView { completed: true, ..a }, None)
                } else {
                    (ActorView { current: Some(order[j]), ..a }, Some(order[j]))
                },
            },
        }
    }
}

proof fn lemma_index_in_bounds(order: Seq<Position>, p: Position)
    ensures
        index_in(order, p) matches Some(i) ==> 0 <= i < order.len() && order[i] == p,
        index_in(order, p) is None ==> forall|k: int| 0 <= k < order.len() ==> order[k] != p,
    decreases order.len(),
{
    if order.len() > 0 {
        lemma_index_in_bounds(order.drop_first(), p);
        if order[0] != p {
            assert forall|k: int| 0 <= k < order.len() && index_in(order, p) is None implies order[k] != p by {
                if k > 0 {
                    assert(order.drop_first()[k - 1] == order[k]);
                }
            }
        }
    }
}

proof fn lemma_first_eligible_bounds(eligible: Seq<bool>, idx: int, i: int)
    requires
        0 <= idx < eligible.len(),
    ensures
        first_eligible_from(eligible, idx, i) matches Some(j) ==> 0 <= j < eligible.len()
            && eligible[j],
    decreases eligible.len() + 1 - i,
{
    if i <= eligible.len() && i >= 1 {
        lemma_first_eligible_bounds(eligible, idx, i + 1);
    }
}

/// The first index of `p` in `order`.
pub fn find_index(order: &Vec<Position>, p: Position) -> (r: Option<usize>)
    ensures
        r matches Some(i) ==> index_in(order@, p) == Some(i as int),
        r is None ==> index_in(order@, p) is None,
{
    let mut i: usize = 0;
    assert(order@.subrange(0, order@.len() as int) =~= order@);
    while i < order.len()
        invariant
            0 <= i <= order.len(),
            index_in(order@, p) == (match index_in(order@.subrange(i as int, order@.len() as int), p) {
                Some(k) => Some(k + i),
                None => None,
            }),
        decreases order.len() - i,
    {
        let ghost rest = order@.subrange(i as int, order@.len() as int);
        assert(rest.drop_first() =~= order@.subrange(i + 1, order@.len() as int));
        if order[i] == p {
            return Some(i);
        }
        i = i + 1;
    }
    assert(order@.subrange(i as int, order@.len() as int) =~= Seq::<Position>::empty());
    None
}

/// Moves `actor` one step along a cyclic turn over `order`, where
/// `eligible[k]` tells whether `order[k]` may act and `start_eligible`
/// whether the start seat may.
pub fn next_in_cycle(
    order: &Vec<Position>,
    eligible: &Vec<bool>,
    start_eligible: bool,
    actor: &mut Actor,
) -> (r: Option<Position>)
    requires
        eligible.len() == order.len(),
    ensures
        (final(actor)@, r) == cycle_step(order@, eligible@, start_eligible, old(actor)@),
{
    if actor.is_completed() {
        return None;
    }
    let start = actor.start();
    if actor.current().is_none() && start_eligible {
        actor.set_current(Some(start));
        return Some(start);
    }
    let current = match actor.current() {
        Some(c) => c,
        None => start,
    };
    let start_idx = match find_index(order, current) {
        Some(i) => i,
        None => return None,
    };
    proof {
        lemma_index_in_bounds(order@, current);
    }
    let len = order.len();
    let mut k: usize = 0;
    while k < len
        invariant
            0 <= k <= len,
            len == order.len(),
            len == eligible.len(),
            start_idx < len,
            first_eligible_from(eligible@, start_idx as int, 1) == first_eligible_from(
                eligible@,
                start_idx as int,
                k + 1,
            ),
            actor@ == old(actor)@,
            index_in(order@, current) == Some(start_idx as int),
            !(old(actor)@.current is None && start_eligible),
            !old(actor)@.completed,
            start == old(actor)@.start,
            current == (match old(actor)@.current {
                Some(c) => c,
                None => start,
            }),
        decreases len - k,
    {
        let i = k + 1;
        let idx = if i < len - start_idx {
            start_idx + i
        } else {
            i - (len - start_idx)
        };
        assert(idx as int == wrap(len as int, start_idx as int, i as int));
        if eligible[idx] {
            assert(first_eligible_from(eligible@, start_idx as int, i as int) == Some(idx as int));
            let pos = order[idx];
            if pos == start && actor.current().is_some() {
                actor.set_completed(true);
                return None;
            }
            actor.set_current(Some(pos));
            return Some(pos);
        }
        k = k + 1;
    }
    actor.set_completed(true);
    None
}


/// A step of a cyclic turn hands the turn only to the start seat, when it
/// may act, or to a seat of `order` that may act.
pub proof fn lemma_cycle_step_hands_to_eligible(
    order: Seq<Position>,
    eligible: Seq<bool>,
    start_eligible: bool,
    a: ActorView,
)
    requires
        eligible.len() == order.len(),
    ensures
        cycle_step(order, eligible, start_eligible, a).1 matches Some(p) ==> (p == a.start
            && start_eligible) || exists|j: int| 0 <= j < order.len() && eligible[j] && #[trigger] order[j] == p,
        cycle_step(order, eligible, start_eligible, a).1 matches Some(p) ==> cycle_step(
            order,
            eligible,
            start_eligible,
            a,
        ).0.current == Some(p),
{
    if !a.completed && !(a.current is None && start_eligible) {
        let cur = match a.current {
            Some(c) => c,
            None => a.start,
        };
        lemma_index_in_bounds(order, cur);
        if let Some(idx) = index_in(order, cur) {
            lemma_first_eligible_bounds(eligible, idx, 1);
        }
    }
}


/// The actor after `n` steps of a cyclic turn.
pub open spec fn cycle_run(
    order: Seq<Position>,
    eligible: Seq<bool>,
    start_eligible: bool,
    a: ActorView,
    n: nat,
) -> ActorView
    decreases n,
{
    if n == 0 {
        a
    } else {
        cycle_step(order, eligible, start_eligible, cycle_run(order, eligible, start_eligible, a, (n - 1) as nat)).0
    }
}

/// How far index `i` lies after index `s`, walking round a table of `len` seats.
pub open spec fn seat_distance(len: int, s: int, i: int) -> int {
    if i >= s {
        i - s
    } else {
        i - s + len
    }
}

/// Scanning from `idx`, an eligible index `t` steps away is reached or passed:
/// the scan from `t0` stops at some step between `t0` and `t`.
proof fn lemma_scan_stops_by(eligible: Seq<bool>, idx: int, t0: int, t: int) -> (t1: int)
    requires
        0 <= idx < eligible.len(),
        1 <= t0 <= t <= eligible.len(),
        eligible[wrap(eligible.len() as int, idx, t)],
    ensures
        t0 <= t1 <= t,
        first_eligible_from(eligible, idx, t0) == Some(wrap(eligible.len() as int, idx, t1)),
    decreases t - t0,
{
    if eligible[wrap(eligible.len() as int, idx, t0)] {
        t0
    } else {
        lemma_scan_stops_by(eligible, idx, t0 + 1, t)
    }
}

/// In a list without repeats each seat's index is where it stands.
pub(crate) proof fn lemma_index_of_own_seat(order: Seq<Position>, j: int)
    requires
        order.no_duplicates(),
        0 <= j < order.len(),
    ensures
        index_in(order, order[j]) == Some(j),
{
    lemma_index_in_bounds(order, order[j]);
}

/// A step of a turn whose start seat may act either completes the turn or
/// moves the turn strictly further round the table from the start seat.
proof fn lemma_cycle_step_moves_on(order: Seq<Position>, eligible: Seq<bool>, a: ActorView, s: int, ic: int)
    requires
        order.no_duplicates(),
        eligible.len() == order.len(),
        0 <= s < order.len(),
        order[s] == a.start,
        eligible[s],
        !a.completed,
        0 <= ic < order.len(),
        a.current == Some(order[ic]),
    ensures
        ({
            let a2 = cycle_step(order, eligible, true, a).0;
            &&& a2.start == a.start
            &&& a2.completed || exists|j: int|
                0 <= j < order.len() && a2.current == Some(order[j]) && seat_distance(
                    order.len() as int,
                    s,
                    j,
                ) > seat_distance(order.len() as int, s, ic)
        }),
{
    let len = order.len() as int;
    lemma_index_of_own_seat(order, ic);
    let t = if s > ic { s - ic } else { s - ic + len };
    assert(wrap(len, ic, t) == s);
    let t1 = lemma_scan_stops_by(eligible, ic, 1, t);
    let j = wrap(len, ic, t1);
    if order[j] != a.start {
        if j == s {
            assert(false);
        }
        assert(seat_distance(len, s, j) > seat_distance(len, s, ic));
    }
}

/// A turn whose start seat may act ends within one round: after at most one
/// step more than there are seats, and every step after, the turn is over.
pub proof fn lemma_cycle_turn_ends(order: Seq<Position>, eligible: Seq<bool>, start: Position, n: nat)
    requires
        order.no_duplicates(),
        eligible.len() == order.len(),
        index_in(order, start) matches Some(s) && eligible[s],
        n > order.len(),
    ensures
        cycle_run(order, eligible, true, ActorView { start, current: None, completed: false }, n).completed,
    decreases n,
{
    let a0 = ActorView { start, current: None, completed: false };
    if n > order.len() + 1 {
        lemma_cycle_turn_ends(order, eligible, start, (n - 1) as nat);
        let prev = cycle_run(order, eligible, true, a0, (n - 1) as nat);
        assert(cycle_run(order, eligible, true, a0, n) == cycle_step(order, eligible, true, prev).0);
    } else {
        lemma_index_in_bounds(order, start);
        lemma_cycle_run_progress(order, eligible, start, n);
    }
}

/// After `m` steps of a turn whose start seat may act, the turn is over or
/// has gone at least `m - 1` seats round from the start seat.
proof fn lemma_cycle_run_progress(order: Seq<Position>, eligible: Seq<bool>, start: Position, m: nat)
    requires
        order.no_duplicates(),
        eligible.len() == order.len(),
        index_in(order, start) matches Some(s) && eligible[s],
        1 <= m,
    ensures
        ({
            let a = cycle_run(order, eligible, true, ActorView { start, current: None, completed: false }, m);
            let s = index_in(order, start).unwrap();
            &&& a.start == start
            &&& a.completed || exists|j: int|
                0 <= j < order.len() && a.current == Some(order[j]) && seat_distance(
                    order.len() as int,
                    s,
                    j,
                ) >= m - 1
        }),
    decreases m,
{
    let a0 = ActorView { start, current: None, completed: false };
    lemma_index_in_bounds(order, start);
    let s = index_in(order, start).unwrap();
    if m == 1 {
        assert(cycle_run(order, eligible, true, a0, 0) == a0);
        assert(seat_distance(order.len() as int, s, s) == 0);
    } else {
        lemma_cycle_run_progress(order, eligible, start, (m - 1) as nat);
        let a = cycle_run(order, eligible, true, a0, (m - 1) as nat);
        if !a.completed {
            let ic = choose|j: int|
                0 <= j < order.len() && a.current == Some(order[j]) && seat_distance(
                    order.len() as int,
                    s,
                    j,
                ) >= m - 2;
            lemma_cycle_step_moves_on(order, eligible, a, s, ic);
        }
    }
}

/// The index `x` seats round the table after index `s` (for `0 <= x <= len`;
/// `len` seats round is `s` again).
pub open spec fn index_at_distance(len: int, s: int, x: int) -> int {
    if s + x < len {
        s + x
    } else {
        s + x - len
    }
}

/// The least distance from `s`, at least `x` and at most `len`, whose seat
/// may act (`len` when none before coming back round to `s`).
pub open spec fn next_eligible_distance(eligible: Seq<bool>, s: int, x: int) -> int
    decreases eligible.len() - x,
{
    if x >= eligible.len() {
        eligible.len() as int
    } else if eligible[index_at_distance(eligible.len() as int, s, x)] {
        x
    } else {
        next_eligible_distance(eligible, s, x + 1)
    }
}

/// The next distance that may act lies between the one asked from and a
/// full round.
pub proof fn lemma_next_eligible_distance_bounds(eligible: Seq<bool>, s: int, x: int)
    ensures
        x <= eligible.len() ==> x <= next_eligible_distance(eligible, s, x) <= eligible.len(),
        x > eligible.len() ==> next_eligible_distance(eligible, s, x) == eligible.len(),
    decreases eligible.len() - x,
{
    if x < eligible.len() {
        lemma_next_eligible_distance_bounds(eligible, s, x + 1);
    }
}

/// The seats a turn hands out after the seat `d` seats round from the start
/// seat `order[s]`, in order round the table: each later seat that may act,
/// up to (not including) the start seat.
pub open spec fn turn_seats(order: Seq<Position>, eligible: Seq<bool>, s: int, d: int) -> Seq<Position>
    decreases order.len() - d,
{
    let nd = next_eligible_distance(eligible, s, d + 1);
    if d < 0 || d >= order.len() || nd >= order.len() || eligible.len() != order.len() {
        Seq::empty()
    } else {
        proof {
            lemma_next_eligible_distance_bounds(eligible, s, d + 1);
        }
        seq![order[index_at_distance(order.len() as int, s, nd)]] + turn_seats(order, eligible, s, nd)
    }
}

/// What `n` steps of a cyclic turn hand out, one entry a step.
pub open spec fn cycle_outputs(
    order: Seq<Position>,
    eligible: Seq<bool>,
    start_eligible: bool,
    a: ActorView,
    n: nat,
) -> Seq<Option<Position>>
    decreases n,
{
    if n == 0 {
        Seq::empty()
    } else {
        let (a1, o) = cycle_step(order, eligible, start_eligible, a);
        seq![o] + cycle_outputs(order, eligible, start_eligible, a1, (n - 1) as nat)
    }
}

/// Seats as the answers of turn steps.
pub open spec fn as_answers(seats: Seq<Position>) -> Seq<Option<Position>> {
    seats.map_values(|p: Position| Some(p))
}

/// A finished turn hands out nothing more.
proof fn lemma_completed_outputs(
    order: Seq<Position>,
    eligible: Seq<bool>,
    start_eligible: bool,
    a: ActorView,
    n: nat,
)
    requires
        a.completed,
    ensures
        cycle_outputs(order, eligible, start_eligible, a, n) == Seq::new(n, |i: int| None::<Position>),
    decreases n,
{
    if n > 0 {
        lemma_completed_outputs(order, eligible, start_eligible, a, (n - 1) as nat);
        assert(cycle_outputs(order, eligible, start_eligible, a, n) =~= Seq::new(n, |i: int| None::<Position>));
    }
}

/// Scanning from the seat `d` seats round finds the next seat that may act,
/// or the start seat once round.
proof fn lemma_scan_finds_next(eligible: Seq<bool>, s: int, d: int, t0: int)
    requires
        0 <= s < eligible.len(),
        eligible[s],
        0 <= d < eligible.len(),
        1 <= t0,
        d + t0 <= eligible.len(),
    ensures
        first_eligible_from(eligible, index_at_distance(eligible.len() as int, s, d), t0) == Some(
            index_at_distance(eligible.len() as int, s, next_eligible_distance(eligible, s, d + t0)),
        ),
    decreases eligible.len() - t0,
{
    let len = eligible.len() as int;
    let ic = index_at_distance(len, s, d);
    assert(wrap(len, ic, t0) == index_at_distance(len, s, d + t0));
    if d + t0 == len {
        assert(index_at_distance(len, s, len) == s);
    } else if !eligible[index_at_distance(len, s, d + t0)] {
        lemma_scan_finds_next(eligible, s, d, t0 + 1);
    }
}

/// From the seat `d` seats round, the turn hands out the seats that follow
/// and then ends.
proof fn lemma_outputs_from(
    order: Seq<Position>,
    eligible: Seq<bool>,
    s: int,
    d: int,
    a: ActorView,
    n: nat,
)
    requires
        order.no_duplicates(),
        eligible.len() == order.len(),
        0 <= s < order.len(),
        eligible[s],
        a.start == order[s],
        !a.completed,
        0 <= d < order.len(),
        a.current == Some(order[index_at_distance(order.len() as int, s, d)]),
        n > turn_seats(order, eligible, s, d).len(),
    ensures
        cycle_outputs(order, eligible, true, a, n) == as_answers(turn_seats(order, eligible, s, d)) + Seq::new(
            (n - turn_seats(order, eligible, s, d).len()) as nat,
            |i: int| None::<Position>,
        ),
    decreases order.len() - d,
{
    let len = order.len() as int;
    let ic = index_at_distance(len, s, d);
    lemma_index_of_own_seat(order, ic);
    lemma_next_eligible_distance_bounds(eligible, s, d + 1);
    lemma_scan_finds_next(eligible, s, d, 1);
    let nd = next_eligible_distance(eligible, s, d + 1);
    let j = index_at_distance(len, s, nd);
    let (a1, o) = cycle_step(order, eligible, true, a);
    let rest = turn_seats(order, eligible, s, d);
    if nd >= len {
        assert(j == s);
        assert(a1.completed && o is None);
        lemma_completed_outputs(order, eligible, true, a1, (n - 1) as nat);
        assert(rest.len() == 0);
        assert(cycle_outputs(order, eligible, true, a, n) =~= as_answers(rest) + Seq::new(
            n as nat,
            |i: int| None::<Position>,
        ));
    } else {
        if j == s {
            assert(false);
        }
        assert(order[j] != order[s]);
        assert(a1 == ActorView { current: Some(order[j]), ..a });
        let more = turn_seats(order, eligible, s, nd);
        assert(rest == seq![order[j]] + more);
        lemma_outputs_from(order, eligible, s, nd, a1, (n - 1) as nat);
        assert(cycle_outputs(order, eligible, true, a, n) =~= as_answers(rest) + Seq::new(
            (n - rest.len()) as nat,
            |i: int| None::<Position>,
        ));
    }
}

/// The order in which a turn whose start seat may act hands out seats: the
/// start seat first, then each later seat round the table that may act, once
/// each, and then nothing, ever after.
pub proof fn lemma_cycle_turn_order(order: Seq<Position>, eligible: Seq<bool>, start: Position, n: nat)
    requires
        order.no_duplicates(),
        eligible.len() == order.len(),
        index_in(order, start) matches Some(s) && eligible[s],
    ensures
        ({
            let s = index_in(order, start).unwrap();
            let seats = turn_seats(order, eligible, s, 0);
            n > seats.len() + 1 ==> cycle_outputs(
                order,
                eligible,
                true,
                ActorView { start, current: None, completed: false },
                n,
            ) == seq![Some(start)] + as_answers(seats) + Seq::new(
                (n - seats.len() - 1) as nat,
                |i: int| None::<Position>,
            )
        }),
{
    lemma_index_in_bounds(order, start);
    let s = index_in(order, start).unwrap();
    let seats = turn_seats(order, eligible, s, 0);
    if n > seats.len() + 1 {
        let a0 = ActorView { start, current: None, completed: false };
        let a1 = ActorView { current: Some(start), ..a0 };
        assert(cycle_step(order, eligible, true, a0) == (a1, Some(start)));
        assert(index_at_distance(order.len() as int, s, 0) == s);
        lemma_outputs_from(order, eligible, s, 0, a1, (n - 1) as nat);
        assert(cycle_outputs(order, eligible, true, a0, n) =~= seq![Some(start)] + as_answers(seats)
            + Seq::new((n - seats.len() - 1) as nat, |i: int| None::<Position>));
    }
}

/// The first index at which chair `c` stands in `order`.
pub open spec fn index_in_chairs(order: Seq<crate::engine::state::table::chair::Chair>, c: crate::engine::state::table::chair::Chair) -> Option<int>
    decreases order.len(),
{
    if order.len() == 0 {
        None
    } else if order[0] == c {
        Some(0)
    } else {
        match index_in_chairs(order.drop_first(), c) {
            Some(i) => Some(i + 1),
            None => None,
        }
    }
}

/// The first index of chair `c` in `order`.
pub fn find_chair(order: &Vec<crate::engine::state::table::chair::Chair>, c: crate::engine::state::table::chair::Chair) -> (r: Option<usize>)
    ensures
        r matches Some(i) ==> index_in_chairs(order@, c) == Some(i as int) && i < order@.len(),
        r is None ==> index_in_chairs(order@, c) is None,
{
    let mut i: usize = 0;
    assert(order@.subrange(0, order@.len() as int) =~= order@);
    while i < order.len()
        invariant
            0 <= i <= order.len(),
            index_in_chairs(order@, c) == (match index_in_chairs(order@.subrange(i as int, order@.len() as int), c) {
                Some(k) => Some(k + i),
                None => None,
            }),
        decreases order.len() - i,
    {
        let ghost rest = order@.subrange(i as int, order@.len() as int);
        assert(rest.drop_first() =~= order@.subrange(i + 1, order@.len() as int));
        if order[i] == c {
            return Some(i);
        }
        i = i + 1;
    }
    assert(order@.subrange(i as int, order@.len() as int) =~= Seq::<crate::engine::state::table::chair::Chair>::empty());
    None
}

} // verus!
