use vstd::prelude::*;
use crate::text::{decimal, push_decimal, push_text};

use std::collections::{HashMap, HashSet};

use crate::domain::position::Position;
use crate::engine::game::actor::{Actor, ActorView};
use crate::engine::turn::{cycle_step, next_in_cycle};
use crate::snapshot::{self, Snapshot};

verus! {

broadcast use vstd::std_specs::hash::group_hash_axioms;

/// The nominations and votes of one voting round.
///
/// Seats are keyed by their number: `nominations` maps a nominator's seat to
/// the nominee, `votes` maps a nominee's seat to the voters in the order they
/// voted, and `voters` holds the seats that may still vote.
#[derive(Debug)]
pub struct Voting {
    nominations: HashMap<u8, Position>,
    nominees: Vec<Position>,
    voters: HashSet<u8>,
    votes: HashMap<u8, Vec<Position>>,
}

/// The abstract state of a [`Voting`].
pub struct VotingView {
    pub nominations: Map<u8, Position>,
    pub nominees: Seq<Position>,
    pub voters: Set<u8>,
    pub votes: Map<u8, Seq<Position>>,
}

impl View for Voting {
    type V = VotingView;

    closed spec fn view(&self) -> VotingView {
        VotingView {
            nominations: self.nominations@,
            nominees: self.nominees@,
            voters: self.voters@,
            votes: self.votes@.map_values(|l: Vec<Position>| l@),
        }
    }
}

#[derive(Debug, Clone, Copy, PartialEq, Eq, Structural)]
pub enum Event {
    Nominated { nominator: Position, nominee: Position },
    Voted { voter: Position, nominee: Position },
}

#[derive(Debug, Clone, Copy, PartialEq, Eq, Structural)]
pub enum Error {
    NominationAlreadyExists(Position),
    AlreadyVoted(Position, Position),
    InvalidNominee(Position),
    InvalidNominator(Position),
    InvalidVoter(Position),
}

/// The seats of a list of positions.
pub open spec fn seat_set(s: Seq<Position>) -> Set<u8> {
    Set::new(|k: u8| exists|j: int| 0 <= j < s.len() && (#[trigger] s[j]).0 == k)
}

/// Whether `voter` has cast a vote for anyone.
pub open spec fn has_voted(v: VotingView, voter: Position) -> bool {
    exists|k: u8| #[trigger] v.votes.contains_key(k) && v.votes[k].contains(voter)
}

/// Every vote counted is counted once: a seat appears at most once across
/// all the lists of voters.
pub open spec fn votes_unique(v: VotingView) -> bool {
    forall|k1: u8, k2: u8, i: int, j: int|
        #![trigger v.votes[k1][i], v.votes[k2][j]]
        v.votes.contains_key(k1) && v.votes.contains_key(k2) && 0 <= i < v.votes[k1].len() && 0 <= j
            < v.votes[k2].len() && v.votes[k1][i] == v.votes[k2][j] ==> k1 == k2 && i == j
}

/// A consistent voting round: votes go only to nominees, every vote list is
/// non-empty, whoever has voted may not vote again, and nobody's vote is
/// counted twice.
pub open spec fn voting_wf(v: VotingView) -> bool {
    &&& forall|k: u8| #[trigger] v.votes.contains_key(k) ==> v.nominees.contains(Position(k))
    &&& forall|k: u8| #[trigger] v.votes.contains_key(k) ==> v.votes[k].len() > 0
    &&& forall|k: u8, p: Position|
        v.votes.contains_key(k) && #[trigger] v.votes[k].contains(p) ==> !v.voters.contains(p.0)
    &&& votes_unique(v)
}

/// A fresh voting round with the given nominees and eligible voters.
pub open spec fn fresh_voting(nominees: Seq<Position>, voters: Seq<Position>) -> VotingView {
    VotingView {
        nominations: Map::empty(),
        nominees,
        voters: seat_set(voters),
        votes: Map::empty(),
    }
}

/// The outcome of a nomination.
pub open spec fn nominated(v: VotingView, nominator: Position, nominee: Position) -> Result<
    VotingView,
    Error,
> {
    if !v.voters.contains(nominator.0) {
        Err(Error::InvalidNominator(nominator))
    } else if v.nominations.contains_key(nominator.0) {
        Err(Error::NominationAlreadyExists(nominator))
    } else {
        Ok(
            VotingView {
                nominations: v.nominations.insert(nominator.0, nominee),
                nominees: if v.nominees.contains(nominee) {
                    v.nominees
                } else {
                    v.nominees.push(nominee)
                },
                ..v
            },
        )
    }
}

/// The voters recorded for a nominee so far.
pub open spec fn votes_of(v: VotingView, nominee: Position) -> Seq<Position> {
    if v.votes.contains_key(nominee.0) {
        v.votes[nominee.0]
    } else {
        Seq::empty()
    }
}

/// The outcome of a single vote: a voter votes at most once, must be
/// eligible, and may only vote for a nominee.
pub open spec fn voted(v: VotingView, voter: Position, nominee: Position) -> Result<
    VotingView,
    Error,
> {
    if has_voted(v, voter) {
        Err(Error::AlreadyVoted(voter, nominee))
    } else if !v.voters.contains(voter.0) {
        Err(Error::InvalidVoter(voter))
    } else if !v.nominees.contains(nominee) {
        Err(Error::InvalidNominee(nominee))
    } else {
        Ok(
            VotingView {
                votes: v.votes.insert(nominee.0, votes_of(v, nominee).push(voter)),
                voters: v.voters.remove(voter.0),
                ..v
            },
        )
    }
}

/// Where a batch of votes stands after some of its voters.
pub struct BatchState {
    pub view: VotingView,
    pub events: Seq<Event>,
    pub error: Option<Error>,
}

/// One voter of a batch. A voter seen earlier in the batch, or no longer
/// eligible, is skipped; in strict mode either stops the batch with an error.
pub open spec fn batch_step(
    st: BatchState,
    nominee: Position,
    voter: Position,
    duplicate: bool,
    strict: bool,
) -> BatchState {
    if st.error is Some {
        st
    } else if duplicate {
        if strict {
            BatchState { error: Some(Error::AlreadyVoted(voter, nominee)), ..st }
        } else {
            st
        }
    } else if !st.view.voters.contains(voter.0) {
        if strict {
            BatchState {
                error: Some(
                    if has_voted(st.view, voter) {
                        Error::AlreadyVoted(voter, nominee)
                    } else {
                        Error::InvalidVoter(voter)
                    },
                ),
                ..st
            }
        } else {
            st
        }
    } else {
        match voted(st.view, voter, nominee) {
            Ok(v2) => BatchState {
                view: v2,
                events: st.events.push(Event::Voted { voter, nominee }),
                error: None,
            },
            Err(e) => BatchState { error: Some(e), ..st },
        }
    }
}

/// The batch after its first `i` voters.
pub open spec fn batch_prefix(
    v: VotingView,
    nominee: Position,
    voters: Seq<Position>,
    strict: bool,
    i: nat,
) -> BatchState
    decreases i,
{
    if i == 0 {
        BatchState { view: v, events: Seq::empty(), error: None }
    } else {
        let k = (i - 1) as nat;
        batch_step(
            batch_prefix(v, nominee, voters, strict, k),
            nominee,
            voters[k as int],
            voters.take(k as int).contains(voters[k as int]),
            strict,
        )
    }
}

proof fn lemma_batch_error_sticks(
    v: VotingView,
    nominee: Position,
    voters: Seq<Position>,
    strict: bool,
    i: nat,
    j: nat,
)
    requires
        i <= j,
        batch_prefix(v, nominee, voters, strict, i).error is Some,
    ensures
        batch_prefix(v, nominee, voters, strict, j) == batch_prefix(v, nominee, voters, strict, i),
    decreases j - i,
{
    if j > i {
        lemma_batch_error_sticks(v, nominee, voters, strict, i, (j - 1) as nat);
    }
}

/// How many votes a nominee has.
pub open spec fn vote_count(v: VotingView, n: Position) -> nat {
    votes_of(v, n).len()
}

/// The highest vote count among the nominees in `s`.
pub open spec fn max_count(v: VotingView, s: Seq<Position>) -> nat
    decreases s.len(),
{
    if s.len() == 0 {
        0
    } else {
        let m = max_count(v, s.drop_last());
        let c = vote_count(v, s.last());
        if c > m {
            c
        } else {
            m
        }
    }
}

/// The nominees with the most votes, in nomination order; nobody when no
/// vote has been cast.
pub open spec fn winners_of(v: VotingView) -> Seq<Position> {
    if v.votes.dom().len() == 0 {
        Seq::empty()
    } else {
        v.nominees.filter(|n: Position| vote_count(v, n) == max_count(v, v.nominees))
    }
}

/// One step of the turn over the nominees, everyone eligible; with no
/// nominees the turn is over at once.
pub open spec fn nominee_turn_step(v: VotingView, a: ActorView) -> (ActorView, Option<Position>) {
    if a.completed {
        (a, None)
    } else if v.nominees.len() == 0 {
        (ActorView { completed: true, ..a }, None)
    } else {
        cycle_step(v.nominees, Seq::new(v.nominees.len(), |i: int| true), true, a)
    }
}

proof fn lemma_max_count_bounds(v: VotingView, s: Seq<Position>)
    ensures
        forall|j: int| 0 <= j < s.len() ==> vote_count(v, #[trigger] s[j]) <= max_count(v, s),
        s.len() > 0 ==> exists|j: int| 0 <= j < s.len() && vote_count(v, #[trigger] s[j]) == max_count(v, s),
    decreases s.len(),
{
    if s.len() > 0 {
        lemma_max_count_bounds(v, s.drop_last());
        assert forall|j: int| 0 <= j < s.len() implies vote_count(v, #[trigger] s[j]) <= max_count(v, s) by {
            if j < s.len() - 1 {
                assert(s.drop_last()[j] == s[j]);
            }
        }
        if max_count(v, s) == vote_count(v, s.last()) {
            assert(vote_count(v, s[s.len() - 1]) == max_count(v, s));
        } else {
            let j = choose|j: int| 0 <= j < s.drop_last().len() && vote_count(v, #[trigger] s.drop_last()[j]) == max_count(v, s.drop_last());
            assert(s.drop_last()[j] == s[j]);
        }
    }
}

/// The highest vote count is reached by some nominee and exceeded by none;
/// when a vote was cast, the winners are exactly the nominees that reach it.
pub proof fn lemma_winners_have_most_votes(v: VotingView, n: Position)
    ensures
        forall|j: int|
            0 <= j < v.nominees.len() ==> vote_count(v, #[trigger] v.nominees[j]) <= max_count(
                v,
                v.nominees,
            ),
        v.nominees.len() > 0 ==> exists|j: int|
            0 <= j < v.nominees.len() && vote_count(v, #[trigger] v.nominees[j]) == max_count(
                v,
                v.nominees,
            ),
        v.votes.dom().len() > 0 ==> (winners_of(v).contains(n) <==> (v.nominees.contains(n)
            && vote_count(v, n) == max_count(v, v.nominees))),
{
    broadcast use vstd::seq_lib::group_filter_ensures;

    let pred = |m: Position| vote_count(v, m) == max_count(v, v.nominees);
    lemma_max_count_bounds(v, v.nominees);
    if v.votes.dom().len() > 0 {
        let w = v.nominees.filter(pred);
        if w.contains(n) {
            let i = choose|i: int| 0 <= i < w.len() && w[i] == n;
            assert(pred(w[i]));
            v.nominees.lemma_filter_contains_rev(pred, n);
        }
        if v.nominees.contains(n) && vote_count(v, n) == max_count(v, v.nominees) {
            let i = choose|i: int| 0 <= i < v.nominees.len() && v.nominees[i] == n;
            assert(pred(v.nominees[i]));
            assert(w.contains(v.nominees[i]));
        }
    }
}

/// A player nominates at most once a round: after a nomination, any other
/// nomination by the same player is refused.
pub proof fn lemma_one_nomination_per_player(v: VotingView, nominator: Position, first: Position, second: Position)
    requires
        nominated(v, nominator, first) is Ok,
    ensures
        nominated(nominated(v, nominator, first).unwrap(), nominator, second) == Err::<VotingView, Error>(
            Error::NominationAlreadyExists(nominator),
        ),
{
}

/// A player votes at most once a round: after a vote, any other vote by the
/// same player is refused.
pub proof fn lemma_one_vote_per_player(v: VotingView, voter: Position, first: Position, second: Position)
    requires
        voted(v, voter, first) is Ok,
    ensures
        voted(voted(v, voter, first).unwrap(), voter, second) == Err::<VotingView, Error>(
            Error::AlreadyVoted(voter, second),
        ),
{
    let v2 = voted(v, voter, first).unwrap();
    assert(v2.votes.contains_key(first.0));
    assert(v2.votes[first.0].last() == voter);
    assert(v2.votes[first.0].contains(voter));
    assert(has_voted(v2, voter));
}

/// Votes are never taken back: a vote keeps every list of voters recorded
/// so far as a prefix of the new one.
pub proof fn lemma_votes_only_grow(v: VotingView, voter: Position, nominee: Position, n: Position)
    requires
        voted(v, voter, nominee) is Ok,
    ensures
        votes_of(v, n).is_prefix_of(votes_of(voted(v, voter, nominee).unwrap(), n)),
{
    let v2 = voted(v, voter, nominee).unwrap();
    if n.0 == nominee.0 {
        assert(n == nominee);
        assert(votes_of(v2, n) == votes_of(v, n).push(voter));
        assert(votes_of(v, n).is_prefix_of(votes_of(v, n).push(voter)));
    } else {
        assert(votes_of(v2, n) == votes_of(v, n));
    }
}

/// Nominations and votes keep a voting round consistent.
pub proof fn lemma_round_stays_consistent(v: VotingView, a: Position, b: Position)
    requires
        voting_wf(v),
    ensures
        nominated(v, a, b) matches Ok(v2) ==> voting_wf(v2),
        voted(v, a, b) matches Ok(v2) ==> voting_wf(v2),
{
    if let Ok(v2) = nominated(v, a, b) {
        assert forall|k: u8| #[trigger] v2.votes.contains_key(k) implies v2.nominees.contains(Position(k)) by {
            assert(v.nominees.contains(Position(k)));
            if !v.nominees.contains(b) {
                let j = choose|j: int| 0 <= j < v.nominees.len() && v.nominees[j] == Position(k);
                assert(v2.nominees[j] == Position(k));
            }
        }
    }
    if let Ok(v2) = voted(v, a, b) {
        assert forall|k: u8, p: Position|
            v2.votes.contains_key(k) && #[trigger] v2.votes[k].contains(p) implies !v2.voters.contains(p.0) by {
            if k == b.0 {
                let l = votes_of(v, b);
                assert(v2.votes[k] == l.push(a));
                if p != a {
                    let j = choose|j: int| 0 <= j < l.push(a).len() && l.push(a)[j] == p;
                    assert(l[j] == p);
                    assert(v.votes.contains_key(k));
                    assert(v.votes[k].contains(p));
                }
            } else {
                assert(v2.votes[k] == v.votes[k]);
            }
        }
        let l = votes_of(v, b);
        assert forall|k1: u8, k2: u8, i: int, j: int|
            v2.votes.contains_key(k1) && v2.votes.contains_key(k2) && 0 <= i < v2.votes[k1].len() && 0
                <= j < v2.votes[k2].len() && #[trigger] v2.votes[k1][i] == #[trigger] v2.votes[k2][j]
            implies k1 == k2 && i == j by {
            let new1 = k1 == b.0 && i == l.len();
            let new2 = k2 == b.0 && j == l.len();
            if !new1 {
                assert(v.votes.contains_key(k1));
                assert(v2.votes[k1][i] == v.votes[k1][i]);
            }
            if !new2 {
                assert(v.votes.contains_key(k2));
                assert(v2.votes[k2][j] == v.votes[k2][j]);
            }
            if new1 && !new2 {
                assert(v.votes[k2].contains(a));
                assert(has_voted(v, a));
            }
            if !new1 && new2 {
                assert(v.votes[k1].contains(a));
                assert(has_voted(v, a));
            }
        }
    }
}

/// How a voting is shown: its nominations, nominees and votes.
pub open spec fn voting_snapshot(v: VotingView) -> snapshot::VotingView {
    snapshot::VotingView { nominations: v.nominations, nominees: v.nominees, votes: v.votes }
}

impl Snapshot for Voting {
    type Output = snapshot::Voting;

    fn snapshot(&self) -> (s: snapshot::Voting)
        ensures
            s@ == voting_snapshot(self@),
    {
        let s = snapshot::Voting {
            nominations: self.nominations.clone(),
            nominees: copy_positions(self.nominees.as_slice()),
            votes: self.votes.clone(),
        };
        assert(s@.votes =~= self@.votes);
        s
    }
}

/// A vector holding the positions of a slice.
pub fn copy_positions(s: &[Position]) -> (v: Vec<Position>)
    ensures
        v@ == s@,
{
    let mut v: Vec<Position> = Vec::new();
    let mut i: usize = 0;
    while i < s.len()
        invariant
            0 <= i <= s.len(),
            v@ == s@.take(i as int),
        decreases s.len() - i,
    {
        v.push(s[i]);
        assert(s@.take(i + 1) =~= s@.take(i as int).push(s@[i as int]));
        i = i + 1;
    }
    assert(s@.take(s@.len() as int) =~= s@);
    v
}

/// Whether `p` is in `list`.
pub fn contains_position(list: &Vec<Position>, p: Position) -> (b: bool)
    ensures
        b == list@.contains(p),
{
    let mut i: usize = 0;
    while i < list.len()
        invariant
            0 <= i <= list.len(),
            forall|j: int| 0 <= j < i ==> list@[j] != p,
        decreases list.len() - i,
    {
        if list[i] == p {
            return true;
        }
        i = i + 1;
    }
    false
}

impl Voting {
    /// A consistent voting round.
    pub open spec fn wf(&self) -> bool {
        voting_wf(self@)
    }

    fn seats_of(positions: &[Position]) -> (s: HashSet<u8>)
        ensures
            s@ == seat_set(positions@),
    {
        let mut s: HashSet<u8> = HashSet::new();
        let mut i: usize = 0;
        while i < positions.len()
            invariant
                0 <= i <= positions.len(),
                s@ == seat_set(positions@.take(i as int)),
            decreases positions.len() - i,
        {
            s.insert(positions[i].0);
            proof {
                let t = positions@.take(i + 1);
                assert(t[i as int] == positions@[i as int]);
                assert forall|k: u8| s@.contains(k) <==> seat_set(t).contains(k) by {
                    if seat_set(t).contains(k) {
                        let j = choose|j: int| 0 <= j < t.len() && (#[trigger] t[j]).0 == k;
                        if j < i {
                            assert(positions@.take(i as int)[j] == t[j]);
                        }
                    }
                    if seat_set(positions@.take(i as int)).contains(k) {
                        let j = choose|j: int| 0 <= j < i && (#[trigger] positions@.take(i as int)[j]).0 == k;
                        assert(positions@.take(i as int)[j] == t[j]);
                    }
                }
                assert(s@ =~= seat_set(t));
            }
            i = i + 1;
        }
        assert(positions@.take(positions@.len() as int) =~= positions@);
        s
    }

    /// A voting round with no nominees yet; `voters` may nominate and vote.
    pub fn new(voters: &[Position]) -> (v: Voting)
        ensures
            v@ == fresh_voting(Seq::empty(), voters@),
            v.wf(),
    {
        let v = Voting {
            nominations: HashMap::new(),
            nominees: Vec::new(),
            voters: Self::seats_of(voters),
            votes: HashMap::new(),
        };
        assert(v@.votes =~= Map::<u8, Seq<Position>>::empty());
        v
    }

    /// A voting round over the given nominees (a re-vote between tied players).
    pub fn from_nominees(nominees: &[Position], voters: &[Position]) -> (v: Voting)
        ensures
            v@ == fresh_voting(nominees@, voters@),
            v.wf(),
    {
        let v = Voting {
            nominations: HashMap::new(),
            nominees: copy_positions(nominees),
            voters: Self::seats_of(voters),
            votes: HashMap::new(),
        };
        assert(v@.votes =~= Map::<u8, Seq<Position>>::empty());
        v
    }

    pub fn has_nominees(&self) -> (b: bool)
        ensures
            b == (self@.nominees.len() > 0),
    {
        self.nominees.len() > 0
    }

    pub fn nominee_count(&self) -> (n: usize)
        ensures
            n == self@.nominees.len(),
    {
        self.nominees.len()
    }

    pub fn get_nominees(&self) -> (s: &[Position])
        ensures
            s@ == self@.nominees,
    {
        self.nominees.as_slice()
    }

    /// Whether `pos` may still vote.
    pub fn is_eligible(&self, pos: Position) -> (b: bool)
        ensures
            b == self@.voters.contains(pos.0),
    {
        self.voters.contains(&pos.0)
    }

    /// The voters recorded for `nominee`, in voting order, if anyone voted for them.
    pub fn votes_for(&self, nominee: Position) -> (r: Option<&Vec<Position>>)
        ensures
            r matches Some(l) ==> self@.votes.contains_key(nominee.0) && l@ == self@.votes[nominee.0],
            r is None ==> !self@.votes.contains_key(nominee.0),
    {
        self.votes.get(&nominee.0)
    }

    /// Who nominated `nominee`... the nominee chosen by `nominator`, if any.
    pub fn nomination_of(&self, nominator: Position) -> (r: Option<Position>)
        ensures
            r matches Some(n) ==> self@.nominations.contains_key(nominator.0)
                && n == self@.nominations[nominator.0],
            r is None ==> !self@.nominations.contains_key(nominator.0),
    {
        match self.nominations.get(&nominator.0) {
            Some(n) => Some(*n),
            None => None,
        }
    }

    /// A player nominates another; each player nominates at most once, and
    /// only players who may vote may nominate.
    pub fn nominate(&mut self, nominator: Position, nominee: Position) -> (r: Result<Vec<Event>, Error>)
        requires
            old(self).wf(),
        ensures
            final(self).wf(),
            match nominated(old(self)@, nominator, nominee) {
                Ok(v2) => final(self)@ == v2 && (r matches Ok(events) && events@ == seq![
                    Event::Nominated { nominator, nominee },
                ]),
                Err(e) => final(self)@ == old(self)@ && r == Err::<Vec<Event>, Error>(e),
            },
    {
        if !self.voters.contains(&nominator.0) {
            return Err(Error::InvalidNominator(nominator));
        }
        if self.nominations.contains_key(&nominator.0) {
            return Err(Error::NominationAlreadyExists(nominator));
        }
        self.nominations.insert(nominator.0, nominee);
        if !contains_position(&self.nominees, nominee) {
            self.nominees.push(nominee);
        }
        proof {
            assert forall|k: u8| #[trigger] self@.votes.contains_key(k) implies self@.nominees.contains(
                Position(k),
            ) by {
                assert(old(self)@.nominees.contains(Position(k)));
                let i = choose|i: int| 0 <= i < old(self)@.nominees.len() && old(self)@.nominees[i] == Position(k);
                assert(self@.nominees[i] == Position(k));
            }
        }
        Ok(vec![Event::Nominated { nominator, nominee }])
    }

    /// Whether `voter` has already voted for someone.
    fn voter_has_voted(&self, voter: Position) -> (b: bool)
        requires
            self.wf(),
        ensures
            b == has_voted(self@, voter),
    {
        let mut i: usize = 0;
        while i < self.nominees.len()
            invariant
                0 <= i <= self.nominees.len(),
                self.wf(),
                forall|j: int|
                    0 <= j < i ==> !(self@.votes.contains_key((#[trigger] self@.nominees[j]).0)
                        && self@.votes[self@.nominees[j].0].contains(voter)),
            decreases self.nominees.len() - i,
        {
            let n = self.nominees[i];
            match self.votes.get(&n.0) {
                Some(list) => {
                    if contains_position(list, voter) {
                        assert(self@.votes.contains_key(n.0) && self@.votes[n.0].contains(voter));
                        return true;
                    }
                },
                None => {},
            }
            i = i + 1;
        }
        proof {
            if has_voted(self@, voter) {
                let k = choose|k: u8| #[trigger] self@.votes.contains_key(k) && self@.votes[k].contains(voter);
                assert(self@.nominees.contains(Position(k)));
                let j = choose|j: int| 0 <= j < self@.nominees.len() && self@.nominees[j] == Position(k);
                assert(self@.nominees[j].0 == k);
            }
        }
        false
    }

    /// Records one vote: a voter votes once, must be eligible, and may only
    /// vote for a nominee. The voter then loses eligibility.
    pub fn vote(&mut self, voter: Position, nominee: Position) -> (r: Result<Vec<Event>, Error>)
        requires
            old(self).wf(),
        ensures
            final(self).wf(),
            match voted(old(self)@, voter, nominee) {
                Ok(v2) => final(self)@ == v2 && (r matches Ok(events) && events@ == seq![
                    Event::Voted { voter, nominee },
                ]),
                Err(e) => final(self)@ == old(self)@ && r == Err::<Vec<Event>, Error>(e),
            },
    {
        if self.voter_has_voted(voter) {
            return Err(Error::AlreadyVoted(voter, nominee));
        }
        if !self.voters.contains(&voter.0) {
            return Err(Error::InvalidVoter(voter));
        }
        if !contains_position(&self.nominees, nominee) {
            return Err(Error::InvalidNominee(nominee));
        }
        let ghost old_view = self@;
        let mut list = match self.votes.remove(&nominee.0) {
            Some(l) => l,
            None => Vec::new(),
        };
        assert(list@ == votes_of(old_view, nominee));
        list.push(voter);
        self.votes.insert(nominee.0, list);
        self.voters.remove(&voter.0);
        proof {
            let new_view = self@;
            assert(new_view.votes =~= old_view.votes.insert(nominee.0, votes_of(old_view, nominee).push(voter)));
            assert forall|k: u8, p: Position|
                new_view.votes.contains_key(k) && #[trigger] new_view.votes[k].contains(p) implies !new_view.voters.contains(p.0) by {
                if k == nominee.0 {
                    let lst = votes_of(old_view, nominee).push(voter);
                    let j = choose|j: int| 0 <= j < lst.len() && lst[j] == p;
                    if j < lst.len() - 1 {
                        assert(old_view.votes.contains_key(k));
                        assert(old_view.votes[k][j] == p);
                        assert(old_view.votes[k].contains(p));
                    }
                } else {
                    assert(old_view.votes.contains_key(k));
                }
            }
        }
        Ok(vec![Event::Voted { voter, nominee }])
    }

    /// Records the votes of several voters for one nominee.
    ///
    /// A voter listed twice, or no longer eligible, is skipped; with `strict`
    /// either ends the batch with an error, the votes before it staying
    /// recorded.
    pub fn batch_vote(&mut self, nominee: Position, voters: &[Position], strict: bool) -> (r: Result<Vec<Event>, Error>)
        requires
            old(self).wf(),
        ensures
            final(self).wf(),
            !old(self)@.nominees.contains(nominee) ==> final(self)@ == old(self)@ && r == Err::<Vec<Event>, Error>(
                Error::InvalidNominee(nominee),
            ),
            old(self)@.nominees.contains(nominee) ==> ({
                let st = batch_prefix(old(self)@, nominee, voters@, strict, voters@.len());
                &&& final(self)@ == st.view
                &&& match st.error {
                    Some(e) => r == Err::<Vec<Event>, Error>(e),
                    None => r matches Ok(events) && events@ == st.events,
                }
            }),
    {
        if !contains_position(&self.nominees, nominee) {
            return Err(Error::InvalidNominee(nominee));
        }
        let ghost v0 = self@;
        let mut events: Vec<Event> = Vec::new();
        let mut seen: HashSet<u8> = HashSet::new();
        let mut i: usize = 0;
        while i < voters.len()
            invariant
                0 <= i <= voters.len(),
                self.wf(),
                v0 == old(self)@,
                v0.nominees.contains(nominee),
                batch_prefix(v0, nominee, voters@, strict, i as nat) == (BatchState {
                    view: self@,
                    events: events@,
                    error: None,
                }),
                seen@ == seat_set(voters@.take(i as int)),
            decreases voters.len() - i,
        {
            let voter = voters[i];
            proof {
                let t = voters@.take(i as int);
                let t1 = voters@.take(i + 1);
                assert(t1[i as int] == voter);
                if seen@.contains(voter.0) {
                    let j = choose|j: int| 0 <= j < t.len() && (#[trigger] t[j]).0 == voter.0;
                    assert(t[j] == voter);
                }
                if t.contains(voter) {
                    let j = choose|j: int| 0 <= j < t.len() && t[j] == voter;
                    assert(seat_set(t).contains(t[j].0));
                }
                assert(seen@.contains(voter.0) == t.contains(voter));
                assert forall|k: u8| seen@.insert(voter.0).contains(k) <==> seat_set(t1).contains(k) by {
                    if seat_set(t1).contains(k) {
                        let j = choose|j: int| 0 <= j < t1.len() && (#[trigger] t1[j]).0 == k;
                        if j < i {
                            assert(t[j] == t1[j]);
                        }
                    }
                    if seat_set(t).contains(k) {
                        let j = choose|j: int| 0 <= j < i && (#[trigger] t[j]).0 == k;
                        assert(t[j] == t1[j]);
                    }
                }
                assert(seen@.insert(voter.0) =~= seat_set(t1));
            }
            let fresh = !seen.contains(&voter.0);
            seen.insert(voter.0);
            let ghost before = batch_prefix(v0, nominee, voters@, strict, i as nat);
            let ghost after = batch_prefix(v0, nominee, voters@, strict, (i + 1) as nat);
            assert(after == batch_step(before, nominee, voter, !fresh, strict));
            if !fresh {
                if strict {
                    proof {
                        lemma_batch_error_sticks(v0, nominee, voters@, strict, (i + 1) as nat, voters@.len());
                    }
                    return Err(Error::AlreadyVoted(voter, nominee));
                } else {
                    i = i + 1;
                    continue;
                }
            }
            if !self.is_eligible(voter) {
                if strict {
                    proof {
                        lemma_batch_error_sticks(v0, nominee, voters@, strict, (i + 1) as nat, voters@.len());
                    }
                    if self.voter_has_voted(voter) {
                        return Err(Error::AlreadyVoted(voter, nominee));
                    } else {
                        return Err(Error::InvalidVoter(voter));
                    }
                } else {
                    i = i + 1;
                    continue;
                }
            }
            match self.vote(voter, nominee) {
                Ok(mut evs) => {
                    let ghost prev = events@;
                    events.append(&mut evs);
                    assert(events@ =~= prev.push(Event::Voted { voter, nominee }));
                },
                Err(e) => {
                    proof {
                        lemma_batch_error_sticks(v0, nominee, voters@, strict, (i + 1) as nat, voters@.len());
                    }
                    return Err(e);
                },
            }
            i = i + 1;
        }
        assert(voters@.take(voters@.len() as int) =~= voters@);
        Ok(events)
    }

    /// The nominees with the most votes, in nomination order; empty when no
    /// vote has been cast.
    pub fn winners(&self) -> (w: Vec<Position>)
        requires
            self.wf(),
        ensures
            w@ == winners_of(self@),
    {
        if self.votes.is_empty() {
            assert(self@.votes.dom() =~= Set::<u8>::empty());
            return Vec::new();
        }
        assert(self@.votes.dom().len() > 0) by {
            assert(self.votes@.dom() =~= self@.votes.dom());
        }
        let ghost v = self@;
        let n = self.nominees.len();
        let mut max: usize = 0;
        let mut i: usize = 0;
        while i < n
            invariant
                0 <= i <= n,
                n == self@.nominees.len(),
                v == self@,
                max as nat == max_count(v, v.nominees.take(i as int)),
            decreases n - i,
        {
            let c = self.count_of(self.nominees[i]);
            assert(v.nominees.take(i + 1).drop_last() =~= v.nominees.take(i as int));
            if c > max {
                max = c;
            }
            i = i + 1;
        }
        assert(v.nominees.take(n as int) =~= v.nominees);
        let ghost pred = |m: Position| vote_count(v, m) == max_count(v, v.nominees);
        assert(winners_of(v) == v.nominees.filter(pred));
        let mut result: Vec<Position> = Vec::new();
        let mut i: usize = 0;
        assert(v.nominees.take(0) =~= Seq::<Position>::empty());
        proof {
            reveal(Seq::filter);
        }
        while i < n
            invariant
                0 <= i <= n,
                n == self@.nominees.len(),
                v == self@,
                max as nat == max_count(v, v.nominees),
                result@ == v.nominees.take(i as int).filter(pred),
                pred == (|m: Position| vote_count(v, m) == max_count(v, v.nominees)),
            decreases n - i,
        {
            let m = self.nominees[i];
            let c = self.count_of(m);
            proof {
                assert(v.nominees.take(i + 1) =~= v.nominees.take(i as int).push(m));
                v.nominees.take(i as int).lemma_filter_push(m, pred);
                assert(pred(m) == (c == max));
            }
            if c == max {
                result.push(m);
            }
            i = i + 1;
        }
        result
    }

    /// How many votes `nominee` has.
    fn count_of(&self, nominee: Position) -> (c: usize)
        ensures
            c as nat == vote_count(self@, nominee),
    {
        match self.votes.get(&nominee.0) {
            Some(list) => list.len(),
            None => 0,
        }
    }

    /// Moves the turn to the next nominee, in nomination order, wrapping
    /// round; the turn is over when it comes back to where it started.
    pub fn next_actor(&self, actor: &mut Actor) -> (r: Option<Position>)
        ensures
            (final(actor)@, r) == nominee_turn_step(self@, old(actor)@),
    {
        if actor.is_completed() {
            return None;
        }
        if self.nominees.len() == 0 {
            actor.set_completed(true);
            return None;
        }
        let mut eligible: Vec<bool> = Vec::new();
        let mut i: usize = 0;
        while i < self.nominees.len()
            invariant
                0 <= i <= self.nominees.len(),
                eligible@ == Seq::new(i as nat, |j: int| true),
            decreases self.nominees.len() - i,
        {
            eligible.push(true);
            i = i + 1;
        }
        next_in_cycle(&self.nominees, &eligible, true, actor)
    }
}


/// How a voting event reads.
pub open spec fn event_text(e: Event) -> Seq<char> {
    match e {
        Event::Nominated { nominator, nominee } => "Player at position "@ + decimal(nominator.0 as nat)
            + " has nominated "@ + decimal(nominee.0 as nat),
        Event::Voted { voter, nominee } => "Player at position "@ + decimal(voter.0 as nat) + " has voted for "@
            + decimal(nominee.0 as nat),
    }
}

impl Event {
    /// How the event reads.
    pub fn to_string(&self) -> (s: String)
        ensures
            s@ == event_text(*self),
    {
        let mut s = String::new();
        push_text(&mut s, "Player at position ");
        match self {
            Event::Nominated { nominator, nominee } => {
                push_decimal(&mut s, nominator.0 as u64);
                push_text(&mut s, " has nominated ");
                push_decimal(&mut s, nominee.0 as u64);
            },
            Event::Voted { voter, nominee } => {
                push_decimal(&mut s, voter.0 as u64);
                push_text(&mut s, " has voted for ");
                push_decimal(&mut s, nominee.0 as u64);
            },
        }
        assert(s@ =~= event_text(*self));
        s
    }
}

} // verus!
