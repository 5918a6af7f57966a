use vstd::prelude::*;

use std::collections::HashMap;

use crate::engine::state::actor::{Actor, ActorView};
use crate::engine::state::table::chair::Chair;

verus! {

broadcast use vstd::std_specs::hash::group_hash_axioms;

/// The nominations and votes of a round.
#[derive(Debug)]
pub struct Voting {
    /// Who nominated whom, by the nominator's position.
    pub nominations: HashMap<u8, Chair>,
    pub nominees: Vec<Chair>,
    /// The voters of each nominee, by the nominee's position.
    pub votes: HashMap<u8, Vec<Chair>>,
}

/// The abstract state of a [`Voting`].
pub struct VotingView {
    pub nominations: Map<u8, Chair>,
    pub nominees: Seq<Chair>,
    pub votes: Map<u8, Seq<Chair>>,
}

impl View for Voting {
    type V = VotingView;

    open spec fn view(&self) -> VotingView {
        VotingView {
            nominations: self.nominations@,
            nominees: self.nominees@,
            votes: self.votes@.map_values(|l: Vec<Chair>| l@),
        }
    }
}

/// A round before any nomination.
pub open spec fn fresh_voting() -> VotingView {
    VotingView { nominations: Map::empty(), nominees: Seq::empty(), votes: Map::empty() }
}

/// A nomination: the first nomination of each player is kept, and the
/// nominee joins the list once.
pub open spec fn with_nomination(v: VotingView, nominator: Chair, nominee: Chair) -> VotingView {
    VotingView {
        nominations: if v.nominations.contains_key(nominator@) {
            v.nominations
        } else {
            v.nominations.insert(nominator@, nominee)
        },
        nominees: if v.nominees.contains(nominee) {
            v.nominees
        } else {
            v.nominees.push(nominee)
        },
        ..v
    }
}

/// A vote for `nominee`, added to its voters as given.
pub open spec fn with_vote(v: VotingView, voter: Chair, nominee: Chair) -> VotingView {
    VotingView {
        votes: v.votes.insert(
            nominee@,
            if v.votes.contains_key(nominee@) {
                v.votes[nominee@]
            } else {
                Seq::<Chair>::empty()
            }.push(voter),
        ),
        ..v
    }
}

/// From index `i` on, the first nominee that may act (`eligible[k]` for chair `k + 1`).
pub open spec fn first_eligible_nominee(nominees: Seq<Chair>, eligible: Seq<bool>, i: int) -> Option<int>
    decreases nominees.len() - i,
{
    if i >= nominees.len() || i < 0 {
        None
    } else if eligible[nominees[i]@ - 1] {
        Some(i)
    } else {
        first_eligible_nominee(nominees, eligible, i + 1)
    }
}

/// One step of the turn over the nominees, in nomination order, without
/// wrapping round: the next eligible nominee after the current one acts;
/// past the last one the turn is completed.
pub open spec fn nominee_step(v: VotingView, eligible: Seq<bool>, a: ActorView) -> (ActorView, Option<Chair>) {
    if v.nominees.len() == 0 || a.completed {
        (a, None)
    } else {
        let from = match a.current {
            Some(c) => match crate::engine::turn::index_in_chairs(v.nominees, c) {
                Some(i) => i + 1,
                None => 0,
            },
            None => 0,
        };
        match first_eligible_nominee(v.nominees, eligible, from) {
            Some(i) => (ActorView { current: Some(v.nominees[i]), ..a }, Some(v.nominees[i])),
            None => (ActorView { completed: true, ..a }, None),
        }
    }
}

impl Voting {
    pub fn new() -> (v: Voting)
        ensures
            v@ == fresh_voting(),
    {
        let v = Voting { nominations: HashMap::new(), nominees: Vec::new(), votes: HashMap::new() };
        assert(v@.votes =~= Map::<u8, Seq<Chair>>::empty());
        v
    }

    /// Records a nomination.
    pub fn record_nomination(&mut self, nominator: Chair, nominee: Chair)
        ensures
            final(self)@ == with_nomination(old(self)@, nominator, nominee),
    {
        let key = nominator.position();
        if !self.nominations.contains_key(&key) {
            self.nominations.insert(key, nominee);
        }
        let mut i: usize = 0;
        let mut found = false;
        while i < self.nominees.len()
            invariant
                0 <= i <= self.nominees.len(),
                self@.nominees == old(self)@.nominees,
                found == (exists|j: int| 0 <= j < i && self@.nominees[j] == nominee),
            decreases self.nominees.len() - i,
        {
            if self.nominees[i] == nominee {
                found = true;
            }
            i = i + 1;
        }
        if !found {
            self.nominees.push(nominee);
        }
        proof {
            if found {
                let j = choose|j: int| 0 <= j < i && self@.nominees[j] == nominee;
                assert(old(self)@.nominees.contains(nominee));
            } else {
                assert(!old(self)@.nominees.contains(nominee));
            }
        }
    }

    /// Records a vote.
    pub fn record_vote(&mut self, voter: Chair, nominee: Chair)
        ensures
            final(self)@ == with_vote(old(self)@, voter, nominee),
    {
        let key = nominee.position();
        let mut list = match self.votes.remove(&key) {
            Some(l) => l,
            None => Vec::new(),
        };
        list.push(voter);
        let ghost lv = list@;
        self.votes.insert(key, list);
        assert(self@.votes =~= with_vote(old(self)@, voter, nominee).votes);
    }

    pub fn get_nominations(&self) -> (m: &HashMap<u8, Chair>)
        ensures
            m@ == self@.nominations,
    {
        &self.nominations
    }

    pub fn get_nominees(&self) -> (s: &[Chair])
        ensures
            s@ == self@.nominees,
    {
        self.nominees.as_slice()
    }

    pub fn get_votes(&self) -> (m: &HashMap<u8, Vec<Chair>>)
        ensures
            m@.map_values(|l: Vec<Chair>| l@) == self@.votes,
    {
        &self.votes
    }

    /// Moves the turn to the next nominee that may act, in nomination order.
    pub fn next_actor(&self, actor: &mut Actor, eligible: &[bool]) -> (r: Option<Chair>)
        requires
            eligible@.len() == 10,
        ensures
            (final(actor)@, r) == nominee_step(self@, eligible@, old(actor)@),
    {
        if self.nominees.len() == 0 || actor.is_completed() {
            return None;
        }
        let start_idx: usize = match actor.current() {
            Some(c) => match crate::engine::turn::find_chair(&self.nominees, c) {
                Some(i) => i + 1,
                None => 0,
            },
            None => 0,
        };
        let mut i = start_idx;
        while i < self.nominees.len()
            invariant
                start_idx <= i <= self.nominees.len(),
                eligible@.len() == 10,
                actor@ == old(actor)@,
                self@.nominees.len() > 0,
                !old(actor)@.completed,
                start_idx as int == (match old(actor)@.current {
                    Some(c) => match crate::engine::turn::index_in_chairs(self@.nominees, c) {
                        Some(j) => j + 1,
                        None => 0,
                    },
                    None => 0,
                }),
                first_eligible_nominee(self@.nominees, eligible@, start_idx as int)
                    == first_eligible_nominee(self@.nominees, eligible@, i as int),
            decreases self.nominees.len() - i,
        {
            let chair = self.nominees[i];
            let k = chair.position();
            if eligible[(k - 1) as usize] {
                actor.set_current(Some(chair));
                return Some(chair);
            }
            i = i + 1;
        }
        actor.set_completed(true);
        None
    }
}

} // verus!
