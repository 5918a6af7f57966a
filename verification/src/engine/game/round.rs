use vstd::prelude::*;

use super::voting::{Voting, VotingView, copy_positions, fresh_voting, voting_snapshot};
use crate::snapshot::{self, Snapshot};
use std::collections::HashMap;
use crate::domain::Position;

verus! {

/// What happened in a round of the game: its voting, the night's shot and
/// checks, and who left the table.
#[derive(Debug)]
pub struct Round {
    voting: Option<Voting>,
    mafia_kill: Option<Position>,
    sheriff_check: Option<Position>,
    don_check: Option<Position>,
    eliminated: Vec<Position>,
    removed: Vec<Position>,
}

/// The abstract state of a [`Round`].
pub struct RoundView {
    pub voting: Option<VotingView>,
    pub mafia_kill: Option<Position>,
    pub sheriff_check: Option<Position>,
    pub don_check: Option<Position>,
    pub eliminated: Seq<Position>,
    pub removed: Seq<Position>,
}

impl View for Round {
    type V = RoundView;

    closed spec fn view(&self) -> RoundView {
        RoundView {
            voting: match self.voting {
                Some(v) => Some(v@),
                None => None,
            },
            mafia_kill: self.mafia_kill,
            sheriff_check: self.sheriff_check,
            don_check: self.don_check,
            eliminated: self.eliminated@,
            removed: self.removed@,
        }
    }
}

/// A round before anything happened: a voting with no nominees among the
/// given voters, and nothing recorded.
pub open spec fn fresh_round(voters: Seq<Position>) -> RoundView {
    RoundView {
        voting: Some(fresh_voting(Seq::empty(), voters)),
        mafia_kill: None,
        sheriff_check: None,
        don_check: None,
        eliminated: Seq::empty(),
        removed: Seq::empty(),
    }
}

impl Snapshot for Round {
    type Output = snapshot::Round;

    /// The round as shown; a round without a voting shows an empty one.
    fn snapshot(&self) -> (s: snapshot::Round)
        ensures
            s.voting@ == match self@.voting {
                Some(v) => voting_snapshot(v),
                None => (snapshot::VotingView {
                    nominations: Map::empty(),
                    nominees: Seq::empty(),
                    votes: Map::empty(),
                }),
            },
            s.mafia_kill == self@.mafia_kill,
            s.sheriff_check == self@.sheriff_check,
            s.don_check == self@.don_check,
            s.eliminated@ == self@.eliminated,
            s.removed@ == self@.removed,
    {
        let voting = match &self.voting {
            Some(v) => v.snapshot(),
            None => {
                let empty = snapshot::Voting {
                    nominations: HashMap::new(),
                    nominees: Vec::new(),
                    votes: HashMap::new(),
                };
                assert(empty@.votes =~= Map::<u8, Seq<Position>>::empty());
                empty
            },
        };
        snapshot::Round {
            voting,
            mafia_kill: self.mafia_kill,
            sheriff_check: self.sheriff_check,
            don_check: self.don_check,
            eliminated: copy_positions(self.eliminated.as_slice()),
            removed: copy_positions(self.removed.as_slice()),
        }
    }
}

impl Round {
    /// The round's voting is well formed, where it has one.
    pub open spec fn wf(&self) -> bool {
        self.voting_wf()
    }

    pub closed spec fn voting_wf(&self) -> bool {
        match self.voting {
            Some(v) => v.wf(),
            None => true,
        }
    }

    /// A new round whose voting is open to `voters`.
    pub fn new(voters: &[Position]) -> (r: Round)
        ensures
            r@ == fresh_round(voters@),
            r.wf(),
    {
        Round {
            voting: Some(Voting::new(voters)),
            mafia_kill: None,
            sheriff_check: None,
            don_check: None,
            eliminated: Vec::new(),
            removed: Vec::new(),
        }
    }

    /// The round's voting, to be changed in place.
    pub fn voting_mut(&mut self) -> (r: Option<&mut Voting>)
        ensures
            match old(self)@.voting {
                None => r.is_none() && final(self)@ == old(self)@,
                Some(v) => r.is_some() && r.unwrap()@ == v && final(self)@ == (RoundView {
                    voting: Some(final(r.unwrap())@),
                    ..old(self)@
                }),
            },
            old(self).wf() ==> (r matches Some(v) ==> v.wf()),
    {
        self.voting.as_mut()
    }

    /// The round's voting, where it has one.
    pub fn voting(&self) -> (r: Option<&Voting>)
        ensures
            match self@.voting {
                None => r.is_none(),
                Some(v) => r.is_some() && r.unwrap()@ == v,
            },
            self.wf() ==> (r matches Some(v) ==> v.wf()),
    {
        self.voting.as_ref()
    }

    pub fn record_mafia_kill(&mut self, chair: Position)
        ensures
            final(self)@ == (RoundView { mafia_kill: Some(chair), ..old(self)@ }),
            final(self).wf() == old(self).wf(),
    {
        self.mafia_kill = Some(chair);
    }

    pub fn record_elimination(&mut self, chair: Position)
        ensures
            final(self)@ == (RoundView { eliminated: old(self)@.eliminated.push(chair), ..old(self)@ }),
            final(self).wf() == old(self).wf(),
    {
        self.eliminated.push(chair);
    }

    pub fn record_removal(&mut self, chair: Position)
        ensures
            final(self)@ == (RoundView { removed: old(self)@.removed.push(chair), ..old(self)@ }),
            final(self).wf() == old(self).wf(),
    {
        self.removed.push(chair);
    }

    pub fn record_sheriff_check(&mut self, chair: Position)
        ensures
            final(self)@ == (RoundView { sheriff_check: Some(chair), ..old(self)@ }),
            final(self).wf() == old(self).wf(),
    {
        self.sheriff_check = Some(chair);
    }

    pub fn record_don_check(&mut self, chair: Position)
        ensures
            final(self)@ == (RoundView { don_check: Some(chair), ..old(self)@ }),
            final(self).wf() == old(self).wf(),
    {
        self.don_check = Some(chair);
    }

    pub fn mafia_kill(&self) -> (c: Option<Position>)
        ensures
            c == self@.mafia_kill,
    {
        self.mafia_kill
    }

    pub fn sheriff_check(&self) -> (c: Option<Position>)
        ensures
            c == self@.sheriff_check,
    {
        self.sheriff_check
    }

    pub fn don_check(&self) -> (c: Option<Position>)
        ensures
            c == self@.don_check,
    {
        self.don_check
    }

    pub fn eliminated_players(&self) -> (s: &[Position])
        ensures
            s@ == self@.eliminated,
    {
        self.eliminated.as_slice()
    }

    pub fn removed_players(&self) -> (s: &[Position])
        ensures
            s@ == self@.removed,
    {
        self.removed.as_slice()
    }
}

} // verus!
