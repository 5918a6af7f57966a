pub mod nomination;
pub mod vote;
pub mod voting;

use vstd::prelude::*;

use self::voting::{Voting, VotingView, fresh_voting, with_nomination, with_vote};
use super::table::chair::Chair;
use crate::text::{decimal, push_decimal};

verus! {

/// The number of a round, counted from zero.
#[derive(Debug, Clone, Copy, PartialEq, Eq, Structural, PartialOrd, Ord, Hash)]
pub struct RoundId(pub usize);

impl Default for RoundId {
    /// The first round, round 0.
    fn default() -> (r: RoundId)
        ensures
            r.0 == 0,
    {
        RoundId(0)
    }
}

impl From<RoundId> for usize {
    fn from(round_id: RoundId) -> (v: usize) {
        round_id.0
    }
}

impl vstd::std_specs::convert::FromSpecImpl<RoundId> for usize {
    open spec fn obeys_from_spec() -> bool {
        true
    }

    open spec fn from_spec(v: RoundId) -> usize {
        v.0
    }
}

impl RoundId {
    /// The round after this one.
    pub fn next(&self) -> (r: RoundId)
        requires
            self.0 < usize::MAX,
        ensures
            r.0 == self.0 + 1,
    {
        RoundId(self.0 + 1)
    }

    /// How the round number reads.
    pub fn to_string(&self) -> (s: String)
        ensures
            s@ == decimal(self.0 as nat),
    {
        let mut s = String::new();
        push_decimal(&mut s, self.0 as u64);
        assert(s@ =~= decimal(self.0 as nat));
        s
    }
}

/// What happened in a round: its voting, the night's shot and checks, and
/// who left the game.
#[derive(Debug)]
pub struct Round {
    pub voting: Option<Voting>,
    mafia_kill: Option<Chair>,
    sheriff_check: Option<Chair>,
    don_check: Option<Chair>,
    eliminated: Vec<Chair>,
    removed: Vec<Chair>,
}

/// The abstract state of a [`Round`].
pub struct RoundView {
    pub voting: Option<VotingView>,
    pub mafia_kill: Option<Chair>,
    pub sheriff_check: Option<Chair>,
    pub don_check: Option<Chair>,
    pub eliminated: Seq<Chair>,
    pub removed: Seq<Chair>,
}

impl View for Round {
    type V = RoundView;

    closed spec fn view(&self) -> RoundView {
        RoundView {
            voting: match self.voting {
                Some(v) => Some(v@),
                None => None,
            },
            mafia_kill: self.mafia_kill,
            sheriff_check: self.sheriff_check,
            don_check: self.don_check,
            eliminated: self.eliminated@,
            removed: self.removed@,
        }
    }
}

/// A round before anything happened: an empty voting, nothing recorded.
pub open spec fn fresh_round() -> RoundView {
    RoundView {
        voting: Some(fresh_voting()),
        mafia_kill: None,
        sheriff_check: None,
        don_check: None,
        eliminated: Seq::empty(),
        removed: Seq::empty(),
    }
}

impl Round {
    pub fn new() -> (r: Round)
        ensures
            r@ == fresh_round(),
    {
        Round {
            voting: Some(Voting::new()),
            mafia_kill: None,
            sheriff_check: None,
            don_check: None,
            eliminated: Vec::new(),
            removed: Vec::new(),
        }
    }

    /// Records a nomination in the round's voting, if it has one.
    pub fn record_nomination(&mut self, nominator: Chair, nominee: Chair)
        ensures
            final(self)@ == (RoundView {
                voting: match old(self)@.voting {
                    Some(v) => Some(with_nomination(v, nominator, nominee)),
                    None => None,
                },
                ..old(self)@
            }),
    {
        match &mut self.voting {
            Some(v) => v.record_nomination(nominator, nominee),
            None => {},
        }
    }

    /// Records a vote in the round's voting, if it has one.
    pub fn record_vote(&mut self, voter: Chair, nominee: Chair)
        ensures
            final(self)@ == (RoundView {
                voting: match old(self)@.voting {
                    Some(v) => Some(with_vote(v, voter, nominee)),
                    None => None,
                },
                ..old(self)@
            }),
    {
        match &mut self.voting {
            Some(v) => v.record_vote(voter, nominee),
            None => {},
        }
    }

    pub fn record_mafia_kill(&mut self, chair: Chair)
        ensures
            final(self)@ == (RoundView { mafia_kill: Some(chair), ..old(self)@ }),
    {
        self.mafia_kill = Some(chair);
    }

    pub fn record_elimination(&mut self, chair: Chair)
        ensures
            final(self)@ == (RoundView { eliminated: old(self)@.eliminated.push(chair), ..old(self)@ }),
    {
        self.eliminated.push(chair);
    }

    pub fn record_removal(&mut self, chair: Chair)
        ensures
            final(self)@ == (RoundView { removed: old(self)@.removed.push(chair), ..old(self)@ }),
    {
        self.removed.push(chair);
    }

    pub fn record_sheriff_check(&mut self, chair: Chair)
        ensures
            final(self)@ == (RoundView { sheriff_check: Some(chair), ..old(self)@ }),
    {
        self.sheriff_check = Some(chair);
    }

    pub fn record_don_check(&mut self, chair: Chair)
        ensures
            final(self)@ == (RoundView { don_check: Some(chair), ..old(self)@ }),
    {
        self.don_check = Some(chair);
    }

    pub fn mafia_kill(&self) -> (c: Option<Chair>)
        ensures
            c == self@.mafia_kill,
    {
        self.mafia_kill
    }

    pub fn sheriff_check(&self) -> (c: Option<Chair>)
        ensures
            c == self@.sheriff_check,
    {
        self.sheriff_check
    }

    pub fn don_check(&self) -> (c: Option<Chair>)
        ensures
            c == self@.don_check,
    {
        self.don_check
    }

    pub fn eliminated_players(&self) -> (s: &[Chair])
        ensures
            s@ == self@.eliminated,
    {
        self.eliminated.as_slice()
    }

    pub fn removed_players(&self) -> (s: &[Chair])
        ensures
            s@ == self@.removed,
    {
        self.removed.as_slice()
    }
}

} // verus!
