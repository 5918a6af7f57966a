use vstd::prelude::*;

use crate::text::{decimal, push_decimal};

verus! {

/// The number of a round, counted from zero.
#[derive(Debug, Clone, Copy, PartialEq, Eq, Structural, PartialOrd, Ord, Hash)]
pub struct RoundId(pub usize);

impl Default for RoundId {
    /// The first round, round 0.
    fn default() -> (r: RoundId)
        ensures
            r.0 == 0,
    {
        RoundId(0)
    }
}

impl RoundId {
    pub fn new(value: usize) -> (r: RoundId)
        ensures
            r.0 == value,
    {
        RoundId(value)
    }

    pub fn is_first(&self) -> (b: bool)
        ensures
            b == (self.0 == 0),
    {
        self.0 == 0
    }

    /// How the round number reads.
    pub fn to_string(&self) -> (s: String)
        ensures
            s@ == decimal(self.0 as nat),
    {
        let mut s = String::new();
        push_decimal(&mut s, self.0 as u64);
        assert(s@ =~= decimal(self.0 as nat));
        s
    }

    pub fn next(&self) -> (r: RoundId)
        requires
            self.0 < usize::MAX,
        ensures
            r.0 == self.0 + 1,
    {
        RoundId(self.0 + 1)
    }
}

impl From<RoundId> for usize {
    fn from(round_id: RoundId) -> (v: usize) {
        round_id.0
    }
}

impl vstd::std_specs::convert::FromSpecImpl<RoundId> for usize {
    open spec fn obeys_from_spec() -> bool {
        true
    }

    open spec fn from_spec(v: RoundId) -> usize {
        v.0
    }
}

} // verus!
