use vstd::prelude::*;

use super::super::table::chair::Chair;

verus! {

/// One player voting for a nominee.
#[derive(Debug, Clone, Copy)]
pub struct Vote {
    voter: Chair,
    nominee: Chair,
}

/// The abstract state of a [`Vote`].
pub struct VoteView {
    pub voter: Chair,
    pub nominee: Chair,
}

impl View for Vote {
    type V = VoteView;

    closed spec fn view(&self) -> VoteView {
        VoteView { voter: self.voter, nominee: self.nominee }
    }
}

impl Vote {
    pub fn new(voter: Chair, nominee: Chair) -> (x: Vote)
        ensures
            x@ == (VoteView { voter, nominee }),
    {
        Vote { voter, nominee }
    }

    pub fn voter(&self) -> (c: Chair)
        ensures
            c == self@.voter,
    {
        self.voter
    }

    pub fn nominee(&self) -> (c: Chair)
        ensures
            c == self@.nominee,
    {
        self.nominee
    }
}

} // verus!
