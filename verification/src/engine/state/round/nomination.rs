use vstd::prelude::*;

use super::super::table::chair::Chair;

verus! {

/// One player putting another up for the vote.
#[derive(Debug, Clone, Copy)]
pub struct Nomination {
    nominator: Chair,
    nominee: Chair,
}

/// The abstract state of a [`Nomination`].
pub struct NominationView {
    pub nominator: Chair,
    pub nominee: Chair,
}

impl View for Nomination {
    type V = NominationView;

    closed spec fn view(&self) -> NominationView {
        NominationView { nominator: self.nominator, nominee: self.nominee }
    }
}

impl Nomination {
    pub fn new(nominator: Chair, nominee: Chair) -> (x: Nomination)
        ensures
            x@ == (NominationView { nominator, nominee }),
    {
        Nomination { nominator, nominee }
    }

    pub fn nominator(&self) -> (c: Chair)
        ensures
            c == self@.nominator,
    {
        self.nominator
    }

    pub fn nominee(&self) -> (c: Chair)
        ensures
            c == self@.nominee,
    {
        self.nominee
    }
}

} // verus!
