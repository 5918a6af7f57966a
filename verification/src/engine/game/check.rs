use vstd::prelude::*;
use crate::text::{decimal, push_decimal, push_text};

use crate::domain::position::Position;
use crate::snapshot::{self, Snapshot};

verus! {

/// The night checks made on one day: whom the Sheriff and the Don checked.
#[derive(Debug, Default, Clone)]
pub struct Check {
    sheriff: Option<Position>,
    don: Option<Position>,
}

/// The abstract state of a [`Check`].
pub struct CheckView {
    pub sheriff: Option<Position>,
    pub don: Option<Position>,
}

impl View for Check {
    type V = CheckView;

    closed spec fn view(&self) -> CheckView {
        CheckView { sheriff: self.sheriff, don: self.don }
    }
}

#[derive(Debug, Clone, Copy, PartialEq, Eq, Structural)]
pub enum Event {
    SheriffChecked { chair: Position },
    DonChecked { chair: Position },
}

/// Errors that can occur during checks
#[derive(Debug, Clone, Copy, PartialEq, Eq, Structural)]
pub enum Error {
    SheriffAlreadyChecked,
    DonAlreadyChecked,
}

impl Snapshot for Check {
    type Output = snapshot::Check;

    fn snapshot(&self) -> (s: snapshot::Check)
        ensures
            s == (snapshot::Check { sheriff: self@.sheriff, don: self@.don }),
    {
        snapshot::Check { sheriff: self.sheriff, don: self.don }
    }
}

impl Check {
    pub fn new() -> (c: Check)
        ensures
            c@ == (CheckView { sheriff: None, don: None }),
    {
        Check { sheriff: None, don: None }
    }

    /// Who the Sheriff checked, if anyone.
    pub fn sheriff(&self) -> (p: Option<Position>)
        ensures
            p == self@.sheriff,
    {
        self.sheriff
    }

    /// Who the Don checked, if anyone.
    pub fn don(&self) -> (p: Option<Position>)
        ensures
            p == self@.don,
    {
        self.don
    }

    /// Records the Sheriff's check; the Sheriff checks once per night.
    pub fn record_sheriff_check(&mut self, chair: Position) -> (r: Result<Vec<Event>, Error>)
        ensures
            old(self)@.sheriff is Some ==> r == Err::<Vec<Event>, Error>(Error::SheriffAlreadyChecked)
                && final(self)@ == old(self)@,
            old(self)@.sheriff is None ==> (r matches Ok(events) && events@ == seq![Event::SheriffChecked { chair }])
                && final(self)@ == (CheckView { sheriff: Some(chair), ..old(self)@ }),
    {
        if self.sheriff.is_some() {
            return Err(Error::SheriffAlreadyChecked);
        }
        self.sheriff = Some(chair);
        Ok(vec![Event::SheriffChecked { chair }])
    }

    /// Records Don's check. Returns an event or an error if already checked.
    pub fn record_don_check(&mut self, chair: Position) -> (r: Result<Vec<Event>, Error>)
        ensures
            old(self)@.don is Some ==> r == Err::<Vec<Event>, Error>(Error::DonAlreadyChecked)
                && final(self)@ == old(self)@,
            old(self)@.don is None ==> (r matches Ok(events) && events@ == seq![Event::DonChecked { chair }])
                && final(self)@ == (CheckView { don: Some(chair), ..old(self)@ }),
    {
        if self.don.is_some() {
            return Err(Error::DonAlreadyChecked);
        }
        self.don = Some(chair);
        Ok(vec![Event::DonChecked { chair }])
    }
}


/// How a check event reads.
pub open spec fn event_text(e: Event) -> Seq<char> {
    match e {
        Event::SheriffChecked { chair } => "Sheriff checked "@ + decimal(chair.0 as nat),
        Event::DonChecked { chair } => "Don checked "@ + decimal(chair.0 as nat),
    }
}

impl Event {
    /// How the event reads.
    pub fn to_string(&self) -> (s: String)
        ensures
            s@ == event_text(*self),
    {
        let mut s = String::new();
        match self {
            Event::SheriffChecked { chair } => {
                push_text(&mut s, "Sheriff checked ");
                push_decimal(&mut s, chair.0 as u64);
            },
            Event::DonChecked { chair } => {
                push_text(&mut s, "Don checked ");
                push_decimal(&mut s, chair.0 as u64);
            },
        }
        assert(s@ =~= event_text(*self));
        s
    }
}

} // verus!
