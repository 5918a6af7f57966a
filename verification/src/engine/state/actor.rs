use vstd::prelude::*;

use super::table::chair::Chair;

verus! {

/// Whose turn it is at the table: where the turn started, who acts now,
/// and whether the turn has gone round.
#[derive(Debug, Clone, Copy)]
pub struct Actor {
    start: Chair,
    current: Option<Chair>,
    completed: bool,
}

/// The abstract state of an [`Actor`].
pub struct ActorView {
    pub start: Chair,
    pub current: Option<Chair>,
    pub completed: bool,
}

impl View for Actor {
    type V = ActorView;

    closed spec fn view(&self) -> ActorView {
        ActorView { start: self.start, current: self.current, completed: self.completed }
    }
}

impl Actor {
    pub fn new(start: Chair) -> (a: Actor)
        ensures
            a@ == (ActorView { start, current: None, completed: false }),
    {
        Actor { start, current: None, completed: false }
    }

    /// Starts the turn again from the same chair.
    pub fn reset(&mut self)
        ensures
            final(self)@ == (ActorView { current: None, completed: false, ..old(self)@ }),
    {
        self.current = None;
        self.completed = false;
    }

    pub fn is_completed(&self) -> (b: bool)
        ensures
            b == self@.completed,
    {
        self.completed
    }

    pub fn current(&self) -> (c: Option<Chair>)
        ensures
            c == self@.current,
    {
        self.current
    }

    pub fn start(&self) -> (s: Chair)
        ensures
            s == self@.start,
    {
        self.start
    }

    pub fn set_current(&mut self, chair: Option<Chair>)
        ensures
            final(self)@ == (ActorView { current: chair, ..old(self)@ }),
    {
        self.current = chair;
    }

    pub fn set_completed(&mut self, completed: bool)
        ensures
            final(self)@ == (ActorView { completed, ..old(self)@ }),
    {
        self.completed = completed;
    }
}

} // verus!
