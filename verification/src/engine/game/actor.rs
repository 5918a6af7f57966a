use vstd::prelude::*;

use crate::domain::position::Position;
use crate::snapshot::Snapshot;

verus! {

/// Who is acting in the current activity: the seat the turn started at,
/// the seat acting now, and whether the turn has gone all the way round.
#[derive(Debug, Clone, Copy)]
pub struct Actor {
    start: Position,
    current: Option<Position>,
    completed: bool,
}

/// The abstract state of an [`Actor`].
pub struct ActorView {
    pub start: Position,
    pub current: Option<Position>,
    pub completed: bool,
}

impl View for Actor {
    type V = ActorView;

    closed spec fn view(&self) -> ActorView {
        ActorView { start: self.start, current: self.current, completed: self.completed }
    }
}

impl Snapshot for Actor {
    type Output = Option<Position>;

    /// The seat acting now.
    fn snapshot(&self) -> (s: Option<Position>)
        ensures
            s == self@.current,
    {
        self.current
    }
}

impl Actor {
    pub fn new(start: Position) -> (a: Actor)
        ensures
            a@ == (ActorView { start, current: None, completed: false }),
    {
        Actor { start, current: None, completed: false }
    }

    /// Starts a fresh turn at `start`.
    pub fn reset(&mut self, start: Position)
        ensures
            final(self)@ == (ActorView { start, current: None, completed: false }),
    {
        self.start = start;
        self.current = None;
        self.completed = false;
    }

    pub fn is_completed(&self) -> (b: bool)
        ensures
            b == self@.completed,
    {
        self.completed
    }

    pub fn current(&self) -> (c: Option<Position>)
        ensures
            c == self@.current,
    {
        self.current
    }

    pub fn start(&self) -> (s: Position)
        ensures
            s == self@.start,
    {
        self.start
    }

    pub fn set_current(&mut self, position: Option<Position>)
        ensures
            final(self)@ == (ActorView { current: position, ..old(self)@ }),
    {
        self.current = position;
    }

    pub fn set_completed(&mut self, completed: bool)
        ensures
            final(self)@ == (ActorView { completed, ..old(self)@ }),
    {
        self.completed = completed;
    }

    pub fn set_start(&mut self, position: Position)
        ensures
            final(self)@ == (ActorView { start: position, ..old(self)@ }),
    {
        self.start = position;
    }
}

} // verus!
