use vstd::prelude::*;

verus! {

/// The phase of a game in the order the table plays it.
#[derive(Debug, Default, Clone, Copy, PartialEq, Eq, Structural)]
pub enum Phase {
    #[default]
    Lobby,
    Night,
    Morning,
    Day,
    Voting,
}

/// Why a phase could not move on.
#[derive(Debug, Clone, Copy, PartialEq, Eq, Structural)]
pub enum PhaseError {
    CannotAdvance,
}

/// The phase after `p`: the lobby gives way to the night, then morning,
/// day and voting follow, and the voting is followed by the next night.
pub open spec fn phase_after(p: Phase) -> Phase {
    match p {
        Phase::Lobby => Phase::Night,
        Phase::Night => Phase::Morning,
        Phase::Morning => Phase::Day,
        Phase::Day => Phase::Voting,
        Phase::Voting => Phase::Night,
    }
}

/// The name of a phase as it is displayed.
pub open spec fn phase_name(p: Phase) -> Seq<char> {
    match p {
        Phase::Lobby => "Lobby"@,
        Phase::Night => "Night"@,
        Phase::Morning => "Morning"@,
        Phase::Day => "Day"@,
        Phase::Voting => "Voting"@,
    }
}

/// After the lobby, the phases run in a cycle of four: night, morning,
/// day, voting, and night again.
pub proof fn lemma_phases_cycle(p: Phase)
    ensures
        phase_after(p) != Phase::Lobby,
        p != Phase::Lobby ==> phase_after(phase_after(phase_after(phase_after(p)))) == p,
{
}

impl Phase {
    /// Moves to the next phase and returns it.
    pub fn advance_phase(&mut self) -> (r: Result<Phase, PhaseError>)
        ensures
            *final(self) == phase_after(*old(self)),
            r == Ok::<Phase, PhaseError>(phase_after(*old(self))),
    {
        *self = match *self {
            Phase::Lobby => Phase::Night,
            Phase::Night => Phase::Morning,
            Phase::Morning => Phase::Day,
            Phase::Day => Phase::Voting,
            Phase::Voting => Phase::Night,
        };
        Ok(self.phase())
    }

    pub fn phase(&self) -> (p: Phase)
        ensures
            p == *self,
    {
        *self
    }

    /// The displayed name of the phase.
    pub fn as_str(&self) -> (s: &'static str)
        ensures
            s@ == phase_name(*self),
    {
        match self {
            Phase::Lobby => "Lobby",
            Phase::Night => "Night",
            Phase::Morning => "Morning",
            Phase::Day => "Day",
            Phase::Voting => "Voting",
        }
    }
}

} // verus!
