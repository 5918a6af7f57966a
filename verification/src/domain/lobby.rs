use vstd::prelude::*;

verus! {

/// Whether the lobby still has free seats.
#[derive(Debug, Clone, Copy, PartialEq, Eq, Structural)]
pub enum LobbyStatus {
    Waiting,
    Ready,
}

} // verus!
