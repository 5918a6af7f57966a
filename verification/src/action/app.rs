use vstd::prelude::*;

verus! {

/// A request to the console itself.
#[derive(Debug, Clone, Copy, PartialEq, Eq, Structural)]
pub enum AppAction {
    QuitRequested,
}

} // verus!
