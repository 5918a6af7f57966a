use vstd::prelude::*;

verus! {

/// A lobby request for the engine.
#[derive(Debug, Clone)]
pub enum EngineAction {
    Join { name: String },
    Leave { name: String },
}

} // verus!
