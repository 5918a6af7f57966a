pub mod app;
pub mod engine;

use vstd::prelude::*;

verus! {

/// A request to the console or to the engine.
#[derive(Debug, Clone)]
pub enum Action {
    App(app::AppAction),
    Engine(engine::EngineAction),
}

} // verus!
