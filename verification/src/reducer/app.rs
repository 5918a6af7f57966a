//! Requests applied to the console's state.
use vstd::prelude::*;

use crate::action::Action;
use crate::action::app::AppAction;
use crate::app::AppStatus;
use crate::engine::commands::Command;
use crate::engine::dispatch::applied;
use crate::engine::lobby::{start_defined, start_outcome};
use crate::engine::{Engine, EngineView, fresh_engine, result_view};

verus! {

/// The engine and whether the console keeps running.
pub struct AppState {
    pub engine: Engine,
    pub status: AppStatus,
}

impl AppState {
    /// A running console over a fresh engine.
    pub fn new() -> (s: AppState)
        ensures
            s.engine@ == fresh_engine(),
            s.engine.wf(),
            s.status == AppStatus::Running,
    {
        AppState { engine: Engine::new(), status: AppStatus::Running }
    }
}

/// Whether `(e2, status2)` is what a request gives from `(e, status)`: a
/// quit request stops the console; an engine request starts the game, as
/// far as the engine lets it.
pub open spec fn reduced(e: EngineView, status: AppStatus, action: Action, e2: EngineView, status2: AppStatus) -> bool {
    match action {
        Action::App(AppAction::QuitRequested) => e2 == e && status2 == AppStatus::Quit,
        Action::Engine(_) => status2 == status && e2 == start_outcome(e).0,
    }
}

/// Applies a request: a quit request stops the console; an engine request
/// starts the game, and what the engine reports is dropped.
pub fn reduce(state: AppState, action: Action) -> (s: AppState)
    requires
        state.engine.wf(),
        action is Engine ==> start_defined(state.engine@),
    ensures
        s.engine.wf(),
        reduced(state.engine@, state.status, action, s.engine@, s.status),
{
    let mut state = state;
    match action {
        Action::App(app) => handle_app(&mut state, app),
        Action::Engine(_) => {
            let ghost before = state.engine@;
            let r = state.engine.apply(Command::Start);
            proof {
                let rv = result_view(r);
                assert(applied(before, crate::engine::commands::CommandView::Start, state.engine@, rv));
            }
        },
    }
    state
}

fn handle_app(state: &mut AppState, app: AppAction)
    ensures
        final(state).engine == old(state).engine,
        final(state).status == AppStatus::Quit,
{
    match app {
        AppAction::QuitRequested => {
            state.status = AppStatus::Quit;
        },
    }
}

} // verus!
