//! Typed host commands, each allowed in its own part of the game.
use vstd::prelude::*;

use crate::domain::{Activity, EngineState, Position};
use crate::engine::commands::{Command, CommandView};
use crate::engine::dispatch::{applied, apply_defined};
use crate::engine::events::EventView;
use crate::engine::state::table::chair::ChairError;
use crate::engine::{Engine, EngineError, EngineErrorView, EngineView, result_view};

verus! {

/// What the host can type.
#[derive(Debug)]
pub enum Action {
    Join { name: String },
    Leave { name: String },
    Warn { position: u8 },
    Pardon { position: u8 },
    Nominate { position: u8 },
    NextSpeaker,
    Timer { seconds: u8 },
    Shoot { position: u8 },
    Next,
    Show,
    Quit,
}

/// Why an action was refused.
#[derive(Debug, Clone)]
pub enum ActionError {
    /// The position names no chair.
    Chair(ChairError),
    /// The engine refused.
    Engine(EngineError),
}

/// The part of the game an action belongs to: gathering players, the night,
/// or the day's discussion.
pub open spec fn in_lobby(e: EngineView) -> bool {
    e.state is Lobby
}

pub open spec fn at_night(e: EngineView) -> bool {
    e.state matches EngineState::Game(a) && a is Night
}

pub open spec fn by_day(e: EngineView) -> bool {
    e.state matches EngineState::Game(a) && a is Noon
}

/// The engine command an action stands for on `e`, once its seat was
/// checked; none for actions out of their part of the game, the countdown
/// and quitting.
pub open spec fn action_command(e: EngineView, a: &Action) -> Option<CommandView> {
    match a {
        Action::Join { name } => if in_lobby(e) {
            Some(CommandView::Join { name: name@ })
        } else {
            None
        },
        Action::Leave { name } => if in_lobby(e) {
            Some(CommandView::Leave { name: name@ })
        } else {
            None
        },
        Action::Warn { position } => Some(CommandView::Warn { target: Position(*position) }),
        Action::Pardon { position } => Some(CommandView::Pardon { target: Position(*position) }),
        Action::Shoot { position } => if at_night(e) {
            Some(CommandView::Shoot { target: Position(*position) })
        } else {
            None
        },
        Action::Nominate { position } => if by_day(e) {
            Some(CommandView::Nominate { target: Position(*position) })
        } else {
            None
        },
        Action::NextSpeaker => if by_day(e) {
            Some(CommandView::Advance)
        } else {
            None
        },
        Action::Next => Some(CommandView::Advance),
        _ => None,
    }
}

/// Whether an action names a chair by position.
pub open spec fn seat_checked(a: &Action) -> Option<u8> {
    match a {
        Action::Warn { position } => Some(*position),
        Action::Pardon { position } => Some(*position),
        Action::Shoot { position } => Some(*position),
        Action::Nominate { position } => Some(*position),
        _ => None,
    }
}

/// Whether an action can run on `e`: showing private roles is not offered,
/// and the engine command it stands for must be defined.
pub open spec fn action_defined(e: EngineView, a: &Action) -> bool {
    &&& !(a is Show)
    &&& action_command(e, a) matches Some(c) ==> apply_defined(e, c)
}

/// Whether `(e2, r)` is what running `a` on `e` can give: a position
/// outside 1 to 10 is refused; otherwise the engine command runs and its
/// refusal, if any, is passed on.
pub open spec fn action_ran(e: EngineView, a: &Action, e2: EngineView, r: Result<(), ActionError>) -> bool {
    match action_command(e, a) {
        None => e2 == e && r is Ok,
        Some(c) => if seat_checked(a) is Some && !(1 <= seat_checked(a).unwrap() <= 10) {
            e2 == e && (r matches Err(ActionError::Chair(ChairError::InvalidPosition(q))) && q == seat_checked(a).unwrap())
        } else {
            exists|out: Result<Seq<EventView>, EngineErrorView>|
                #[trigger] applied(e, c, e2, out) && (r is Ok <==> out is Ok) && (r matches Err(
                    ActionError::Engine(err),
                ) ==> out == Err::<Seq<EventView>, EngineErrorView>(err@))
        },
    }
}

/// Checks that a position names a chair.
fn chair_from_position(position: u8) -> (r: Result<Position, ChairError>)
    ensures
        1 <= position <= 10 ==> r == Ok::<Position, ChairError>(Position(position)),
        !(1 <= position <= 10) ==> r == Err::<Position, ChairError>(ChairError::InvalidPosition(position)),
{
    if 1 <= position && position <= 10 {
        Ok(Position::new(position))
    } else {
        Err(ChairError::InvalidPosition(position))
    }
}

/// Runs an engine command and passes its refusal on.
fn run_command(engine: &mut Engine, cmd: Command) -> (r: Result<(), ActionError>)
    requires
        old(engine).wf(),
        apply_defined(old(engine)@, cmd@),
    ensures
        final(engine).wf(),
        exists|out: Result<Seq<EventView>, EngineErrorView>|
            #[trigger] applied(old(engine)@, cmd@, final(engine)@, out) && (r is Ok <==> out is Ok) && (
            r matches Err(ActionError::Engine(err)) ==> out == Err::<Seq<EventView>, EngineErrorView>(err@)),
{
    let ghost c = cmd@;
    let res = engine.apply(cmd);
    assert(applied(old(engine)@, c, engine@, result_view(res)));
    match res {
        Ok(_) => Ok(()),
        Err(e) => Err(ActionError::Engine(e)),
    }
}

impl Action {
    /// Runs the action on the engine: lobby actions in the lobby, shots at
    /// night, nominations and the next speaker by day, warnings, pardons
    /// and the next step at any time; other actions are ignored.
    pub fn run(&self, engine: &mut Engine) -> (r: Result<(), ActionError>)
        requires
            old(engine).wf(),
            action_defined(old(engine)@, self),
        ensures
            final(engine).wf(),
            action_ran(old(engine)@, self, final(engine)@, r),
    {
        let lobby = match engine.state {
            EngineState::Lobby(_) => true,
            _ => false,
        };
        let night = match engine.state {
            EngineState::Game(Activity::Night(_)) => true,
            _ => false,
        };
        let day = match engine.state {
            EngineState::Game(Activity::Noon(_)) => true,
            _ => false,
        };
        match self {
            Action::Join { name } => if lobby {
                run_command(engine, Command::Join { name: name.clone() })
            } else {
                Ok(())
            },
            Action::Leave { name } => if lobby {
                run_command(engine, Command::Leave { name: name.clone() })
            } else {
                Ok(())
            },
            Action::Warn { position } => {
                let target = match chair_from_position(*position) {
                    Ok(t) => t,
                    Err(e) => return Err(ActionError::Chair(e)),
                };
                run_command(engine, Command::Warn { target })
            },
            Action::Pardon { position } => {
                let target = match chair_from_position(*position) {
                    Ok(t) => t,
                    Err(e) => return Err(ActionError::Chair(e)),
                };
                run_command(engine, Command::Pardon { target })
            },
            Action::Shoot { position } => if night {
                let target = match chair_from_position(*position) {
                    Ok(t) => t,
                    Err(e) => return Err(ActionError::Chair(e)),
                };
                run_command(engine, Command::Shoot { target })
            } else {
                Ok(())
            },
            Action::Nominate { position } => if day {
                let target = match chair_from_position(*position) {
                    Ok(t) => t,
                    Err(e) => return Err(ActionError::Chair(e)),
                };
                run_command(engine, Command::Nominate { target })
            } else {
                Ok(())
            },
            Action::NextSpeaker => if day {
                run_command(engine, Command::Advance)
            } else {
                Ok(())
            },
            Action::Next => run_command(engine, Command::Advance),
            _ => Ok(()),
        }
    }
}

} // verus!
