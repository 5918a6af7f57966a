use vstd::prelude::*;

use crate::domain::position::Position;

verus! {

/// What the host asks the engine to do.
#[derive(Debug)]
pub enum Command {
    Join { name: String },
    Leave { name: String },
    Start,
    Advance,
    AssignRole,
    RevokeRole,
    Warn { target: Position },
    Pardon { target: Position },
    Nominate { target: Position },
    Vote { targets: Vec<Position> },
    Shoot { target: Position },
    Check { target: Position },
    Guess { targets: Vec<Position> },
}

/// A [`Command`] with names seen as characters.
pub enum CommandView {
    Join { name: Seq<char> },
    Leave { name: Seq<char> },
    Start,
    Advance,
    AssignRole,
    RevokeRole,
    Warn { target: Position },
    Pardon { target: Position },
    Nominate { target: Position },
    Vote { targets: Seq<Position> },
    Shoot { target: Position },
    Check { target: Position },
    Guess { targets: Seq<Position> },
}

impl View for Command {
    type V = CommandView;

    open spec fn view(&self) -> CommandView {
        match *self {
            Command::Join { name } => CommandView::Join { name: name@ },
            Command::Leave { name } => CommandView::Leave { name: name@ },
            Command::Start => CommandView::Start,
            Command::Advance => CommandView::Advance,
            Command::AssignRole => CommandView::AssignRole,
            Command::RevokeRole => CommandView::RevokeRole,
            Command::Warn { target } => CommandView::Warn { target },
            Command::Pardon { target } => CommandView::Pardon { target },
            Command::Nominate { target } => CommandView::Nominate { target },
            Command::Vote { targets } => CommandView::Vote { targets: targets@ },
            Command::Shoot { target } => CommandView::Shoot { target },
            Command::Check { target } => CommandView::Check { target },
            Command::Guess { targets } => CommandView::Guess { targets: targets@ },
        }
    }
}

} // verus!
