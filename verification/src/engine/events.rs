use vstd::prelude::*;

use crate::domain::{phase::Activity, position::Position, role::Role};

verus! {

/// What the engine reports back.
#[derive(Debug, Clone)]
pub enum Event {
    PlayerJoined { name: String },
    PlayerLeft { name: String },
    GameStarted,
    TurnCompleted,
    ActorAdvanced { chair: Position },
    PlayerWarned { target: Position, warnings: u8 },
    PlayerPardoned { target: Position, warnings: u8 },
    PlayerNominated { by: Position, target: Position },
    PlayerKilled { target: Position },
    CheckPerformed { by: Position, target: Position, role_revealed: Option<Role> },
    PlayerEliminated { target: Position },
    PlayerRemoved { target: Position },
    PhaseAdvanced { phase: Activity },
    NextSpeaker { chair: Position },
    EndDay,
}

/// An [`Event`] with names seen as characters.
pub enum EventView {
    PlayerJoined { name: Seq<char> },
    PlayerLeft { name: Seq<char> },
    GameStarted,
    TurnCompleted,
    ActorAdvanced { chair: Position },
    PlayerWarned { target: Position, warnings: u8 },
    PlayerPardoned { target: Position, warnings: u8 },
    PlayerNominated { by: Position, target: Position },
    PlayerKilled { target: Position },
    CheckPerformed { by: Position, target: Position, role_revealed: Option<Role> },
    PlayerEliminated { target: Position },
    PlayerRemoved { target: Position },
    PhaseAdvanced { phase: Activity },
    NextSpeaker { chair: Position },
    EndDay,
}

impl View for Event {
    type V = EventView;

    open spec fn view(&self) -> EventView {
        match *self {
            Event::PlayerJoined { name } => EventView::PlayerJoined { name: name@ },
            Event::PlayerLeft { name } => EventView::PlayerLeft { name: name@ },
            Event::GameStarted => EventView::GameStarted,
            Event::TurnCompleted => EventView::TurnCompleted,
            Event::ActorAdvanced { chair } => EventView::ActorAdvanced { chair },
            Event::PlayerWarned { target, warnings } => EventView::PlayerWarned { target, warnings },
            Event::PlayerPardoned { target, warnings } => EventView::PlayerPardoned { target, warnings },
            Event::PlayerNominated { by, target } => EventView::PlayerNominated { by, target },
            Event::PlayerKilled { target } => EventView::PlayerKilled { target },
            Event::CheckPerformed { by, target, role_revealed } => EventView::CheckPerformed {
                by,
                target,
                role_revealed,
            },
            Event::PlayerEliminated { target } => EventView::PlayerEliminated { target },
            Event::PlayerRemoved { target } => EventView::PlayerRemoved { target },
            Event::PhaseAdvanced { phase } => EventView::PhaseAdvanced { phase },
            Event::NextSpeaker { chair } => EventView::NextSpeaker { chair },
            Event::EndDay => EventView::EndDay,
        }
    }
}

/// The views of a list of events.
pub open spec fn events_view(events: Seq<Event>) -> Seq<EventView> {
    events.map_values(|e: Event| e@)
}


impl Event {
    /// A copy of the event.
    pub fn duplicate(&self) -> (e: Event)
        ensures
            e@ == self@,
    {
        match self {
            Event::PlayerJoined { name } => Event::PlayerJoined { name: name.clone() },
            Event::PlayerLeft { name } => Event::PlayerLeft { name: name.clone() },
            Event::GameStarted => Event::GameStarted,
            Event::TurnCompleted => Event::TurnCompleted,
            Event::ActorAdvanced { chair } => Event::ActorAdvanced { chair: *chair },
            Event::PlayerWarned { target, warnings } => Event::PlayerWarned { target: *target, warnings: *warnings },
            Event::PlayerPardoned { target, warnings } => Event::PlayerPardoned {
                target: *target,
                warnings: *warnings,
            },
            Event::PlayerNominated { by, target } => Event::PlayerNominated { by: *by, target: *target },
            Event::PlayerKilled { target } => Event::PlayerKilled { target: *target },
            Event::CheckPerformed { by, target, role_revealed } => Event::CheckPerformed {
                by: *by,
                target: *target,
                role_revealed: *role_revealed,
            },
            Event::PlayerEliminated { target } => Event::PlayerEliminated { target: *target },
            Event::PlayerRemoved { target } => Event::PlayerRemoved { target: *target },
            Event::PhaseAdvanced { phase } => Event::PhaseAdvanced { phase: *phase },
            Event::NextSpeaker { chair } => Event::NextSpeaker { chair: *chair },
            Event::EndDay => Event::EndDay,
        }
    }

    /// Whether the event reports that the turn moved to another player.
    pub fn is_actor_advanced(&self) -> (b: bool)
        ensures
            b == (self@ is ActorAdvanced),
    {
        match self {
            Event::ActorAdvanced { .. } => true,
            _ => false,
        }
    }
}

} // verus!
