use vstd::prelude::*;

use crate::domain::{position::Position, role::{Role, role_name}, status::Status};
use crate::text::{decimal, push_decimal, push_text};
use crate::snapshot::{self, Snapshot};

verus! {

/// Penalties that follow from warnings.
#[derive(Debug, Clone, Default)]
struct Penalty {
    pub silenced: bool,
}

/// Representation of a player
#[derive(Debug, Clone)]
pub struct Player {
    name: String,
    role: Option<Role>,
    position: Option<Position>,
    warnings: u8,
    penalty: Penalty,
    status: Status,
}

/// The abstract state of a [`Player`].
pub struct PlayerView {
    pub name: Seq<char>,
    pub role: Option<Role>,
    pub position: Option<Position>,
    pub warnings: u8,
    pub silenced: bool,
    pub status: Status,
}

impl View for Player {
    type V = PlayerView;

    closed spec fn view(&self) -> PlayerView {
        PlayerView {
            name: self.name@,
            role: self.role,
            position: self.position,
            warnings: self.warnings,
            silenced: self.penalty.silenced,
            status: self.status,
        }
    }
}

#[derive(Debug, Clone, Copy, PartialEq, Eq, Structural)]
pub enum Error {
    HasPosition,
    HasRole,
    MaxWarningsReached,
    NoWarnings,
}

#[derive(Debug, Clone)]
pub enum Event {
    PositionAssigned { name: String, position: Position },
    PositionRevoked { name: String, position: Position },
    RoleAssigned { name: String, position: Position, role: Role },
    RoleRevoked { name: String, position: Position, role: Role },
    Warned { name: String, position: Position, total: u8 },
    Pardoned { name: String, position: Position, total: u8 },
    Silenced { name: String, position: Position },
    Unsilenced { name: String, position: Position },
    Revived { name: String, position: Position },
    Removed { name: String, position: Position },
    Died { name: String, position: Position },
    Eliminated { name: String, position: Position },
}

/// An [`Event`] with the player's name seen as characters.
pub enum EventView {
    PositionAssigned { name: Seq<char>, position: Position },
    PositionRevoked { name: Seq<char>, position: Position },
    RoleAssigned { name: Seq<char>, position: Position, role: Role },
    RoleRevoked { name: Seq<char>, position: Position, role: Role },
    Warned { name: Seq<char>, position: Position, total: u8 },
    Pardoned { name: Seq<char>, position: Position, total: u8 },
    Silenced { name: Seq<char>, position: Position },
    Unsilenced { name: Seq<char>, position: Position },
    Revived { name: Seq<char>, position: Position },
    Removed { name: Seq<char>, position: Position },
    Died { name: Seq<char>, position: Position },
    Eliminated { name: Seq<char>, position: Position },
}

impl View for Event {
    type V = EventView;

    open spec fn view(&self) -> EventView {
        match self {
            Event::PositionAssigned { name, position } => EventView::PositionAssigned {
                name: name@,
                position: *position,
            },
            Event::PositionRevoked { name, position } => EventView::PositionRevoked {
                name: name@,
                position: *position,
            },
            Event::RoleAssigned { name, position, role } => EventView::RoleAssigned {
                name: name@,
                position: *position,
                role: *role,
            },
            Event::RoleRevoked { name, position, role } => EventView::RoleRevoked {
                name: name@,
                position: *position,
                role: *role,
            },
            Event::Warned { name, position, total } => EventView::Warned {
                name: name@,
                position: *position,
                total: *total,
            },
            Event::Pardoned { name, position, total } => EventView::Pardoned {
                name: name@,
                position: *position,
                total: *total,
            },
            Event::Silenced { name, position } => EventView::Silenced {
                name: name@,
                position: *position,
            },
            Event::Unsilenced { name, position } => EventView::Unsilenced {
                name: name@,
                position: *position,
            },
            Event::Revived { name, position } => EventView::Revived {
                name: name@,
                position: *position,
            },
            Event::Removed { name, position } => EventView::Removed {
                name: name@,
                position: *position,
            },
            Event::Died { name, position } => EventView::Died { name: name@, position: *position },
            Event::Eliminated { name, position } => EventView::Eliminated {
                name: name@,
                position: *position,
            },
        }
    }
}

/// The views of a list of events.
pub open spec fn events_view(events: Seq<Event>) -> Seq<EventView> {
    events.map_values(|e: Event| e@)
}

/// A consistent player: silence is only ever the penalty of exactly three warnings.
pub open spec fn player_wf(v: PlayerView) -> bool {
    v.silenced ==> v.warnings == 3
}

/// A fresh player with a name and nothing else.
pub open spec fn fresh_player(name: Seq<char>) -> PlayerView {
    PlayerView {
        name,
        role: None,
        position: None,
        warnings: 0,
        silenced: false,
        status: Status::Alive,
    }
}

/// The player after one more warning (for a player who is not removed):
/// the third warning silences, the fourth removes from the game.
pub open spec fn warned(v: PlayerView) -> PlayerView {
    let w = (v.warnings + 1) as u8;
    if w == 3 {
        PlayerView { warnings: w, silenced: true, ..v }
    } else if w == 4 {
        PlayerView { warnings: w, silenced: false, status: Status::Removed, ..v }
    } else {
        PlayerView { warnings: w, ..v }
    }
}

/// The events a warning reports.
pub open spec fn warned_events(v: PlayerView) -> Seq<EventView> {
    let first = EventView::Warned { name: v.name, position: v.position.unwrap(), total: v.warnings };
    if v.warnings + 1 == 3 {
        seq![first, EventView::Silenced { name: v.name, position: v.position.unwrap() }]
    } else {
        seq![first]
    }
}

/// The player after one warning is taken back (for a player with warnings):
/// dropping below three lifts the silence, dropping below four brings a
/// removed player back.
pub open spec fn pardoned(v: PlayerView) -> PlayerView {
    let w = (v.warnings - 1) as u8;
    PlayerView {
        warnings: w,
        silenced: if w < 3 && v.silenced {
            false
        } else {
            v.silenced
        },
        status: if v.status == Status::Removed && w < 4 {
            Status::Alive
        } else {
            v.status
        },
        ..v
    }
}

/// The events a pardon reports.
pub open spec fn pardoned_events(v: PlayerView) -> Seq<EventView> {
    let w = (v.warnings - 1) as u8;
    let first = EventView::Pardoned { name: v.name, position: v.position.unwrap(), total: w };
    if w < 3 && v.silenced {
        seq![first, EventView::Unsilenced { name: v.name, position: v.position.unwrap() }]
    } else {
        seq![first]
    }
}

/// Taking a warning back undoes it, for every consistent player who is in the
/// game and does not stand at three warnings (a fourth warning removes the
/// player and lifts the silence; the pardon brings the player back unsilenced).
pub proof fn lemma_pardon_undoes_warn(v: PlayerView)
    requires
        player_wf(v),
        v.status != Status::Removed,
        v.warnings < 255,
        v.warnings != 3,
    ensures
        pardoned(warned(v)) == v,
{
}

/// Warnings and pardons keep a player consistent.
pub proof fn lemma_warnings_keep_player_wf(v: PlayerView)
    requires
        player_wf(v),
    ensures
        v.status != Status::Removed && v.warnings < 255 ==> player_wf(warned(v)),
        v.warnings > 0 ==> player_wf(pardoned(v)),
{
}

/// How a player is shown: everything but the penalty.
pub open spec fn player_snapshot(v: PlayerView) -> snapshot::PlayerView {
    snapshot::PlayerView {
        name: v.name,
        position: v.position,
        role: v.role,
        warnings: v.warnings,
        status: v.status,
    }
}

impl Snapshot for Player {
    type Output = snapshot::Player;

    fn snapshot(&self) -> (s: snapshot::Player)
        ensures
            s@ == player_snapshot(self@),
    {
        snapshot::Player {
            name: self.name.clone(),
            position: self.position,
            role: self.role,
            warnings: self.warnings,
            status: self.status,
        }
    }
}

impl Player {
    /// Create a new player with a name
    pub fn new(name: String) -> (p: Player)
        ensures
            p@ == fresh_player(name@),
    {
        Player {
            name,
            role: None,
            position: None,
            warnings: 0,
            penalty: Penalty { silenced: false },
            status: Status::Alive,
        }
    }

    /// A player with an empty name.
    pub fn empty() -> (p: Player)
        ensures
            p@ == fresh_player(Seq::empty()),
    {
        Player::new(String::new())
    }

    pub fn assign_position(&mut self, position: Position) -> (r: Result<Vec<Event>, Error>)
        ensures
            old(self)@.position is Some ==> r == Err::<Vec<Event>, Error>(Error::HasPosition)
                && final(self)@ == old(self)@,
            old(self)@.position is None ==> (r matches Ok(events) && events_view(events@) == seq![
                EventView::PositionAssigned { name: old(self)@.name, position },
            ]) && final(self)@ == (PlayerView { position: Some(position), ..old(self)@ }),
    {
        if self.position.is_some() {
            return Err(Error::HasPosition);
        }
        self.position = Some(position);
        let events = vec![Event::PositionAssigned { name: self.name.clone(), position }];
        assert(events_view(events@) =~= seq![
            EventView::PositionAssigned { name: old(self)@.name, position },
        ]);
        Ok(events)
    }

    pub fn revoke_position(&mut self) -> (events: Vec<Event>)
        ensures
            final(self)@ == (PlayerView { position: None, ..old(self)@ }),
            events_view(events@) == (match old(self)@.position {
                Some(p) => seq![EventView::PositionRevoked { name: old(self)@.name, position: p }],
                None => Seq::<EventView>::empty(),
            }),
    {
        let mut events = Vec::new();
        if let Some(position) = self.position {
            events.push(Event::PositionRevoked { name: self.name.clone(), position });
            self.position = None;
        }
        assert(events_view(events@) =~= (match old(self)@.position {
            Some(p) => seq![EventView::PositionRevoked { name: old(self)@.name, position: p }],
            None => Seq::<EventView>::empty(),
        }));
        events
    }

    /// Assign a role (immutable once set)
    pub fn assign_role(&mut self, role: Role) -> (r: Result<Vec<Event>, Error>)
        requires
            old(self)@.role is None ==> old(self)@.position is Some,
        ensures
            old(self)@.role is Some ==> r == Err::<Vec<Event>, Error>(Error::HasRole) && final(self)@
                == old(self)@,
            old(self)@.role is None ==> (r matches Ok(events) && events_view(events@) == seq![
                EventView::RoleAssigned {
                    name: old(self)@.name,
                    position: old(self)@.position.unwrap(),
                    role,
                },
            ]) && final(self)@ == (PlayerView { role: Some(role), ..old(self)@ }),
    {
        if self.role.is_some() {
            return Err(Error::HasRole);
        }
        self.role = Some(role);
        let position = self.position.unwrap();
        let events = vec![Event::RoleAssigned { name: self.name.clone(), position, role }];
        assert(events_view(events@) =~= seq![
            EventView::RoleAssigned { name: old(self)@.name, position, role },
        ]);
        Ok(events)
    }

    pub fn revoke_role(&mut self) -> (events: Vec<Event>)
        requires
            old(self)@.role is Some ==> old(self)@.position is Some,
        ensures
            final(self)@ == (PlayerView { role: None, ..old(self)@ }),
            events_view(events@) == (match old(self)@.role {
                Some(r) => seq![
                    EventView::RoleRevoked {
                        name: old(self)@.name,
                        position: old(self)@.position.unwrap(),
                        role: r,
                    },
                ],
                None => Seq::<EventView>::empty(),
            }),
    {
        let mut events = Vec::new();
        if let Some(role) = self.role {
            let position = self.position.unwrap();
            events.push(Event::RoleRevoked { name: self.name.clone(), position, role });
            self.role = None;
        }
        assert(events_view(events@) =~= (match old(self)@.role {
            Some(r) => seq![
                EventView::RoleRevoked {
                    name: old(self)@.name,
                    position: old(self)@.position.unwrap(),
                    role: r,
                },
            ],
            None => Seq::<EventView>::empty(),
        }));
        events
    }

    // ----------- Warnings ----------
    /// Adds a warning: the third silences the player, the fourth removes the
    /// player from the game. A removed player cannot be warned.
    pub fn warn(&mut self) -> (r: Result<Vec<Event>, Error>)
        requires
            old(self)@.status != Status::Removed ==> old(self)@.position is Some
                && old(self)@.warnings < 255,
        ensures
            old(self)@.status == Status::Removed ==> r == Err::<Vec<Event>, Error>(
                Error::MaxWarningsReached,
            ) && final(self)@ == old(self)@,
            old(self)@.status != Status::Removed ==> (r matches Ok(events) && events_view(events@)
                == warned_events(old(self)@)) && final(self)@ == warned(old(self)@),
    {
        if self.status == Status::Removed {
            return Err(Error::MaxWarningsReached);
        }
        let position = self.position.unwrap();
        let mut events = Vec::new();
        events.push(Event::Warned { name: self.name.clone(), position, total: self.warnings });

        self.warnings = self.warnings + 1;

        if self.warnings == 3 {
            self.penalty.silenced = true;
            events.push(Event::Silenced { name: self.name.clone(), position });
        } else if self.warnings == 4 {
            self.mark_removed();
        }
        assert(events_view(events@) =~= warned_events(old(self)@));
        Ok(events)
    }

    /// Takes a warning back: below three the silence is lifted, below four a
    /// removed player is back in the game.
    pub fn pardon(&mut self) -> (r: Result<Vec<Event>, Error>)
        requires
            old(self)@.warnings > 0 ==> old(self)@.position is Some,
        ensures
            old(self)@.warnings == 0 ==> r == Err::<Vec<Event>, Error>(Error::NoWarnings)
                && final(self)@ == old(self)@,
            old(self)@.warnings > 0 ==> (r matches Ok(events) && events_view(events@)
                == pardoned_events(old(self)@)) && final(self)@ == pardoned(old(self)@),
    {
        if self.warnings == 0 {
            return Err(Error::NoWarnings);
        }
        let position = self.position.unwrap();
        let mut events = Vec::new();

        self.warnings = self.warnings - 1;
        events.push(Event::Pardoned { name: self.name.clone(), position, total: self.warnings });

        if self.warnings < 3 && self.penalty.silenced {
            self.penalty.silenced = false;
            events.push(Event::Unsilenced { name: self.name.clone(), position });
        }
        if self.status == Status::Removed && self.warnings < 4 {
            self.restore_alive();
        }
        assert(events_view(events@) =~= pardoned_events(old(self)@));
        Ok(events)
    }

    // ----------- Life transitions ----------
    pub fn mark_dead(&mut self) -> (events: Vec<Event>)
        requires
            old(self)@.position is Some,
        ensures
            final(self)@ == (PlayerView { status: Status::Dead, ..old(self)@ }),
            events_view(events@) == seq![
                EventView::Died { name: old(self)@.name, position: old(self)@.position.unwrap() },
            ],
    {
        self.status = Status::Dead;
        let events = vec![Event::Died { name: self.name.clone(), position: self.position.unwrap() }];
        assert(events_view(events@) =~= seq![
            EventView::Died { name: old(self)@.name, position: old(self)@.position.unwrap() },
        ]);
        events
    }

    pub fn mark_eliminated(&mut self) -> (events: Vec<Event>)
        requires
            old(self)@.position is Some,
        ensures
            final(self)@ == (PlayerView { status: Status::Eliminated, ..old(self)@ }),
            events_view(events@) == seq![
                EventView::Eliminated {
                    name: old(self)@.name,
                    position: old(self)@.position.unwrap(),
                },
            ],
    {
        self.status = Status::Eliminated;
        let events = vec![
            Event::Eliminated { name: self.name.clone(), position: self.position.unwrap() },
        ];
        assert(events_view(events@) =~= seq![
            EventView::Eliminated { name: old(self)@.name, position: old(self)@.position.unwrap() },
        ]);
        events
    }

    pub fn mark_removed(&mut self) -> (events: Vec<Event>)
        requires
            old(self)@.position is Some,
        ensures
            final(self)@ == (PlayerView { status: Status::Removed, silenced: false, ..old(self)@ }),
            events_view(events@) == seq![
                EventView::Removed { name: old(self)@.name, position: old(self)@.position.unwrap() },
            ],
    {
        self.status = Status::Removed;
        self.penalty.silenced = false;
        let events = vec![Event::Removed { name: self.name.clone(), position: self.position.unwrap() }];
        assert(events_view(events@) =~= seq![
            EventView::Removed { name: old(self)@.name, position: old(self)@.position.unwrap() },
        ]);
        events
    }

    pub fn restore_alive(&mut self) -> (events: Vec<Event>)
        requires
            old(self)@.position is Some,
        ensures
            final(self)@ == (PlayerView { status: Status::Alive, ..old(self)@ }),
            events_view(events@) == seq![
                EventView::Revived { name: old(self)@.name, position: old(self)@.position.unwrap() },
            ],
    {
        self.status = Status::Alive;
        let events = vec![Event::Revived { name: self.name.clone(), position: self.position.unwrap() }];
        assert(events_view(events@) =~= seq![
            EventView::Revived { name: old(self)@.name, position: old(self)@.position.unwrap() },
        ]);
        events
    }

    /// A copy of the player.
    pub fn duplicate(&self) -> (p: Player)
        ensures
            p@ == self@,
    {
        Player {
            name: self.name.clone(),
            role: self.role,
            position: self.position,
            warnings: self.warnings,
            penalty: Penalty { silenced: self.penalty.silenced },
            status: self.status,
        }
    }

    // ----------- Accessors ----------
    pub fn name(&self) -> (n: &String)
        ensures
            n@ == self@.name,
    {
        &self.name
    }

    pub fn role(&self) -> (r: Option<Role>)
        ensures
            r == self@.role,
    {
        self.role
    }

    pub fn position(&self) -> (p: Option<Position>)
        ensures
            p == self@.position,
    {
        self.position
    }

    pub fn status(&self) -> (s: Status)
        ensures
            s == self@.status,
    {
        self.status
    }

    pub fn warnings(&self) -> (w: u8)
        ensures
            w == self@.warnings,
    {
        self.warnings
    }

    pub fn is_silenced(&self) -> (b: bool)
        ensures
            b == self@.silenced,
    {
        self.penalty.silenced
    }

    // ----------- Queries ----------
    pub fn has_role(&self) -> (b: bool)
        ensures
            b == self@.role is Some,
    {
        self.role.is_some()
    }

    pub fn is_alive(&self) -> (b: bool)
        ensures
            b == (self@.status == Status::Alive),
    {
        self.status == Status::Alive
    }

    pub fn is_dead(&self) -> (b: bool)
        ensures
            b == (self@.status == Status::Dead || self@.status == Status::Eliminated),
    {
        match self.status {
            Status::Dead | Status::Eliminated => true,
            _ => false,
        }
    }

    pub fn is_eliminated(&self) -> (b: bool)
        ensures
            b == (self@.status == Status::Eliminated),
    {
        self.status == Status::Eliminated
    }

    pub fn is_sheriff(&self) -> (b: bool)
        ensures
            b == (self@.role == Some(Role::Sheriff)),
    {
        match self.role {
            Some(Role::Sheriff) => true,
            _ => false,
        }
    }

    pub fn is_don(&self) -> (b: bool)
        ensures
            b == (self@.role == Some(Role::Don)),
    {
        match self.role {
            Some(Role::Don) => true,
            _ => false,
        }
    }
}


/// How a player event reads.
pub open spec fn event_text(e: EventView) -> Seq<char> {
    match e {
        EventView::PositionAssigned { name, position } => "Player "@ + name + " got assigned to position "@
            + decimal(position.0 as nat),
        EventView::PositionRevoked { name, position } => "Player "@ + name
            + " was unassinged from position "@ + decimal(position.0 as nat),
        EventView::RoleAssigned { name, position, role } => "Player "@ + name + " at position "@ + decimal(
            position.0 as nat,
        ) + " got the role "@ + role_name(role),
        EventView::RoleRevoked { name, position, role } => "Player "@ + name + " at position "@ + decimal(
            position.0 as nat,
        ) + " was unassigned from role "@ + role_name(role),
        EventView::Warned { name, position, total } => "Player "@ + name + " at position "@ + decimal(
            position.0 as nat,
        ) + " was warned, currently has "@ + decimal(total as nat),
        EventView::Pardoned { name, position, total } => "Player "@ + name + " at position "@ + decimal(
            position.0 as nat,
        ) + " was pardoned, currently has "@ + decimal(total as nat),
        EventView::Silenced { name, position } => "Player "@ + name + " at position "@ + decimal(
            position.0 as nat,
        ) + " is Silenced"@,
        EventView::Unsilenced { name, position } => "Player "@ + name + " at position "@ + decimal(
            position.0 as nat,
        ) + " is Unsilenced"@,
        EventView::Revived { name, position } => "Player "@ + name + " at position "@ + decimal(
            position.0 as nat,
        ) + " is Revived"@,
        EventView::Removed { name, position } => "Player "@ + name + " at position "@ + decimal(
            position.0 as nat,
        ) + " is Removed"@,
        EventView::Died { name, position } => "Player "@ + name + " at position "@ + decimal(
            position.0 as nat,
        ) + " is Dead"@,
        EventView::Eliminated { name, position } => "Player "@ + name + " at position "@ + decimal(
            position.0 as nat,
        ) + " is Eliminated"@,
    }
}

impl Event {
    /// How the event reads.
    pub fn to_string(&self) -> (s: String)
        ensures
            s@ == event_text(self@),
    {
        let mut s = String::new();
        push_text(&mut s, "Player ");
        match self {
            Event::PositionAssigned { name, position } => {
                push_text(&mut s, name.as_str());
                push_text(&mut s, " got assigned to position ");
                push_decimal(&mut s, position.0 as u64);
            },
            Event::PositionRevoked { name, position } => {
                push_text(&mut s, name.as_str());
                push_text(&mut s, " was unassinged from position ");
                push_decimal(&mut s, position.0 as u64);
            },
            Event::RoleAssigned { name, position, role } => {
                push_text(&mut s, name.as_str());
                push_text(&mut s, " at position ");
                push_decimal(&mut s, position.0 as u64);
                push_text(&mut s, " got the role ");
                push_text(&mut s, role.as_str());
            },
            Event::RoleRevoked { name, position, role } => {
                push_text(&mut s, name.as_str());
                push_text(&mut s, " at position ");
                push_decimal(&mut s, position.0 as u64);
                push_text(&mut s, " was unassigned from role ");
                push_text(&mut s, role.as_str());
            },
            Event::Warned { name, position, total } => {
                push_text(&mut s, name.as_str());
                push_text(&mut s, " at position ");
                push_decimal(&mut s, position.0 as u64);
                push_text(&mut s, " was warned, currently has ");
                push_decimal(&mut s, *total as u64);
            },
            Event::Pardoned { name, position, total } => {
                push_text(&mut s, name.as_str());
                push_text(&mut s, " at position ");
                push_decimal(&mut s, position.0 as u64);
                push_text(&mut s, " was pardoned, currently has ");
                push_decimal(&mut s, *total as u64);
            },
            Event::Silenced { name, position } => {
                push_text(&mut s, name.as_str());
                push_text(&mut s, " at position ");
                push_decimal(&mut s, position.0 as u64);
                push_text(&mut s, " is Silenced");
            },
            Event::Unsilenced { name, position } => {
                push_text(&mut s, name.as_str());
                push_text(&mut s, " at position ");
                push_decimal(&mut s, position.0 as u64);
                push_text(&mut s, " is Unsilenced");
            },
            Event::Revived { name, position } => {
                push_text(&mut s, name.as_str());
                push_text(&mut s, " at position ");
                push_decimal(&mut s, position.0 as u64);
                push_text(&mut s, " is Revived");
            },
            Event::Removed { name, position } => {
                push_text(&mut s, name.as_str());
                push_text(&mut s, " at position ");
                push_decimal(&mut s, position.0 as u64);
                push_text(&mut s, " is Removed");
            },
            Event::Died { name, position } => {
                push_text(&mut s, name.as_str());
                push_text(&mut s, " at position ");
                push_decimal(&mut s, position.0 as u64);
                push_text(&mut s, " is Dead");
            },
            Event::Eliminated { name, position } => {
                push_text(&mut s, name.as_str());
                push_text(&mut s, " at position ");
                push_decimal(&mut s, position.0 as u64);
                push_text(&mut s, " is Eliminated");
            },
        }
        assert(s@ =~= event_text(self@));
        s
    }
}

} // verus!
