pub mod chair;

use vstd::prelude::*;
use vstd::string::StrSliceExecFns;

use self::chair::{Chair, ChairError};
use super::actor::{Actor, ActorView};
use super::player::{Player, PlayerView, player_text};
use super::role::Role;
use crate::seqs::first_match;

verus! {

/// The number of chairs at the table.
pub const SEATS: u8 = 10;

/// The ten chairs with their players, and the roles and chairs still free.
#[derive(Debug)]
pub struct Table {
    seats: Vec<Player>,
    available_roles: Vec<Role>,
    available_seats: Vec<Chair>,
}

/// The abstract state of a [`Table`]: `seats[k]` is the player on chair `k + 1`.
pub struct TableView {
    pub seats: Seq<PlayerView>,
    pub available_roles: Seq<Role>,
    pub available_seats: Seq<Chair>,
}

impl View for Table {
    type V = TableView;

    closed spec fn view(&self) -> TableView {
        TableView {
            seats: seats_view(self.seats@),
            available_roles: self.available_roles@,
            available_seats: self.available_seats@,
        }
    }
}

/// The views of the players on the chairs.
pub open spec fn seats_view(s: Seq<Player>) -> Seq<PlayerView> {
    s.map_values(|p: Player| p@)
}

/// Replacing one player and then viewing the chairs is viewing them and
/// then replacing that chair's view.
pub broadcast proof fn lemma_seats_update(s: Seq<Player>, i: int, x: Player)
    requires
        0 <= i < s.len(),
    ensures
        #[trigger] seats_view(s.update(i, x)) == seats_view(s).update(i, x@),
{
    assert(seats_view(s.update(i, x)) =~= seats_view(s).update(i, x@));
}

/// Why the table refused a request.
#[derive(Debug, Clone, Copy, PartialEq, Eq, Structural)]
pub enum TableError {
    InvalidChair(u8),
    NoAvailableSeats,
    NoAvailableRoles,
    PlayerNotFound(Chair),
}

/// The roles dealt at a table: one Don, two Mafia, one Sheriff, six Citizens.
pub open spec fn table_roles() -> Seq<Role> {
    seq![
        Role::Don,
        Role::Mafia,
        Role::Mafia,
        Role::Sheriff,
        Role::Citizen,
        Role::Citizen,
        Role::Citizen,
        Role::Citizen,
        Role::Citizen,
        Role::Citizen,
    ]
}

/// An empty chair's player.
pub open spec fn empty_player() -> PlayerView {
    PlayerView {
        name: Seq::empty(),
        role: Role::Citizen,
        warnings: 0,
        silenced: false,
        life_status: super::player::LifeStatus::Alive,
    }
}

/// Whether the player on a chair has the given name.
pub open spec fn named(name: Seq<char>) -> spec_fn(PlayerView) -> bool {
    |p: PlayerView| p.name == name
}

/// Whether the player on a chair holds the given role.
pub open spec fn with_role(role: Role) -> spec_fn(PlayerView) -> bool {
    |p: PlayerView| p.role == role
}

/// Whether a chair is `c`.
pub open spec fn is_chair(c: Chair) -> spec_fn(Chair) -> bool {
    |x: Chair| x == c
}

/// Whether a role is `r`.
pub open spec fn is_role(r: Role) -> spec_fn(Role) -> bool {
    |x: Role| x == r
}

/// Walking the chairs from position `from` (wrapping round), offsets
/// `offset` to 9: the outcome of a turn step under `eligible`, where
/// `eligible[k]` says whether chair `k + 1` may act.
pub open spec fn walk(eligible: Seq<bool>, a: ActorView, from: int, offset: int) -> (ActorView, Option<Chair>)
    decreases 10 - offset,
{
    if offset >= 10 || offset < 0 {
        (ActorView { completed: true, ..a }, None)
    } else {
        let pos = ((from - 1 + offset) % 10) + 1;
        if !eligible[pos - 1] {
            walk(eligible, a, from, offset + 1)
        } else if a.current matches Some(c) && c@ == pos {
            walk(eligible, a, from, offset + 1)
        } else if a.start@ == pos && a.current is Some {
            (ActorView { completed: true, ..a }, None)
        } else {
            let chair = choose|c: Chair| c@ == pos;
            (ActorView { current: Some(chair), ..a }, Some(chair))
        }
    }
}

/// One step of a turn round the table: from the chair after the current one
/// (or from the start chair), the next eligible chair acts; coming back to
/// the start chair, or finding nobody, completes the turn.
pub open spec fn table_step(eligible: Seq<bool>, a: ActorView) -> (ActorView, Option<Chair>) {
    if a.completed {
        (a, None)
    } else {
        let from = match a.current {
            Some(c) => c@ + 1,
            None => a.start@ as int,
        };
        walk(eligible, a, from, 0)
    }
}

impl Table {
    /// A consistent table: ten chairs.
    pub open spec fn wf(&self) -> bool {
        self@.seats.len() == SEATS
    }

    /// An empty table: every chair free, every role in the pool.
    pub fn new() -> (t: Table)
        ensures
            t.wf(),
            t@.seats == Seq::new(10, |k: int| empty_player()),
            t@.available_roles == table_roles(),
            t@.available_seats.len() == 10,
            forall|k: int| 0 <= k < 10 ==> (#[trigger] t@.available_seats[k])@ == k + 1,
    {
        let mut seats: Vec<Player> = Vec::new();
        let mut available_seats: Vec<Chair> = Vec::new();
        let mut pos: u8 = 1;
        while pos <= SEATS
            invariant
                1 <= pos <= SEATS + 1,
                seats@.len() == pos - 1,
                available_seats@.len() == pos - 1,
                forall|k: int| 0 <= k < pos - 1 ==> (#[trigger] seats@[k])@ == empty_player(),
                forall|k: int| 0 <= k < pos - 1 ==> (#[trigger] available_seats@[k])@ == k + 1,
            decreases SEATS + 1 - pos,
        {
            seats.push(Player::default());
            available_seats.push(Chair::new(pos));
            pos = pos + 1;
        }
        let available_roles = vec![
            Role::Don,
            Role::Mafia,
            Role::Mafia,
            Role::Sheriff,
            Role::Citizen,
            Role::Citizen,
            Role::Citizen,
            Role::Citizen,
            Role::Citizen,
            Role::Citizen,
        ];
        let t = Table { seats, available_roles, available_seats };
        assert(t@.seats =~= Seq::new(10, |k: int| empty_player()));
        assert(t@.available_roles =~= table_roles());
        t
    }

    /// The chair at a position from 1 to 10.
    pub fn chair(&self, position: u8) -> (r: Result<Chair, ChairError>)
        ensures
            1 <= position <= SEATS ==> (r matches Ok(c) && c@ == position),
            !(1 <= position <= SEATS) ==> r == Err::<Chair, ChairError>(ChairError::InvalidPosition(position)),
    {
        if 1 <= position && position <= SEATS {
            Ok(Chair::new(position))
        } else {
            Err(ChairError::InvalidPosition(position))
        }
    }

    /// The first chair, in seat order, whose player has the given name.
    pub fn get_chair(&self, name: &str) -> (r: Option<Chair>)
        requires
            self.wf(),
        ensures
            match first_match(self@.seats, named(name@)) {
                Some(k) => r matches Some(c) && c@ == k + 1,
                None => r is None,
            },
    {
        self.first_chair_where(name, None)
    }

    /// The first chair, in seat order, whose player has `name` (when
    /// `role` is `None`) or holds `role`.
    fn first_chair_where(&self, name: &str, role: Option<Role>) -> (r: Option<Chair>)
        requires
            self.wf(),
        ensures
            ({
                let f = match role {
                    None => named(name@),
                    Some(x) => with_role(x),
                };
                match first_match(self@.seats, f) {
                    Some(k) => r matches Some(c) && c@ == k + 1,
                    None => r is None,
                }
            }),
    {
        let ghost f = match role {
            None => named(name@),
            Some(x) => with_role(x),
        };
        let mut i: usize = 0;
        while i < 10
            invariant
                0 <= i <= 10,
                self@.seats.len() == 10,
                self.seats@.len() == 10,
                f == (match role {
                    None => named(name@),
                    Some(x) => with_role(x),
                }),
                forall|j: int| 0 <= j < i ==> !f(#[trigger] self@.seats[j]),
            decreases 10 - i,
        {
            let p = &self.seats[i];
            let hit = match role {
                None => crate::text::same_text(p.name(), name),
                Some(x) => p.role() == x,
            };
            assert(self@.seats[i as int] == p@);
            if hit {
                proof {
                    crate::seqs::lemma_first_match_at(self@.seats, f, i as int);
                }
                return Some(Chair::new((i + 1) as u8));
            }
            i = i + 1;
        }
        proof {
            crate::seqs::lemma_first_match(self@.seats, f);
            if let Some(k) = first_match(self@.seats, f) {
                assert(!f(self@.seats[k]));
            }
        }
        None
    }

    pub fn available_roles(&self) -> (s: &[Role])
        ensures
            s@ == self@.available_roles,
    {
        self.available_roles.as_slice()
    }

    pub fn available_seats(&self) -> (s: &[Chair])
        ensures
            s@ == self@.available_seats,
    {
        self.available_seats.as_slice()
    }

    /// The first chair, in seat order, of the Sheriff.
    pub fn sheriff(&self) -> (r: Option<Chair>)
        requires
            self.wf(),
        ensures
            match first_match(self@.seats, with_role(Role::Sheriff)) {
                Some(k) => r matches Some(c) && c@ == k + 1,
                None => r is None,
            },
    {
        self.first_chair_where("", Some(Role::Sheriff))
    }

    /// The first chair, in seat order, of the Don.
    pub fn don(&self) -> (r: Option<Chair>)
        requires
            self.wf(),
        ensures
            match first_match(self@.seats, with_role(Role::Don)) {
                Some(k) => r matches Some(c) && c@ == k + 1,
                None => r is None,
            },
    {
        self.first_chair_where("", Some(Role::Don))
    }

    /// The player on a chair.
    pub fn get_player(&self, chair: &Chair) -> (r: Result<&Player, TableError>)
        requires
            self.wf(),
        ensures
            r matches Ok(p) && p@ == self@.seats[chair@ - 1],
    {
        let k = chair.position();
        Ok(&self.seats[(k - 1) as usize])
    }

    /// The player on a chair, to be changed in place.
    pub fn get_player_mut(&mut self, chair: &Chair) -> (r: Result<&mut Player, TableError>)
        requires
            old(self).wf(),
        ensures
            r is Ok,
            r.unwrap()@ == old(self)@.seats[chair@ - 1],
            final(self)@ == (TableView {
                seats: old(self)@.seats.update(chair@ - 1, final(r.unwrap())@),
                ..old(self)@
            }),
    {
        let k = chair.position();
        proof {
            broadcast use lemma_seats_update;
        }
        Ok(&mut self.seats[(k - 1) as usize])
    }

    /// Every chair with its player, in seat order.
    pub fn all_chairs(&self) -> (v: Vec<(Chair, &Player)>)
        requires
            self.wf(),
        ensures
            v.len() == SEATS,
            forall|k: int| 0 <= k < SEATS ==> (#[trigger] v@[k]).0@ == k + 1 && v@[k].1@ == self@.seats[k],
    {
        let mut v: Vec<(Chair, &Player)> = Vec::new();
        let mut k: u8 = 0;
        while k < SEATS
            invariant
                self.wf(),
                k <= SEATS,
                v.len() == k,
                forall|j: int| 0 <= j < k ==> (#[trigger] v@[j]).0@ == j + 1 && v@[j].1@ == self@.seats[j],
            decreases SEATS - k,
        {
            v.push((Chair::new(k + 1), &self.seats[k as usize]));
            k = k + 1;
        }
        v
    }

    /// Every chair with its player, in seat order.
    pub fn iter(&self) -> (v: Vec<(Chair, &Player)>)
        requires
            self.wf(),
        ensures
            v.len() == SEATS,
            forall|k: int| 0 <= k < SEATS ==> (#[trigger] v@[k]).0@ == k + 1 && v@[k].1@ == self@.seats[k],
    {
        self.all_chairs()
    }

    /// Changes the player on a chair with `f`, given as the player after the change.
    pub fn set_player(&mut self, chair: &Chair, player: Player)
        requires
            old(self).wf(),
        ensures
            final(self).wf(),
            final(self)@ == (TableView { seats: old(self)@.seats.update(chair@ - 1, player@), ..old(self)@ }),
    {
        let k = chair.position();
        let ghost before = self.seats@;
        self.seats.set((k - 1) as usize, player);
        assert(self@.seats =~= old(self)@.seats.update(chair@ - 1, player@));
    }

    /// Takes a role from the pool.
    pub fn take_role(&mut self, role: Role) -> (r: Result<(), TableError>)
        ensures
            match first_match(old(self)@.available_roles, is_role(role)) {
                Some(k) => r is Ok && final(self)@ == (TableView {
                    available_roles: old(self)@.available_roles.remove(k),
                    ..old(self)@
                }),
                None => r == Err::<(), TableError>(TableError::NoAvailableRoles) && final(self)@ == old(self)@,
            },
    {
        let ghost f = is_role(role);
        let mut i: usize = 0;
        while i < self.available_roles.len()
            invariant
                0 <= i <= self.available_roles.len(),
                self@ == old(self)@,
                f == is_role(role),
                forall|j: int| 0 <= j < i ==> !f(#[trigger] self@.available_roles[j]),
            decreases self.available_roles.len() - i,
        {
            if self.available_roles[i] == role {
                proof {
                    crate::seqs::lemma_first_match_at(self@.available_roles, f, i as int);
                }
                self.available_roles.remove(i);
                return Ok(());
            }
            i = i + 1;
        }
        proof {
            crate::seqs::lemma_first_match(self@.available_roles, f);
            if let Some(k) = first_match(self@.available_roles, f) {
                assert(!f(self@.available_roles[k]));
            }
        }
        Err(TableError::NoAvailableRoles)
    }

    /// Puts a role back into the pool.
    pub fn return_role(&mut self, role: Role)
        ensures
            final(self)@ == (TableView { available_roles: old(self)@.available_roles.push(role), ..old(self)@ }),
    {
        self.available_roles.push(role);
    }

    /// Takes a chair from the free ones.
    pub fn take_seat(&mut self, chair: Chair) -> (r: Result<(), TableError>)
        ensures
            match first_match(old(self)@.available_seats, is_chair(chair)) {
                Some(k) => r is Ok && final(self)@ == (TableView {
                    available_seats: old(self)@.available_seats.remove(k),
                    ..old(self)@
                }),
                None => r == Err::<(), TableError>(TableError::NoAvailableSeats) && final(self)@ == old(self)@,
            },
    {
        let ghost f = is_chair(chair);
        let mut i: usize = 0;
        while i < self.available_seats.len()
            invariant
                0 <= i <= self.available_seats.len(),
                self@ == old(self)@,
                f == is_chair(chair),
                forall|j: int| 0 <= j < i ==> !f(#[trigger] self@.available_seats[j]),
            decreases self.available_seats.len() - i,
        {
            if self.available_seats[i] == chair {
                proof {
                    crate::seqs::lemma_first_match_at(self@.available_seats, f, i as int);
                }
                self.available_seats.remove(i);
                return Ok(());
            }
            i = i + 1;
        }
        proof {
            crate::seqs::lemma_first_match(self@.available_seats, f);
            if let Some(k) = first_match(self@.available_seats, f) {
                assert(!f(self@.available_seats[k]));
            }
        }
        Err(TableError::NoAvailableSeats)
    }

    /// Frees a chair, unless it is free already.
    pub fn return_seat(&mut self, chair: Chair)
        ensures
            final(self)@ == (TableView {
                available_seats: if old(self)@.available_seats.contains(chair) {
                    old(self)@.available_seats
                } else {
                    old(self)@.available_seats.push(chair)
                },
                ..old(self)@
            }),
    {
        let mut i: usize = 0;
        while i < self.available_seats.len()
            invariant
                0 <= i <= self.available_seats.len(),
                self@ == old(self)@,
                forall|j: int| 0 <= j < i ==> self@.available_seats[j] != chair,
            decreases self.available_seats.len() - i,
        {
            if self.available_seats[i] == chair {
                assert(self@.available_seats[i as int] == chair);
                return;
            }
            i = i + 1;
        }
        self.available_seats.push(chair);
    }

    /// Seats a player on a chair.
    pub fn seat_player(&mut self, chair: Chair, player: Player) -> (r: Result<(), TableError>)
        requires
            old(self).wf(),
        ensures
            final(self).wf(),
            r is Ok,
            final(self)@ == (TableView { seats: old(self)@.seats.update(chair@ - 1, player@), ..old(self)@ }),
    {
        self.set_player(&chair, player);
        Ok(())
    }

    /// Empties a chair and gives back who sat there.
    pub fn clear_seat(&mut self, chair: Chair) -> (r: Option<Player>)
        requires
            old(self).wf(),
        ensures
            final(self).wf(),
            r matches Some(p) && p@ == old(self)@.seats[chair@ - 1],
            final(self)@ == (TableView {
                seats: old(self)@.seats.update(chair@ - 1, empty_player()),
                ..old(self)@
            }),
    {
        let removed = match self.get_player(&chair) {
            Ok(p) => Some(p.duplicate()),
            Err(_) => None,
        };
        self.set_player(&chair, Player::default());
        removed
    }

    /// Moves the turn to the next chair, in seat order from the chair after
    /// the current one, whose player may act (`eligible[k]` for chair `k + 1`).
    pub fn next_actor(&self, actor: &mut Actor, eligible: &[bool]) -> (r: Option<Chair>)
        requires
            eligible@.len() == SEATS,
        ensures
            (final(actor)@, r) == table_step(eligible@, old(actor)@),
    {
        if actor.is_completed() {
            return None;
        }
        let start = actor.start();
        let start_pos: u8 = match actor.current() {
            Some(c) => c.position() + 1,
            None => start.position(),
        };
        let ghost a0 = actor@;
        let mut offset: u8 = 0;
        while offset < SEATS
            invariant
                0 <= offset <= SEATS,
                1 <= start_pos <= 11,
                eligible@.len() == SEATS,
                actor@ == a0,
                a0 == old(actor)@,
                !a0.completed,
                start == a0.start,
                table_step(eligible@, a0) == walk(eligible@, a0, start_pos as int, offset as int),
            decreases SEATS - offset,
        {
            let pos: u8 = ((start_pos - 1 + offset) % SEATS) + 1;
            let chair = Chair::new(pos);
            if !eligible[(pos - 1) as usize] {
                offset = offset + 1;
                continue;
            }
            let is_current = match actor.current() {
                Some(c) => c.position() == pos,
                None => false,
            };
            if is_current {
                offset = offset + 1;
                continue;
            }
            if start.position() == pos && actor.current().is_some() {
                actor.set_completed(true);
                return None;
            }
            proof {
                let c = choose|c: Chair| c@ == pos;
                Chair::lemma_same_position(c, chair);
            }
            actor.set_current(Some(chair));
            return Some(chair);
        }
        actor.set_completed(true);
        None
    }

    /// How each chair reads: its position, and its player unless empty.
    pub fn seat_texts(&self) -> (v: Vec<(u8, Option<String>)>)
        requires
            self.wf(),
        ensures
            v@.len() == 10,
            forall|k: int|
                0 <= k < 10 ==> (#[trigger] v@[k]).0 == k + 1 && (if self@.seats[k].name.len() == 0 {
                    v@[k].1 is None
                } else {
                    v@[k].1 matches Some(t) && t@ == player_text(self@.seats[k])
                }),
    {
        let mut v: Vec<(u8, Option<String>)> = Vec::new();
        let mut i: usize = 0;
        while i < 10
            invariant
                0 <= i <= 10,
                self.seats@.len() == 10,
                self@.seats.len() == 10,
                v@.len() == i,
                forall|k: int|
                    0 <= k < i ==> (#[trigger] v@[k]).0 == k + 1 && (if self@.seats[k].name.len() == 0 {
                        v@[k].1 is None
                    } else {
                        v@[k].1 matches Some(t) && t@ == player_text(self@.seats[k])
                    }),
            decreases 10 - i,
        {
            let p = &self.seats[i];
            assert(self@.seats[i as int] == p@);
            let text = if p.name().unicode_len() == 0 {
                None
            } else {
                Some(p.to_string())
            };
            v.push(((i + 1) as u8, text));
            i = i + 1;
        }
        v
    }
}

} // verus!
