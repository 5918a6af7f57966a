//! The first table of the game: chairs, players with their roles, and the
//! phases of a round, driven by typed host commands.
use vstd::prelude::*;
use vstd::string::StrSliceExecFns;

use std::collections::BTreeMap;

use crate::random::choose_from;
use crate::text::{decimal, push_decimal, push_text};

verus! {

broadcast use vstd::std_specs::btree::group_btree_axioms;

/// The secret role of a player.
#[derive(Debug, Default, Clone, Copy, PartialEq, Eq, Structural, Hash)]
pub enum Role {
    #[default]
    Citizen,
    Mafia,
    Don,
    Sheriff,
}

/// Whether a player is still in the game.
#[derive(Debug, Default, Clone, Copy, PartialEq, Eq, Structural)]
pub enum Status {
    #[default]
    Alive,
    Killed,
    Eliminated,
    Removed,
}

/// The phases of a round, after the registration of the players.
#[derive(Debug, Default, Clone, Copy, PartialEq, Eq, Structural)]
pub enum Phase {
    #[default]
    Registration,
    Night,
    Morning,
    Day,
    Voting,
}

/// The phase after `p`: registration gives way to the night; night,
/// morning, day and voting follow one another, and the voting is followed
/// by the next night.
pub open spec fn phase_after(p: Phase) -> Phase {
    match p {
        Phase::Registration => Phase::Night,
        Phase::Night => Phase::Morning,
        Phase::Morning => Phase::Day,
        Phase::Day => Phase::Voting,
        Phase::Voting => Phase::Night,
    }
}

/// The name of a phase as it is displayed.
pub open spec fn phase_name(p: Phase) -> Seq<char> {
    match p {
        Phase::Registration => "Registration"@,
        Phase::Night => "Night"@,
        Phase::Morning => "Morning"@,
        Phase::Day => "Day"@,
        Phase::Voting => "Voting"@,
    }
}

impl Phase {
    /// Moves to the next phase.
    pub fn next(&mut self) -> (r: Result<(), String>)
        ensures
            *final(self) == phase_after(*old(self)),
            r is Ok,
    {
        *self = match *self {
            Phase::Registration => Phase::Night,
            Phase::Night => Phase::Morning,
            Phase::Morning => Phase::Day,
            Phase::Day => Phase::Voting,
            Phase::Voting => Phase::Night,
        };
        Ok(())
    }

    /// The displayed name of the phase.
    pub fn as_str(&self) -> (s: &'static str)
        ensures
            s@ == phase_name(*self),
    {
        match self {
            Phase::Registration => "Registration",
            Phase::Night => "Night",
            Phase::Morning => "Morning",
            Phase::Day => "Day",
            Phase::Voting => "Voting",
        }
    }
}

/// A player at the table; `is_nominee` and `nominated` are indexed by round.
#[derive(Debug)]
pub struct Player {
    pub name: String,
    pub role: Role,
    pub warnings: u8,
    pub status: Status,
    pub is_nominee: Vec<bool>,
    pub nominated: Vec<Option<u8>>,
}

/// The abstract state of a [`Player`].
pub struct PlayerView {
    pub name: Seq<char>,
    pub role: Role,
    pub warnings: u8,
    pub status: Status,
    pub is_nominee: Seq<bool>,
    pub nominated: Seq<Option<u8>>,
}

impl View for Player {
    type V = PlayerView;

    open spec fn view(&self) -> PlayerView {
        PlayerView {
            name: self.name@,
            role: self.role,
            warnings: self.warnings,
            status: self.status,
            is_nominee: self.is_nominee@,
            nominated: self.nominated@,
        }
    }
}

/// A player who just sat down with a role.
pub open spec fn fresh_player(name: Seq<char>, role: Role) -> PlayerView {
    PlayerView { name, role, warnings: 0, status: Status::Alive, is_nominee: Seq::empty(), nominated: Seq::empty() }
}

/// Nobody: the player of an empty chair.
pub open spec fn nobody() -> PlayerView {
    fresh_player(Seq::empty(), Role::Citizen)
}

impl Player {
    pub fn new(name: String, role: Role) -> (p: Player)
        ensures
            p@ == fresh_player(name@, role),
    {
        Player { name, role, warnings: 0, status: Status::Alive, is_nominee: Vec::new(), nominated: Vec::new() }
    }

    /// The player of an empty chair.
    pub fn default() -> (p: Player)
        ensures
            p@ == nobody(),
    {
        Player::new(String::new(), Role::Citizen)
    }

    /// A copy of the player.
    pub fn duplicate(&self) -> (p: Player)
        ensures
            p@ == self@,
    {
        let mut is_nominee: Vec<bool> = Vec::new();
        let mut i: usize = 0;
        while i < self.is_nominee.len()
            invariant
                0 <= i <= self.is_nominee.len(),
                is_nominee@ == self.is_nominee@.take(i as int),
            decreases self.is_nominee.len() - i,
        {
            is_nominee.push(self.is_nominee[i]);
            assert(self.is_nominee@.take(i + 1) =~= self.is_nominee@.take(i as int).push(self.is_nominee@[i as int]));
            i = i + 1;
        }
        let mut nominated: Vec<Option<u8>> = Vec::new();
        let mut j: usize = 0;
        while j < self.nominated.len()
            invariant
                0 <= j <= self.nominated.len(),
                nominated@ == self.nominated@.take(j as int),
            decreases self.nominated.len() - j,
        {
            nominated.push(self.nominated[j]);
            assert(self.nominated@.take(j + 1) =~= self.nominated@.take(j as int).push(self.nominated@[j as int]));
            j = j + 1;
        }
        assert(self.is_nominee@.take(i as int) =~= self.is_nominee@);
        assert(self.nominated@.take(j as int) =~= self.nominated@);
        Player {
            name: self.name.clone(),
            role: self.role,
            warnings: self.warnings,
            status: self.status,
            is_nominee,
            nominated,
        }
    }

    pub fn add_warning(&mut self)
        requires
            old(self).warnings < 255,
        ensures
            final(self)@ == (PlayerView { warnings: (old(self).warnings + 1) as u8, ..old(self)@ }),
    {
        self.warnings = self.warnings + 1;
    }

    pub fn reset_warnings(&mut self)
        ensures
            final(self)@ == (PlayerView { warnings: 0, ..old(self)@ }),
    {
        self.warnings = 0;
    }

    /// Takes back a warning, if there is one.
    pub fn remove_warning(&mut self)
        ensures
            final(self)@ == (PlayerView {
                warnings: if old(self).warnings > 0 {
                    (old(self).warnings - 1) as u8
                } else {
                    0
                },
                ..old(self)@
            }),
    {
        if self.warnings > 0 {
            self.warnings = self.warnings - 1;
        }
    }

    /// Withdraws the last nomination.
    pub fn withdraw(&mut self)
        ensures
            final(self)@ == (PlayerView {
                nominated: if old(self)@.nominated.len() > 0 {
                    old(self)@.nominated.drop_last()
                } else {
                    old(self)@.nominated
                },
                ..old(self)@
            }),
    {
        self.nominated.pop();
    }

    /// Records a nomination.
    pub fn nominate(&mut self, position: Option<u8>)
        ensures
            final(self)@ == (PlayerView { nominated: old(self)@.nominated.push(position), ..old(self)@ }),
    {
        self.nominated.push(position);
    }
}

/// A chair of the table.
#[derive(Debug, Default, Clone, Copy, PartialEq, Eq, Structural, Hash, PartialOrd, Ord)]
pub struct Chair {
    pub position: u8,
}

impl Chair {
    pub fn new(position: u8) -> (c: Chair)
        ensures
            c.position == position,
    {
        Chair { position }
    }
}


/// The table: who sits on which chair (by position), the roles and seats
/// still free, who was nominated, the round and the phase.
pub struct Table {
    pub chairs_to_players: BTreeMap<u8, Player>,
    pub available_roles: Vec<Role>,
    pub available_positions: Vec<u8>,
    pub nominated_players: Vec<String>,
    pub round: u8,
    pub phase: Phase,
}

/// The abstract state of a [`Table`].
pub struct TableView {
    pub seats: Map<u8, PlayerView>,
    pub available_roles: Seq<Role>,
    pub available_positions: Seq<u8>,
    pub nominated_players: Seq<Seq<char>>,
    pub round: u8,
    pub phase: Phase,
}

impl View for Table {
    type V = TableView;

    open spec fn view(&self) -> TableView {
        TableView {
            seats: chairs_view(self.chairs_to_players@),
            available_roles: self.available_roles@,
            available_positions: self.available_positions@,
            nominated_players: self.nominated_players@.map_values(|n: String| n@),
            round: self.round,
            phase: self.phase,
        }
    }
}

/// The number of chairs.
pub const SEATS: u8 = 10;

/// The roles dealt: one Don, two Mafia, one Sheriff, six Citizens.
pub open spec fn dealt_roles() -> Seq<Role> {
    seq![
        Role::Don,
        Role::Mafia,
        Role::Mafia,
        Role::Sheriff,
        Role::Citizen,
        Role::Citizen,
        Role::Citizen,
        Role::Citizen,
        Role::Citizen,
        Role::Citizen,
    ]
}

/// Whether chair `k` holds the first player, in chair order, called `name`.
pub open spec fn is_first_named(seats: Map<u8, PlayerView>, name: Seq<char>, k: u8) -> bool {
    &&& seats.dom().contains(k)
    &&& seats[k].name == name
    &&& forall|j: u8| j < k && #[trigger] seats.dom().contains(j) ==> seats[j].name != name
}

/// The first chair, in chair order, of a player called `name`.
pub open spec fn first_named(seats: Map<u8, PlayerView>, name: Seq<char>) -> Option<u8> {
    if exists|k: u8| is_first_named(seats, name, k) {
        Some(choose|k: u8| is_first_named(seats, name, k))
    } else {
        None
    }
}

/// Only one chair holds the first player called `name`.
proof fn lemma_first_named_unique(seats: Map<u8, PlayerView>, name: Seq<char>, k: u8)
    requires
        is_first_named(seats, name, k),
    ensures
        first_named(seats, name) == Some(k),
{
    let c = choose|c: u8| is_first_named(seats, name, c);
    if c < k {
        assert(seats.dom().contains(c));
    } else if k < c {
        assert(seats.dom().contains(k));
    }
}

/// The positions of `s` other than `p`, in order.
pub open spec fn without(s: Seq<u8>, p: u8) -> Seq<u8> {
    s.filter(other_than(p))
}

/// Whether a position is not `p`.
pub open spec fn other_than(p: u8) -> spec_fn(u8) -> bool {
    |x: u8| x != p
}

/// Whether a role is `r`.
pub open spec fn is_role(r: Role) -> spec_fn(Role) -> bool {
    |x: Role| x == r
}

/// A join once a seat and a role were drawn: a full table starts the night
/// instead; otherwise the seat leaves the free ones, then the role leaves
/// the pool and the player sits down.
pub open spec fn join_outcome(t: TableView, name: Seq<char>, seat: Option<u8>, role: Option<Role>) -> (
    TableView,
    Result<(), Seq<char>>,
) {
    if (t.available_positions.len() as u8) == 0 {
        (TableView { phase: Phase::Night, ..t }, Ok(()))
    } else {
        match seat {
            None => (t, Err("No available positions"@)),
            Some(p) => {
                let t1 = TableView { available_positions: without(t.available_positions, p), ..t };
                match role {
                    None => (t1, Err("No available roles"@)),
                    Some(r) => match crate::seqs::first_match(t1.available_roles, is_role(r)) {
                        None => (t1, Err("No available roles"@)),
                        Some(k) => (
                            TableView {
                                available_roles: t1.available_roles.remove(k),
                                seats: t1.seats.insert(p, fresh_player(name, r)),
                                ..t1
                            },
                            Ok(()),
                        ),
                    },
                }
            },
        }
    }
}

/// A leave: during registration the first player called `name` gives back
/// the seat and the role, and the chair is empty again.
pub open spec fn leave_outcome(t: TableView, name: Seq<char>) -> (TableView, Result<(), Seq<char>>) {
    if t.phase != Phase::Registration {
        (t, Err("Cannot leave after registration phase"@))
    } else {
        match first_named(t.seats, name) {
            None => (t, Err("Player not found"@)),
            Some(k) => (
                TableView {
                    available_positions: t.available_positions.push(k),
                    available_roles: t.available_roles.push(t.seats[k].role),
                    seats: t.seats.insert(k, nobody()),
                    ..t
                },
                Ok(()),
            ),
        }
    }
}

/// The next phase: registration waits while seats are free; a finished
/// voting ends the round.
pub open spec fn next_phase_outcome(t: TableView) -> TableView {
    if t.phase == Phase::Registration && (t.available_positions.len() as u8) != 0 {
        t
    } else if t.phase == Phase::Voting {
        TableView { round: (t.round + 1) as u8, phase: phase_after(t.phase), ..t }
    } else {
        TableView { phase: phase_after(t.phase), ..t }
    }
}

/// The table with the player on chair `k` changed to `p`.
pub open spec fn with_seat(t: TableView, k: u8, p: PlayerView) -> TableView {
    TableView { seats: t.seats.insert(k, p), ..t }
}

/// The views of the players on the chairs.
pub open spec fn chairs_view(m: Map<u8, Player>) -> Map<u8, PlayerView> {
    m.map_values(|p: Player| p@)
}

/// Seating a player and then viewing the chairs is viewing them and then
/// seating that player's view.
broadcast proof fn lemma_chairs_insert(m: Map<u8, Player>, k: u8, p: Player)
    ensures
        #[trigger] chairs_view(m.insert(k, p)) == chairs_view(m).insert(k, p@),
{
    assert(chairs_view(m.insert(k, p)) =~= chairs_view(m).insert(k, p@));
}

/// `BTreeMap::get_mut`: the value stored under `k`, to be changed in place,
/// or nothing where no value is stored; the map keeps its other entries.
#[verifier::external_body]
fn chair_entry(m: &mut BTreeMap<u8, Player>, k: u8) -> (r: Option<&mut Player>)
    ensures
        old(m)@.contains_key(k) ==> r is Some && *r.unwrap() == old(m)@[k] && final(m)@ == old(m)@.insert(
            k,
            *final(r.unwrap()),
        ),
        !old(m)@.contains_key(k) ==> r is None && final(m)@ == old(m)@,
{
    m.get_mut(&k)
}

/// The table after the player on chair `k` got one more warning.
pub open spec fn warned_at(t: TableView, k: u8) -> TableView {
    with_seat(t, k, PlayerView { warnings: (t.seats[k].warnings + 1) as u8, ..t.seats[k] })
}

/// The table after the player on chair `k` got one warning back (none
/// below zero).
pub open spec fn pardoned_at(t: TableView, k: u8) -> TableView {
    with_seat(
        t,
        k,
        PlayerView {
            warnings: if t.seats[k].warnings > 0 {
                (t.seats[k].warnings - 1) as u8
            } else {
                0
            },
            ..t.seats[k]
        },
    )
}

/// A pardon takes back a warning: warning the player on a chair and then
/// pardoning them gives the table back as it was.
pub proof fn lemma_pardon_undoes_warn(t: TableView, k: u8)
    requires
        t.seats.dom().contains(k),
        t.seats[k].warnings < 255,
    ensures
        pardoned_at(warned_at(t, k), k) == t,
{
    assert(pardoned_at(warned_at(t, k), k).seats =~= t.seats);
}

proof fn lemma_seats_insert(m: Map<u8, Player>, k: u8, p: Player)
    ensures
        m.insert(k, p).map_values(|x: Player| x@) == m.map_values(|x: Player| x@).insert(k, p@),
{
    assert(m.insert(k, p).map_values(|x: Player| x@) =~= m.map_values(|x: Player| x@).insert(k, p@));
}

proof fn lemma_seats_remove(m: Map<u8, Player>, k: u8)
    ensures
        m.remove(k).map_values(|x: Player| x@) == m.map_values(|x: Player| x@).remove(k),
{
    assert(m.remove(k).map_values(|x: Player| x@) =~= m.map_values(|x: Player| x@).remove(k));
}

impl Table {
    /// An empty table in registration: ten empty chairs, every seat and role free.
    pub fn new() -> (t: Table)
        ensures
            t@.seats == Map::new(|k: u8| 1 <= k <= 10, |k: u8| nobody()),
            t@.available_roles == dealt_roles(),
            t@.available_positions == Seq::new(10, |i: int| (i + 1) as u8),
            t@.nominated_players == Seq::<Seq<char>>::empty(),
            t@.round == 0,
            t@.phase == Phase::Registration,
    {
        let available_roles = vec![
            Role::Don,
            Role::Mafia,
            Role::Mafia,
            Role::Sheriff,
            Role::Citizen,
            Role::Citizen,
            Role::Citizen,
            Role::Citizen,
            Role::Citizen,
            Role::Citizen,
        ];
        let mut available_positions: Vec<u8> = Vec::new();
        let mut chairs_to_players: BTreeMap<u8, Player> = BTreeMap::new();
        let mut position: u8 = 1;
        while position <= SEATS
            invariant
                1 <= position <= SEATS + 1,
                available_positions@ == Seq::new((position - 1) as nat, |i: int| (i + 1) as u8),
                chairs_to_players@.map_values(|p: Player| p@) == Map::new(
                    |k: u8| 1 <= k < position,
                    |k: u8| nobody(),
                ),
            decreases SEATS + 1 - position,
        {
            available_positions.push(position);
            let p = Player::default();
            let ghost m = chairs_to_players@;
            chairs_to_players.insert(position, p);
            proof {
                lemma_seats_insert(m, position, p);
            }
            assert(chairs_to_players@.map_values(|p: Player| p@) =~= Map::new(
                |k: u8| 1 <= k < position + 1,
                |k: u8| nobody(),
            ));
            assert(available_positions@ =~= Seq::new(position as nat, |i: int| (i + 1) as u8));
            position = position + 1;
        }
        let t = Table {
            chairs_to_players,
            available_roles,
            available_positions,
            nominated_players: Vec::new(),
            round: 0,
            phase: Phase::Registration,
        };
        assert(t@.available_roles =~= dealt_roles());
        assert(t@.nominated_players =~= Seq::<Seq<char>>::empty());
        assert(t@.seats =~= Map::new(|k: u8| 1 <= k <= 10, |k: u8| nobody()));
        t
    }
}


impl Table {
    /// The free positions without `p`.
    fn remove_position(&mut self, p: u8)
        ensures
            final(self)@ == (TableView { available_positions: without(old(self)@.available_positions, p), ..old(self)@ }),
    {
        let ghost pred = other_than(p);
        let ghost s = self.available_positions@;
        let mut kept: Vec<u8> = Vec::new();
        let mut i: usize = 0;
        assert(s.take(0) =~= Seq::<u8>::empty());
        proof {
            reveal(Seq::filter);
        }
        while i < self.available_positions.len()
            invariant
                0 <= i <= self.available_positions.len(),
                s == self.available_positions@,
                pred == other_than(p),
                kept@ == s.take(i as int).filter(pred),
            decreases self.available_positions.len() - i,
        {
            let x = self.available_positions[i];
            proof {
                assert(s.take(i + 1) =~= s.take(i as int).push(x));
                s.take(i as int).lemma_filter_push(x, pred);
            }
            if x != p {
                kept.push(x);
            }
            i = i + 1;
        }
        assert(s.take(s.len() as int) =~= s);
        self.available_positions = kept;
    }

    /// Takes the first `role` out of the pool, if it is there.
    fn take_role(&mut self, role: Role) -> (found: bool)
        ensures
            match crate::seqs::first_match(old(self)@.available_roles, is_role(role)) {
                Some(k) => found && final(self)@ == (TableView {
                    available_roles: old(self)@.available_roles.remove(k),
                    ..old(self)@
                }),
                None => !found && final(self)@ == old(self)@,
            },
    {
        let ghost f = is_role(role);
        let mut i: usize = 0;
        while i < self.available_roles.len()
            invariant
                0 <= i <= self.available_roles.len(),
                self@ == old(self)@,
                f == is_role(role),
                forall|j: int| 0 <= j < i ==> !f(#[trigger] self@.available_roles[j]),
            decreases self.available_roles.len() - i,
        {
            if self.available_roles[i] == role {
                proof {
                    crate::seqs::lemma_first_match_at(self@.available_roles, f, i as int);
                }
                self.available_roles.remove(i);
                return true;
            }
            i = i + 1;
        }
        proof {
            crate::seqs::lemma_first_match(self@.available_roles, f);
            if let Some(k) = crate::seqs::first_match(self@.available_roles, f) {
                assert(!f(self@.available_roles[k]));
            }
        }
        false
    }

    /// Seats a player with the drawn seat and role; see [`join_outcome`].
    pub fn join_with(&mut self, name: &str, seat: Option<u8>, role: Option<Role>) -> (r: Result<(), String>)
        ensures
            (final(self)@, match r {
                Ok(()) => Ok::<(), Seq<char>>(()),
                Err(e) => Err(e@),
            }) == join_outcome(old(self)@, name@, seat, role),
    {
        if self.available_positions.len() as u8 == 0 {
            self.phase = Phase::Night;
            return Ok(());
        }
        let position = match seat {
            Some(p) => p,
            None => return Err("No available positions".to_owned()),
        };
        self.remove_position(position);
        let r = match role {
            Some(x) => x,
            None => return Err("No available roles".to_owned()),
        };
        if !self.take_role(r) {
            return Err("No available roles".to_owned());
        }
        let player = Player::new(name.to_owned(), r);
        let ghost m = self.chairs_to_players@;
        let ghost pv = player@;
        let _ = self.chairs_to_players.insert(position, player);
        proof {
            lemma_seats_insert(m, position, self.chairs_to_players@[position]);
        }
        Ok(())
    }

    /// Seats a player at a random free seat with a random free role; a full
    /// table starts the night instead.
    pub fn join(&mut self, name: &str) -> (r: Result<(), String>)
        ensures
            exists|seat: Option<u8>, role: Option<Role>|
                crate::engine::lobby::valid_pick(old(self)@.available_positions, seat)
                    && crate::engine::lobby::valid_pick(old(self)@.available_roles, role) && (
                    final(self)@,
                    match r {
                        Ok(()) => Ok::<(), Seq<char>>(()),
                        Err(e) => Err(e@),
                    },
                ) == #[trigger] join_outcome(old(self)@, name@, seat, role),
    {
        let seat = choose_from(self.available_positions.as_slice());
        let role = choose_from(self.available_roles.as_slice());
        let r = self.join_with(name, seat, role);
        assert(crate::engine::lobby::valid_pick(old(self)@.available_positions, seat));
        assert(crate::engine::lobby::valid_pick(old(self)@.available_roles, role));
        r
    }
}


/// The result of a table request seen as characters.
pub open spec fn result_text(r: Result<(), String>) -> Result<(), Seq<char>> {
    match r {
        Ok(()) => Ok(()),
        Err(e) => Err(e@),
    }
}

impl Table {
    /// The first chair, in chair order, of a player called `name`.
    fn find_named(&self, name: &str) -> (r: Option<u8>)
        ensures
            r == first_named(self@.seats, name@),
    {
        let mut k: u16 = 0;
        while k < 256
            invariant
                0 <= k <= 256,
                forall|j: u8| j < k && #[trigger] self@.seats.dom().contains(j) ==> self@.seats[j].name != name@,
            decreases 256 - k,
        {
            let key = k as u8;
            match self.chairs_to_players.get(&key) {
                Some(p) => {
                    if crate::text::same_text(p.name.as_str(), name) {
                        proof {
                            assert(is_first_named(self@.seats, name@, key));
                            lemma_first_named_unique(self@.seats, name@, key);
                        }
                        return Some(key);
                    }
                },
                None => {},
            }
            k = k + 1;
        }
        proof {
            if exists|c: u8| is_first_named(self@.seats, name@, c) {
                let c = choose|c: u8| is_first_named(self@.seats, name@, c);
                assert(self@.seats.dom().contains(c));
            }
        }
        None
    }

    /// Sets the player on chair `k`.
    fn put(&mut self, k: u8, p: Player)
        ensures
            final(self)@ == with_seat(old(self)@, k, p@),
    {
        let ghost m = self.chairs_to_players@;
        let _ = self.chairs_to_players.insert(k, p);
        proof {
            lemma_seats_insert(m, k, self.chairs_to_players@[k]);
        }
    }

    /// During registration, the first player called `name` leaves: the seat
    /// and the role are free again and the chair is empty.
    pub fn leave(&mut self, name: &str) -> (r: Result<(), String>)
        ensures
            (final(self)@, result_text(r)) == leave_outcome(old(self)@, name@),
    {
        if self.phase != Phase::Registration {
            return Err("Cannot leave after registration phase".to_owned());
        }
        let k = match self.find_named(name) {
            Some(k) => k,
            None => return Err("Player not found".to_owned()),
        };
        let role = match self.chairs_to_players.get(&k) {
            Some(p) => p.role,
            None => {
                assert(false);
                Role::Citizen
            },
        };
        let _ = self.chairs_to_players.remove(&k);
        self.available_positions.push(k);
        self.available_roles.push(role);
        let ghost m = self.chairs_to_players@;
        let _ = self.chairs_to_players.insert(k, Player::default());
        proof {
            lemma_seats_insert(m, k, self.chairs_to_players@[k]);
            lemma_seats_remove(old(self).chairs_to_players@, k);
            assert(self@.seats =~= old(self)@.seats.insert(k, nobody()));
        }
        Ok(())
    }

    /// Warns the player on a chair.
    pub fn warn(&mut self, chair: Chair) -> (r: Result<(), String>)
        requires
            old(self)@.seats.dom().contains(chair.position) ==> old(self)@.seats[chair.position].warnings < 255,
        ensures
            old(self)@.seats.dom().contains(chair.position) ==> r is Ok && final(self)@ == warned_at(
                old(self)@,
                chair.position,
            ),
            !old(self)@.seats.dom().contains(chair.position) ==> result_text(r) == Err::<(), Seq<char>>(
                "Player not found"@,
            ) && final(self)@ == old(self)@,
    {
        let mut p = match self.chairs_to_players.get(&chair.position) {
            Some(p) => p.duplicate(),
            None => return Err("Player not found".to_owned()),
        };
        p.add_warning();
        self.put(chair.position, p);
        Ok(())
    }

    /// Takes back a warning of the player on a chair.
    pub fn pardon(&mut self, chair: Chair) -> (r: Result<(), String>)
        ensures
            old(self)@.seats.dom().contains(chair.position) ==> r is Ok && final(self)@ == pardoned_at(
                old(self)@,
                chair.position,
            ),
            !old(self)@.seats.dom().contains(chair.position) ==> result_text(r) == Err::<(), Seq<char>>(
                "Player not found"@,
            ) && final(self)@ == old(self)@,
    {
        let mut p = match self.chairs_to_players.get(&chair.position) {
            Some(p) => p.duplicate(),
            None => return Err("Player not found".to_owned()),
        };
        p.remove_warning();
        self.put(chair.position, p);
        Ok(())
    }

    /// Moves to the next phase: registration waits for a full table, and a
    /// finished voting ends the round.
    pub fn next_phase(&mut self) -> (r: Result<(), String>)
        requires
            old(self)@.phase == Phase::Voting ==> old(self)@.round < 255,
        ensures
            r is Ok,
            final(self)@ == next_phase_outcome(old(self)@),
    {
        if self.phase == Phase::Registration && self.available_positions.len() as u8 != 0 {
            return Ok(());
        } else if self.phase == Phase::Voting {
            self.round = self.round + 1;
        }
        self.phase.next()
    }

    /// Nominates the player on a chair: their nomination is recorded with
    /// the chair, and their name joins the nominated players.
    pub fn nominate(&mut self, chair: Chair) -> (r: Result<(), String>)
        ensures
            old(self)@.seats.dom().contains(chair.position) ==> r is Ok && final(self)@ == (TableView {
                seats: old(self)@.seats.insert(
                    chair.position,
                    PlayerView {
                        nominated: old(self)@.seats[chair.position].nominated.push(Some(chair.position)),
                        ..old(self)@.seats[chair.position]
                    },
                ),
                nominated_players: old(self)@.nominated_players.push(old(self)@.seats[chair.position].name),
                ..old(self)@
            }),
            !old(self)@.seats.dom().contains(chair.position) ==> result_text(r) == Err::<(), Seq<char>>(
                "Player not found"@,
            ) && final(self)@ == old(self)@,
    {
        let mut p = match self.chairs_to_players.get(&chair.position) {
            Some(p) => p.duplicate(),
            None => return Err("Player not found".to_owned()),
        };
        p.nominate(Some(chair.position));
        let name = p.name.clone();
        self.put(chair.position, p);
        let ghost before = self.nominated_players@;
        self.nominated_players.push(name);
        assert(self@.nominated_players =~= before.map_values(|n: String| n@).push(name@));
        Ok(())
    }

    /// The first player, in chair order, called `player_name`.
    pub fn get_player_by_name(&self, player_name: &str) -> (r: Option<&Player>)
        ensures
            match first_named(self@.seats, player_name@) {
                Some(k) => r matches Some(p) && p@ == self@.seats[k],
                None => r is None,
            },
    {
        match self.find_named(player_name) {
            Some(k) => self.chairs_to_players.get(&k),
            None => None,
        }
    }

    /// The first player, in seat order, called `player_name`, to be changed in place.
    pub fn get_player_by_name_mut(&mut self, player_name: &str) -> (r: Option<&mut Player>)
        ensures
            match first_named(old(self)@.seats, player_name@) {
                Some(k) => r is Some && r.unwrap()@ == old(self)@.seats[k] && final(self)@ == with_seat(
                    old(self)@,
                    k,
                    final(r.unwrap())@,
                ),
                None => r is None && final(self)@ == old(self)@,
            },
    {
        match self.find_named(player_name) {
            Some(k) => {
                proof {
                    broadcast use lemma_chairs_insert;
                }
                chair_entry(&mut self.chairs_to_players, k)
            },
            None => None,
        }
    }

    /// The player on the chair at `position`, to be changed in place.
    pub fn get_player_by_position_mut(&mut self, position: u8) -> (r: Option<&mut Player>)
        ensures
            old(self)@.seats.dom().contains(position) ==> r is Some && r.unwrap()@ == old(self)@.seats[position]
                && final(self)@ == with_seat(old(self)@, position, final(r.unwrap())@),
            !old(self)@.seats.dom().contains(position) ==> r is None && final(self)@ == old(self)@,
    {
        proof {
            broadcast use lemma_chairs_insert;
        }
        chair_entry(&mut self.chairs_to_players, position)
    }

    /// The player on the chair at `position`.
    pub fn get_player_by_position(&self, position: u8) -> (r: Option<&Player>)
        ensures
            self@.seats.dom().contains(position) ==> (r matches Some(p) && p@ == self@.seats[position]),
            !self@.seats.dom().contains(position) ==> r is None,
    {
        let chair = Chair::new(position);
        self.chairs_to_players.get(&chair.position)
    }

    /// Sets the status of the player on the chair at `position`.
    pub fn update_player_status_by_position(&mut self, position: u8, status: Status) -> (r: Result<(), String>)
        ensures
            old(self)@.seats.dom().contains(position) ==> r is Ok && final(self)@ == with_seat(
                old(self)@,
                position,
                PlayerView { status, ..old(self)@.seats[position] },
            ),
            !old(self)@.seats.dom().contains(position) ==> result_text(r) == Err::<(), Seq<char>>(
                "Player not found"@,
            ) && final(self)@ == old(self)@,
    {
        let chair = Chair::new(position);
        let mut p = match self.chairs_to_players.get(&chair.position) {
            Some(p) => p.duplicate(),
            None => return Err("Player not found".to_owned()),
        };
        p.status = status;
        self.put(chair.position, p);
        Ok(())
    }
}


/// A role as its debug form shows it.
pub open spec fn role_debug(r: Role) -> Seq<char> {
    match r {
        Role::Citizen => "Citizen"@,
        Role::Mafia => "Mafia"@,
        Role::Don => "Don"@,
        Role::Sheriff => "Sheriff"@,
    }
}

/// A status as its debug form shows it.
pub open spec fn status_debug(s: Status) -> Seq<char> {
    match s {
        Status::Alive => "Alive"@,
        Status::Killed => "Killed"@,
        Status::Eliminated => "Eliminated"@,
        Status::Removed => "Removed"@,
    }
}

/// The line shown for chair `k` in a phase (none while voting).
pub open spec fn chair_line(phase: Phase, k: u8, p: PlayerView) -> Seq<Seq<char>> {
    let chair = "Chair: "@ + decimal(k as nat);
    match phase {
        Phase::Registration => if p.name.len() == 0 {
            seq![chair + " is unoccupied"@]
        } else {
            seq![chair + ", Player: "@ + p.name]
        },
        Phase::Night => seq![chair + ", Player: "@ + p.name + ", Role: "@ + role_debug(p.role)],
        Phase::Morning | Phase::Day => if p.name.len() == 0 {
            seq![chair + " is unoccupied"@]
        } else {
            seq![
                chair + ", Player: "@ + p.name + ", Status: "@ + status_debug(p.status) + ", Warnings: "@
                    + decimal(p.warnings as nat),
            ]
        },
        Phase::Voting => Seq::empty(),
    }
}

/// The lines of the chairs below position `n`, in chair order.
pub open spec fn chair_lines(t: TableView, n: nat) -> Seq<Seq<char>>
    decreases n,
{
    if n == 0 {
        Seq::empty()
    } else {
        let k = (n - 1) as u8;
        chair_lines(t, (n - 1) as nat) + if t.seats.dom().contains(k) {
            chair_line(t.phase, k, t.seats[k])
        } else {
            Seq::empty()
        }
    }
}

/// The first night's advice to the host.
pub open spec fn first_night_lines() -> Seq<Seq<char>> {
    seq![
        "To assigne players their roles, use the 'show' command during the night phase so you can see each player's role privately."@,
        "After that give 5 seconds to Sheriff to investigate cityzens and 1 minute to Mafia to choose their strategy."@,
        "Once the time is up, proceed to the morning phase using the appropriate command."@,
    ]
}

/// The first morning's announcement.
pub open spec fn first_morning_line() -> Seq<char> {
    "The game has begun! Welcome to the first day of Mafia. As this is a first morning, there are no shooting to announce."@
}

/// What the table shows: the phase and round, then every chair, with the
/// host's advice on the first night and the announcement of the first morning.
pub open spec fn rendered(t: TableView) -> Seq<Seq<char>> {
    let head = "Phase: "@ + phase_name(t.phase) + ", Round: "@ + decimal(t.round as nat);
    match t.phase {
        Phase::Registration => seq![head] + chair_lines(t, 256),
        Phase::Night => seq![head] + chair_lines(t, 256) + if t.round == 0 {
            first_night_lines()
        } else {
            Seq::empty()
        },
        Phase::Morning => seq![head] + if t.round == 0 {
            seq![first_morning_line()]
        } else {
            Seq::empty()
        } + chair_lines(t, 256),
        Phase::Day => seq![head] + chair_lines(t, 256),
        Phase::Voting => seq!["Phase: "@ + phase_name(t.phase)],
    }
}

/// The texts of a list of lines.
pub open spec fn lines_view(v: Seq<String>) -> Seq<Seq<char>> {
    v.map_values(|l: String| l@)
}

impl Table {
    /// The line shown for chair `k`, if any.
    fn chair_line_text(&self, k: u8, p: &Player) -> (r: Option<String>)
        ensures
            match r {
                Some(l) => chair_line(self@.phase, k, p@) == seq![l@],
                None => chair_line(self@.phase, k, p@) == Seq::<Seq<char>>::empty(),
            },
    {
        if self.phase == Phase::Voting {
            return None;
        }
        let mut l = String::new();
        push_text(&mut l, "Chair: ");
        push_decimal(&mut l, k as u64);
        let empty = p.name.as_str().unicode_len() == 0;
        match self.phase {
            Phase::Night => {
                push_text(&mut l, ", Player: ");
                push_text(&mut l, p.name.as_str());
                push_text(&mut l, ", Role: ");
                let role = match p.role {
                    Role::Citizen => "Citizen",
                    Role::Mafia => "Mafia",
                    Role::Don => "Don",
                    Role::Sheriff => "Sheriff",
                };
                push_text(&mut l, role);
            },
            _ => {
                if empty {
                    push_text(&mut l, " is unoccupied");
                } else if self.phase == Phase::Registration {
                    push_text(&mut l, ", Player: ");
                    push_text(&mut l, p.name.as_str());
                } else {
                    push_text(&mut l, ", Player: ");
                    push_text(&mut l, p.name.as_str());
                    push_text(&mut l, ", Status: ");
                    let status = match p.status {
                        Status::Alive => "Alive",
                        Status::Killed => "Killed",
                        Status::Eliminated => "Eliminated",
                        Status::Removed => "Removed",
                    };
                    push_text(&mut l, status);
                    push_text(&mut l, ", Warnings: ");
                    push_decimal(&mut l, p.warnings as u64);
                }
            },
        }
        assert(chair_line(self@.phase, k, p@) =~= seq![l@]);
        Some(l)
    }

    /// What the table shows, line by line.
    pub fn render(&self) -> (lines: Vec<String>)
        ensures
            lines_view(lines@) == rendered(self@),
    {
        let mut lines: Vec<String> = Vec::new();
        let mut head = String::new();
        push_text(&mut head, "Phase: ");
        push_text(&mut head, self.phase.as_str());
        if self.phase != Phase::Voting {
            push_text(&mut head, ", Round: ");
            push_decimal(&mut head, self.round as u64);
        }
        let ghost h = head@;
        lines.push(head);
        assert(lines_view(lines@) =~= seq![h]);
        if self.phase == Phase::Voting {
            assert(lines_view(lines@) =~= rendered(self@));
            return lines;
        }
        if self.phase == Phase::Morning && self.round == 0 {
            lines.push("The game has begun! Welcome to the first day of Mafia. As this is a first morning, there are no shooting to announce.".to_owned());
            assert(lines_view(lines@) =~= seq![h, first_morning_line()]);
        }
        let ghost prefix = lines_view(lines@);
        let mut k: u16 = 0;
        assert(prefix + chair_lines(self@, 0) =~= prefix);
        while k < 256
            invariant
                0 <= k <= 256,
                lines_view(lines@) == prefix + chair_lines(self@, k as nat),
                self.phase != Phase::Voting,
            decreases 256 - k,
        {
            let key = k as u8;
            let ghost before = lines@;
            assert(((k + 1) as nat - 1) as u8 == key);
            match self.chairs_to_players.get(&key) {
                Some(p) => {
                    assert(self@.seats.dom().contains(key));
                    assert(self@.seats[key] == p@);
                    match self.chair_line_text(key, p) {
                        Some(l) => {
                            lines.push(l);
                            assert(lines_view(lines@) =~= lines_view(before).push(l@));
                        },
                        None => {},
                    }
                },
                None => {
                    assert(!self@.seats.dom().contains(key));
                },
            }
            assert(lines_view(lines@) =~= prefix + chair_lines(self@, (k + 1) as nat));
            k = k + 1;
        }
        let ghost body = lines_view(lines@);
        if self.phase == Phase::Night && self.round == 0 {
            lines.push("To assigne players their roles, use the 'show' command during the night phase so you can see each player's role privately.".to_owned());
            lines.push("After that give 5 seconds to Sheriff to investigate cityzens and 1 minute to Mafia to choose their strategy.".to_owned());
            lines.push("Once the time is up, proceed to the morning phase using the appropriate command.".to_owned());
            assert(lines_view(lines@) =~= body + first_night_lines());
        }
        assert(lines_view(lines@) =~= rendered(self@));
        lines
    }
}

} // verus!
