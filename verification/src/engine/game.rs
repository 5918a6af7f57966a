pub mod actor;
pub mod check;
pub mod player;
pub mod round;
pub mod voting;

use vstd::prelude::*;

use std::collections::HashMap;

use self::actor::{Actor, ActorView};
use self::check::{Check, CheckView};
use self::player::{Player, PlayerView, fresh_player};
use self::voting::{Voting, VotingView, fresh_voting, voting_wf};
use crate::domain::{DayIndex, Position, Role, Status};
use crate::engine::turn::{cycle_step, next_in_cycle};
use crate::text::{decimal, push_decimal, push_text};
use crate::snapshot::{self, Snapshot};
use self::voting::voting_snapshot;
use self::player::player_snapshot;
use crate::seqs::{bucket_concat, first_match, lemma_first_match, lemma_first_match_at};

verus! {

broadcast use vstd::std_specs::hash::group_hash_axioms;

#[derive(Debug, Clone)]
pub enum Error {
    PlayerByPositionNotFound(Position),
    PlayerByNameNotFound(String),
    PlayerByNameAlreadyExist(String),
    PlayerNameIsEmpty,
    NoAvailableRoles,
    NoAvailablePositions,
    Player(player::Error),
    Check(check::Error),
    Voting(voting::Error),
}

/// An [`Error`] with names seen as characters.
pub enum ErrorView {
    PlayerByPositionNotFound(Position),
    PlayerByNameNotFound(Seq<char>),
    PlayerByNameAlreadyExist(Seq<char>),
    PlayerNameIsEmpty,
    NoAvailableRoles,
    NoAvailablePositions,
    Player(player::Error),
    Check(check::Error),
    Voting(voting::Error),
}

impl View for Error {
    type V = ErrorView;

    open spec fn view(&self) -> ErrorView {
        match *self {
            Error::PlayerByPositionNotFound(p) => ErrorView::PlayerByPositionNotFound(p),
            Error::PlayerByNameNotFound(n) => ErrorView::PlayerByNameNotFound(n@),
            Error::PlayerByNameAlreadyExist(n) => ErrorView::PlayerByNameAlreadyExist(n@),
            Error::PlayerNameIsEmpty => ErrorView::PlayerNameIsEmpty,
            Error::NoAvailableRoles => ErrorView::NoAvailableRoles,
            Error::NoAvailablePositions => ErrorView::NoAvailablePositions,
            Error::Player(e) => ErrorView::Player(e),
            Error::Check(e) => ErrorView::Check(e),
            Error::Voting(e) => ErrorView::Voting(e),
        }
    }
}

/// Why `add_player(name)` refuses on `g`, if it does: an empty name, a
/// name already taken, or a full table.
pub open spec fn add_player_error(g: GameView, name: Seq<char>) -> Option<ErrorView> {
    if name.len() == 0 {
        Some(ErrorView::PlayerNameIsEmpty)
    } else if index_named(g.players, name) is Some {
        Some(ErrorView::PlayerByNameAlreadyExist(name))
    } else if g.players.len() >= PLAYER_COUNT {
        Some(ErrorView::Player(player::Error::HasPosition))
    } else {
        None
    }
}

#[derive(Debug, Clone)]
pub enum Event {
    PlayerLeft { name: String },
    PlayerJoin { name: String },
    Player(player::Event),
    Check(check::Event),
    Voting(voting::Event),
    FinalVoting(Position),
    MafiaKill { position: Position },
    Guess { position: Position },
    Eliminated { day: DayIndex, positions: Vec<Position> },
}

/// Which voting round a vote goes to.
#[derive(Debug, Clone, Copy, PartialEq, Eq, Structural)]
pub enum Pool {
    Main,
    Tie,
    Final,
}

/// Who may act in a turn around the table.
#[derive(Debug, Clone)]
pub enum Eligibility {
    /// Players still waiting for a role.
    WithoutRole,
    /// The Sheriff.
    Sheriff,
    /// The Don.
    Don,
    /// The player shot at the given seat, once dead.
    Killed(Position),
    /// Players still alive.
    Alive,
    /// Eliminated players among the given seats.
    EliminatedAmong(Vec<Position>),
}

/// The whole record of a game: the players, the nominations and votes of
/// each day, the night checks and shots, and the pools of free roles and seats.
#[derive(Debug)]
pub struct Game {
    players: Vec<Player>,
    voting: HashMap<usize, Voting>,
    tie_voting: HashMap<usize, Voting>,
    final_voting: HashMap<usize, Vec<Position>>,
    check: HashMap<usize, Check>,
    kill: HashMap<usize, Position>,
    guess: Vec<Position>,
    eliminated: HashMap<usize, Vec<Position>>,
    roles_pool: Vec<Role>,
    positions_pool: Vec<Position>,
}

/// The abstract state of a [`Game`]; maps are keyed by day number.
pub struct GameView {
    pub players: Seq<PlayerView>,
    pub voting: Map<usize, VotingView>,
    pub tie_voting: Map<usize, VotingView>,
    pub final_voting: Map<usize, Seq<Position>>,
    pub check: Map<usize, CheckView>,
    pub kill: Map<usize, Position>,
    pub guess: Seq<Position>,
    pub eliminated: Map<usize, Seq<Position>>,
    pub roles_pool: Seq<Role>,
    pub positions_pool: Seq<Position>,
}

/// The views of a list of players.
pub open spec fn players_view(ps: Seq<Player>) -> Seq<PlayerView> {
    ps.map_values(|p: Player| p@)
}

impl View for Game {
    type V = GameView;

    closed spec fn view(&self) -> GameView {
        GameView {
            players: players_view(self.players@),
            voting: self.voting@.map_values(|v: Voting| v@),
            tie_voting: self.tie_voting@.map_values(|v: Voting| v@),
            final_voting: self.final_voting@.map_values(|v: Vec<Position>| v@),
            check: self.check@.map_values(|c: Check| c@),
            kill: self.kill@,
            guess: self.guess@,
            eliminated: self.eliminated@.map_values(|v: Vec<Position>| v@),
            roles_pool: self.roles_pool@,
            positions_pool: self.positions_pool@,
        }
    }
}

/// Replacing one player and then viewing the players is viewing them and
/// then replacing that player's view.
pub broadcast proof fn lemma_players_update(s: Seq<Player>, i: int, x: Player)
    requires
        0 <= i < s.len(),
    ensures
        #[trigger] players_view(s.update(i, x)) == players_view(s).update(i, x@),
{
    assert(players_view(s.update(i, x)) =~= players_view(s).update(i, x@));
}

/// The number of seats at the table.
pub const PLAYER_COUNT: u8 = 10;

/// The roles dealt in a game: one Don, two Mafia, one Sheriff, six Citizens.
pub open spec fn initial_roles() -> Seq<Role> {
    seq![
        Role::Don,
        Role::Mafia,
        Role::Mafia,
        Role::Sheriff,
        Role::Citizen,
        Role::Citizen,
        Role::Citizen,
        Role::Citizen,
        Role::Citizen,
        Role::Citizen,
    ]
}

/// Seats 1 to 10.
pub open spec fn initial_positions() -> Seq<Position> {
    Seq::new(PLAYER_COUNT as nat, |i: int| Position((i + 1) as u8))
}

/// A game before anybody joined.
pub open spec fn fresh_game() -> GameView {
    GameView {
        players: Seq::empty(),
        voting: Map::empty(),
        tie_voting: Map::empty(),
        final_voting: Map::empty(),
        check: Map::empty(),
        kill: Map::empty(),
        guess: Seq::empty(),
        eliminated: Map::empty(),
        roles_pool: initial_roles(),
        positions_pool: initial_positions(),
    }
}

/// Whether a player sits at `pos`.
pub open spec fn sits_at(pos: Position) -> spec_fn(PlayerView) -> bool {
    |p: PlayerView| p.position == Some(pos)
}

/// Whether a player is called `name`.
pub open spec fn is_named(name: Seq<char>) -> spec_fn(PlayerView) -> bool {
    |p: PlayerView| p.name == name
}

/// Whether a player holds `role`.
pub open spec fn holds_role(role: Role) -> spec_fn(PlayerView) -> bool {
    |p: PlayerView| p.role == Some(role)
}

/// The index of the first player sitting at `pos`.
pub open spec fn index_at(players: Seq<PlayerView>, pos: Position) -> Option<int> {
    first_match(players, sits_at(pos))
}

/// The index of the first player called `name`.
pub open spec fn index_named(players: Seq<PlayerView>, name: Seq<char>) -> Option<int> {
    first_match(players, is_named(name))
}

/// The index of the first player holding `role`.
pub open spec fn index_with_role(players: Seq<PlayerView>, role: Role) -> Option<int> {
    first_match(players, holds_role(role))
}

/// The number of players alive.
pub open spec fn alive_count(players: Seq<PlayerView>) -> nat
    decreases players.len(),
{
    if players.len() == 0 {
        0
    } else {
        alive_count(players.drop_last()) + if players.last().status == Status::Alive {
            1nat
        } else {
            0nat
        }
    }
}

/// The seats of the players alive, in player order.
pub open spec fn alive_seats(players: Seq<PlayerView>) -> Seq<Position>
    decreases players.len(),
{
    if players.len() == 0 {
        Seq::empty()
    } else {
        let rest = alive_seats(players.drop_last());
        let p = players.last();
        if p.status == Status::Alive && p.position is Some {
            rest.push(p.position.unwrap())
        } else {
            rest
        }
    }
}

/// The seats taken by players, in player order.
pub open spec fn seats_taken(players: Seq<PlayerView>) -> Seq<Position>
    decreases players.len(),
{
    if players.len() == 0 {
        Seq::empty()
    } else {
        let rest = seats_taken(players.drop_last());
        match players.last().position {
            Some(p) => rest.push(p),
            None => rest,
        }
    }
}

/// The sort key of a seat: its number.
pub open spec fn seat_key(p: Position) -> nat {
    p.0 as nat
}

/// The sort key of a player: unseated players first, then by seat number.
pub open spec fn player_key(p: PlayerView) -> nat {
    match p.position {
        None => 0,
        Some(q) => q.0 as nat + 1,
    }
}

/// The seats taken, in increasing seat order: the order of turns at the table.
pub open spec fn turn_order(players: Seq<PlayerView>) -> Seq<Position> {
    bucket_concat(seats_taken(players), |p: Position| seat_key(p), 256)
}

/// An [`Eligibility`] with its list of seats seen as a sequence.
pub enum Criterion {
    WithoutRole,
    Sheriff,
    Don,
    Killed(Position),
    Alive,
    EliminatedAmong(Seq<Position>),
}

impl View for Eligibility {
    type V = Criterion;

    open spec fn view(&self) -> Criterion {
        match *self {
            Eligibility::WithoutRole => Criterion::WithoutRole,
            Eligibility::Sheriff => Criterion::Sheriff,
            Eligibility::Don => Criterion::Don,
            Eligibility::Killed(k) => Criterion::Killed(k),
            Eligibility::Alive => Criterion::Alive,
            Eligibility::EliminatedAmong(list) => Criterion::EliminatedAmong(list@),
        }
    }
}

/// Whether a player satisfies a criterion.
pub open spec fn criterion_holds(c: Criterion, p: PlayerView, pos: Position) -> bool {
    match c {
        Criterion::WithoutRole => p.role is None,
        Criterion::Sheriff => p.role == Some(Role::Sheriff),
        Criterion::Don => p.role == Some(Role::Don),
        Criterion::Killed(k) => (p.status == Status::Dead || p.status == Status::Eliminated) && k
            == pos,
        Criterion::Alive => p.status == Status::Alive,
        Criterion::EliminatedAmong(list) => p.status == Status::Eliminated && list.contains(pos),
    }
}

/// Whether the player at `pos` may act under criterion `c`; an empty seat may not.
pub open spec fn eligible_at(players: Seq<PlayerView>, c: Criterion, pos: Position) -> bool {
    match index_at(players, pos) {
        Some(i) => criterion_holds(c, players[i], pos),
        None => false,
    }
}

/// One step of a turn around the table under criterion `c`.
pub open spec fn table_turn_step(players: Seq<PlayerView>, c: Criterion, a: ActorView) -> (
    ActorView,
    Option<Position>,
) {
    let order = turn_order(players);
    cycle_step(
        order,
        Seq::new(order.len(), |k: int| eligible_at(players, c, order[k])),
        eligible_at(players, c, a.start),
        a,
    )
}

/// The players after the first player at each of `ns` in turn is eliminated.
pub open spec fn eliminate_all(players: Seq<PlayerView>, ns: Seq<Position>) -> Seq<PlayerView>
    decreases ns.len(),
{
    if ns.len() == 0 {
        players
    } else {
        let ps = eliminate_all(players, ns.drop_last());
        let i = index_at(ps, ns.last()).unwrap();
        ps.update(i, PlayerView { status: Status::Eliminated, ..ps[i] })
    }
}

/// The game after the players at `ns` are eliminated on `day`: recorded for
/// the day, and their status changed.
pub open spec fn eliminated_game(g: GameView, day: usize, ns: Seq<Position>) -> GameView {
    GameView {
        players: eliminate_all(g.players, ns),
        eliminated: g.eliminated.insert(day, eliminated_of_day(g, day) + ns),
        ..g
    }
}

/// Whether every seat in `ns` has a player.
pub open spec fn all_seated(players: Seq<PlayerView>, ns: Seq<Position>) -> bool {
    forall|k: int| 0 <= k < ns.len() ==> index_at(players, #[trigger] ns[k]) is Some
}

/// Whether two lists of players have the same length and the same seats, index by index.
pub open spec fn same_seats(a: Seq<PlayerView>, b: Seq<PlayerView>) -> bool {
    a.len() == b.len() && forall|j: int| 0 <= j < a.len() ==> (#[trigger] a[j]).position == b[j].position
}

/// Players with the same seats are found at the same indices.
pub proof fn lemma_same_seats_index_at(a: Seq<PlayerView>, b: Seq<PlayerView>, pos: Position)
    requires
        same_seats(a, b),
    ensures
        index_at(a, pos) == index_at(b, pos),
{
    let f = sits_at(pos);
    assert forall|j: int| 0 <= j < a.len() implies f(#[trigger] a[j]) == f(b[j]) by {}
    crate::seqs::lemma_first_match_agree(a, b, f);
}

/// Whether two lists of players hold the same people in the same seats
/// with the same roles, index by index.
pub open spec fn same_table(a: Seq<PlayerView>, b: Seq<PlayerView>) -> bool {
    &&& a.len() == b.len()
    &&& forall|j: int|
        0 <= j < a.len() ==> (#[trigger] a[j]).position == b[j].position && a[j].role == b[j].role
            && a[j].name == b[j].name
}

/// Eliminating players keeps everybody in their seat, with their name and role.
pub proof fn lemma_eliminate_all_same_seats(players: Seq<PlayerView>, ns: Seq<Position>)
    requires
        all_seated(players, ns),
    ensures
        same_seats(eliminate_all(players, ns), players),
        same_table(eliminate_all(players, ns), players),
    decreases ns.len(),
{
    if ns.len() > 0 {
        let rest = ns.drop_last();
        assert forall|k: int| 0 <= k < rest.len() implies index_at(players, #[trigger] rest[k]) is Some by {
            assert(rest[k] == ns[k]);
        }
        lemma_eliminate_all_same_seats(players, rest);
        let ps = eliminate_all(players, rest);
        lemma_same_seats_index_at(ps, players, ns.last());
        assert(index_at(players, ns[ns.len() - 1]) is Some);
        crate::seqs::lemma_first_match(ps, sits_at(ns.last()));
        let i = index_at(ps, ns.last()).unwrap();
        let ps2 = ps.update(i, PlayerView { status: Status::Eliminated, ..ps[i] });
        assert(eliminate_all(players, ns) == ps2);
        assert forall|j: int| 0 <= j < ps2.len() implies (#[trigger] ps2[j]).position == players[j].position
            && ps2[j].role == players[j].role && ps2[j].name == players[j].name by {
            assert(ps[j].position == players[j].position);
        }
    }
}

/// Every voting round of a game is consistent.
pub open spec fn game_wf(g: GameView) -> bool {
    &&& forall|d: usize| #[trigger] g.voting.contains_key(d) ==> voting_wf(g.voting[d])
    &&& forall|d: usize| #[trigger] g.tie_voting.contains_key(d) ==> voting_wf(g.tie_voting[d])
}

} // verus!

verus! {

proof fn lemma_players_view_push(ps: Seq<Player>, p: Player)
    ensures
        players_view(ps.push(p)) == players_view(ps).push(p@),
{
    assert(players_view(ps.push(p)) =~= players_view(ps).push(p@));
}

impl Game {
    /// A consistent game.
    pub open spec fn wf(&self) -> bool {
        game_wf(self@)
    }

    pub fn new() -> (g: Game)
        ensures
            g@ == fresh_game(),
            g.wf(),
    {
        let mut positions_pool: Vec<Position> = Vec::new();
        let mut pos: u8 = 1;
        while pos <= PLAYER_COUNT
            invariant
                1 <= pos <= PLAYER_COUNT + 1,
                positions_pool@ == initial_positions().take(pos - 1),
            decreases PLAYER_COUNT + 1 - pos,
        {
            positions_pool.push(Position::new(pos));
            assert(initial_positions().take(pos as int) =~= initial_positions().take(pos - 1).push(
                Position(pos),
            ));
            pos = pos + 1;
        }
        assert(initial_positions().take(PLAYER_COUNT as int) =~= initial_positions());
        let roles_pool = vec![
            Role::Don,
            Role::Mafia,
            Role::Mafia,
            Role::Sheriff,
            Role::Citizen,
            Role::Citizen,
            Role::Citizen,
            Role::Citizen,
            Role::Citizen,
            Role::Citizen,
        ];
        let g = Game {
            players: Vec::new(),
            voting: HashMap::new(),
            tie_voting: HashMap::new(),
            final_voting: HashMap::new(),
            check: HashMap::new(),
            kill: HashMap::new(),
            guess: Vec::new(),
            eliminated: HashMap::new(),
            roles_pool,
            positions_pool,
        };
        assert(g@.players =~= Seq::<PlayerView>::empty());
        assert(g@.voting =~= Map::<usize, VotingView>::empty());
        assert(g@.tie_voting =~= Map::<usize, VotingView>::empty());
        assert(g@.final_voting =~= Map::<usize, Seq<Position>>::empty());
        assert(g@.check =~= Map::<usize, CheckView>::empty());
        assert(g@.eliminated =~= Map::<usize, Seq<Position>>::empty());
        assert(g@.roles_pool =~= initial_roles());
        g
    }

    // ---------------- Players ----------------
    /// The index of the first player sitting at `position`.
    pub fn index_by_position(&self, position: Position) -> (r: Option<usize>)
        ensures
            r matches Some(i) ==> index_at(self@.players, position) == Some(i as int),
            r matches Some(i) ==> i < self@.players.len(),
            r is None ==> index_at(self@.players, position) is None,
    {
        let ghost f = sits_at(position);
        let mut i: usize = 0;
        while i < self.players.len()
            invariant
                0 <= i <= self.players.len(),
                self@.players.len() == self.players.len(),
                forall|j: int| 0 <= j < i ==> !f(#[trigger] self@.players[j]),
                f == sits_at(position),
            decreases self.players.len() - i,
        {
            if self.players[i].position() == Some(position) {
                proof {
                    lemma_first_match_at(self@.players, f, i as int);
                }
                return Some(i);
            }
            i = i + 1;
        }
        proof {
            lemma_first_match(self@.players, f);
            if index_at(self@.players, position) is Some {
                let k = index_at(self@.players, position).unwrap();
                assert(f(self@.players[k]));
            }
        }
        None
    }

    /// The index of the first player called `name`.
    pub fn index_by_name(&self, name: &String) -> (r: Option<usize>)
        ensures
            r matches Some(i) ==> index_named(self@.players, name@) == Some(i as int),
            r matches Some(i) ==> i < self@.players.len(),
            r is None ==> index_named(self@.players, name@) is None,
    {
        let ghost f = is_named(name@);
        let mut i: usize = 0;
        while i < self.players.len()
            invariant
                0 <= i <= self.players.len(),
                self@.players.len() == self.players.len(),
                forall|j: int| 0 <= j < i ==> !f(#[trigger] self@.players[j]),
                f == is_named(name@),
            decreases self.players.len() - i,
        {
            if *self.players[i].name() == *name {
                proof {
                    lemma_first_match_at(self@.players, f, i as int);
                }
                return Some(i);
            }
            i = i + 1;
        }
        proof {
            lemma_first_match(self@.players, f);
            if index_named(self@.players, name@) is Some {
                let k = index_named(self@.players, name@).unwrap();
                assert(f(self@.players[k]));
            }
        }
        None
    }

    /// The index of the first player holding `role`.
    fn index_by_role(&self, role: Role) -> (r: Option<usize>)
        ensures
            r matches Some(i) ==> index_with_role(self@.players, role) == Some(i as int),
            r matches Some(i) ==> i < self@.players.len(),
            r is None ==> index_with_role(self@.players, role) is None,
    {
        let ghost f = holds_role(role);
        let mut i: usize = 0;
        while i < self.players.len()
            invariant
                0 <= i <= self.players.len(),
                self@.players.len() == self.players.len(),
                forall|j: int| 0 <= j < i ==> !f(#[trigger] self@.players[j]),
                f == holds_role(role),
            decreases self.players.len() - i,
        {
            if self.players[i].role() == Some(role) {
                proof {
                    lemma_first_match_at(self@.players, f, i as int);
                }
                return Some(i);
            }
            i = i + 1;
        }
        proof {
            lemma_first_match(self@.players, f);
            if index_with_role(self@.players, role) is Some {
                let k = index_with_role(self@.players, role).unwrap();
                assert(f(self@.players[k]));
            }
        }
        None
    }

    /// Adds a player by name; names must be non-empty and unique, and the
    /// table holds at most ten players.
    pub fn add_player(&mut self, name: &str) -> (r: Result<Vec<Event>, Error>)
        requires
            old(self).wf(),
        ensures
            final(self).wf(),
            name@.len() == 0 ==> (r matches Err(Error::PlayerNameIsEmpty)) && final(self)@ == old(
                self,
            )@,
            name@.len() > 0 && index_named(old(self)@.players, name@) is Some ==> (r matches Err(
                Error::PlayerByNameAlreadyExist(n),
            ) && n@ == name@) && final(self)@ == old(self)@,
            name@.len() > 0 && index_named(old(self)@.players, name@) is None && old(
                self,
            )@.players.len() >= PLAYER_COUNT ==> (r matches Err(
                Error::Player(player::Error::HasPosition),
            )) && final(self)@ == old(self)@,
            name@.len() > 0 && index_named(old(self)@.players, name@) is None && old(
                self,
            )@.players.len() < PLAYER_COUNT ==> (r matches Ok(events) && events.len() == 1 && (
            events[0] matches Event::PlayerJoin { name: n } && n@ == name@)) && final(self)@ == (
            GameView { players: old(self)@.players.push(fresh_player(name@)), ..old(self)@ }),
            match add_player_error(old(self)@, name@) {
                Some(err) => r matches Err(e) && e@ == err,
                None => r is Ok,
            },
    {
        if name.is_empty() {
            return Err(Error::PlayerNameIsEmpty);
        }
        let owned: String = name.to_owned();
        if self.index_by_name(&owned).is_some() {
            return Err(Error::PlayerByNameAlreadyExist(owned));
        }
        if self.players.len() >= PLAYER_COUNT as usize {
            return Err(Error::Player(player::Error::HasPosition));
        }
        let p = Player::new(name.to_owned());
        proof {
            lemma_players_view_push(self.players@, p);
        }
        self.players.push(p);
        Ok(vec![Event::PlayerJoin { name: owned }])
    }

    /// Removes the first player called `name`.
    pub fn remove_player(&mut self, name: &str) -> (r: Result<Vec<Event>, Error>)
        requires
            old(self).wf(),
        ensures
            final(self).wf(),
            index_named(old(self)@.players, name@) matches Some(i) ==> (r matches Ok(events)
                && events.len() == 1 && (events[0] matches Event::PlayerLeft { name: n } && n@
                == name@)) && final(self)@ == (GameView {
                players: old(self)@.players.remove(i),
                ..old(self)@
            }),
            index_named(old(self)@.players, name@) is None ==> (r matches Err(
                Error::PlayerByNameNotFound(n),
            ) && n@ == name@) && final(self)@ == old(self)@,
    {
        let owned: String = name.to_owned();
        match self.index_by_name(&owned) {
            Some(i) => {
                let ghost before = self.players@;
                self.players.remove(i);
                assert(players_view(self.players@) =~= players_view(before).remove(i as int));
                assert(self@.voting == old(self)@.voting);
                assert(self@.tie_voting == old(self)@.tie_voting);
                Ok(vec![Event::PlayerLeft { name: owned }])
            },
            None => Err(Error::PlayerByNameNotFound(owned)),
        }
    }

    pub fn players(&self) -> (s: &[Player])
        ensures
            players_view(s@) == self@.players,
    {
        self.players.as_slice()
    }

    /// The players, to be changed in place.
    pub fn players_mut(&mut self) -> (s: &mut [Player])
        ensures
            players_view(s@) == old(self)@.players,
            final(self)@ == (GameView { players: players_view(final(s)@), ..old(self)@ }),
    {
        self.players.as_mut_slice()
    }

    /// The first player sitting at `position`, to be changed in place.
    pub fn player_by_position_mut(&mut self, position: Position) -> (r: Option<&mut Player>)
        ensures
            match index_at(old(self)@.players, position) {
                None => r is None && final(self)@ == old(self)@,
                Some(i) => r is Some && r.unwrap()@ == old(self)@.players[i] && final(self)@ == (GameView {
                    players: old(self)@.players.update(i, final(r.unwrap())@),
                    ..old(self)@
                }),
            },
    {
        match self.index_by_position(position) {
            Some(i) => {
                proof {
                    broadcast use lemma_players_update;
                }
                Some(&mut self.players[i])
            },
            None => None,
        }
    }

    /// The first player called `name`, to be changed in place.
    pub fn player_by_name_mut(&mut self, name: &str) -> (r: Option<&mut Player>)
        ensures
            match index_named(old(self)@.players, name@) {
                None => r is None && final(self)@ == old(self)@,
                Some(i) => r is Some && r.unwrap()@ == old(self)@.players[i] && final(self)@ == (GameView {
                    players: old(self)@.players.update(i, final(r.unwrap())@),
                    ..old(self)@
                }),
            },
    {
        let owned = name.to_string();
        match self.index_by_name(&owned) {
            Some(i) => {
                proof {
                    broadcast use lemma_players_update;
                }
                Some(&mut self.players[i])
            },
            None => None,
        }
    }

    pub fn player_count(&self) -> (n: usize)
        ensures
            n == self@.players.len(),
    {
        self.players.len()
    }

    /// The player at index `i`.
    pub fn player_at(&self, i: usize) -> (p: &Player)
        requires
            i < self@.players.len(),
        ensures
            p@ == self@.players[i as int],
    {
        &self.players[i]
    }

    /// The number of players alive.
    pub fn alive_players(&self) -> (n: usize)
        ensures
            n == alive_count(self@.players),
    {
        let mut c: usize = 0;
        let mut i: usize = 0;
        while i < self.players.len()
            invariant
                0 <= i <= self.players.len(),
                self@.players.len() == self.players.len(),
                c == alive_count(self@.players.take(i as int)),
                c <= i,
            decreases self.players.len() - i,
        {
            assert(self@.players.take(i + 1).drop_last() =~= self@.players.take(i as int));
            if self.players[i].is_alive() {
                c = c + 1;
            }
            i = i + 1;
        }
        assert(self@.players.take(i as int) =~= self@.players);
        c
    }

    /// The seats of the players alive, in player order.
    pub fn alive_positions(&self) -> (v: Vec<Position>)
        ensures
            v@ == alive_seats(self@.players),
    {
        let mut v: Vec<Position> = Vec::new();
        let mut i: usize = 0;
        while i < self.players.len()
            invariant
                0 <= i <= self.players.len(),
                self@.players.len() == self.players.len(),
                v@ == alive_seats(self@.players.take(i as int)),
            decreases self.players.len() - i,
        {
            assert(self@.players.take(i + 1).drop_last() =~= self@.players.take(i as int));
            let p = &self.players[i];
            if p.is_alive() {
                match p.position() {
                    Some(q) => v.push(q),
                    None => {},
                }
            }
            i = i + 1;
        }
        assert(self@.players.take(i as int) =~= self@.players);
        v
    }

    pub fn player_by_position(&self, position: Position) -> (r: Option<&Player>)
        ensures
            match index_at(self@.players, position) {
                Some(i) => r matches Some(p) && p@ == self@.players[i],
                None => r is None,
            },
    {
        match self.index_by_position(position) {
            Some(i) => Some(&self.players[i]),
            None => None,
        }
    }

    pub fn player_by_name(&self, name: &str) -> (r: Option<&Player>)
        ensures
            match index_named(self@.players, name@) {
                Some(i) => r matches Some(p) && p@ == self@.players[i],
                None => r is None,
            },
    {
        let owned: String = name.to_owned();
        match self.index_by_name(&owned) {
            Some(i) => Some(&self.players[i]),
            None => None,
        }
    }

    pub fn sheriff(&self) -> (r: Option<&Player>)
        ensures
            match index_with_role(self@.players, Role::Sheriff) {
                Some(i) => r matches Some(p) && p@ == self@.players[i],
                None => r is None,
            },
    {
        match self.index_by_role(Role::Sheriff) {
            Some(i) => Some(&self.players[i]),
            None => None,
        }
    }

    pub fn don(&self) -> (r: Option<&Player>)
        ensures
            match index_with_role(self@.players, Role::Don) {
                Some(i) => r matches Some(p) && p@ == self@.players[i],
                None => r is None,
            },
    {
        match self.index_by_role(Role::Don) {
            Some(i) => Some(&self.players[i]),
            None => None,
        }
    }

    // ---------------- Player changes ----------------
    fn replace_player(&mut self, i: usize, p: Player) -> (prev: Player)
        requires
            i < old(self)@.players.len(),
        ensures
            prev@ == old(self)@.players[i as int],
            final(self)@ == (GameView { players: old(self)@.players.update(i as int, p@), ..old(self)@ }),
    {
        let ghost before = self.players@;
        let prev = self.players.remove(i);
        self.players.insert(i, p);
        assert(players_view(self.players@) =~= players_view(before).update(i as int, p@));
        prev
    }

    /// Applies a change to the player at index `i`.
    pub fn apply_to_player(&mut self, i: usize, op: PlayerOp) -> (r: Result<Vec<player::Event>, player::Error>)
        requires
            i < old(self)@.players.len(),
            op_defined(op, old(self)@.players[i as int]),
        ensures
            final(self)@ == (GameView {
                players: old(self)@.players.update(i as int, op_outcome(op, old(self)@.players[i as int]).0),
                ..old(self)@
            }),
            result_view(r) == op_outcome(op, old(self)@.players[i as int]).1,
            old(self).wf() ==> final(self).wf(),
    {
        let mut p = self.replace_player(i, Player::empty());
        let r = match op {
            PlayerOp::AssignPosition(pos) => p.assign_position(pos),
            PlayerOp::RevokePosition => Ok(p.revoke_position()),
            PlayerOp::AssignRole(role) => p.assign_role(role),
            PlayerOp::RevokeRole => Ok(p.revoke_role()),
            PlayerOp::Warn => p.warn(),
            PlayerOp::Pardon => p.pardon(),
            PlayerOp::MarkDead => Ok(p.mark_dead()),
            PlayerOp::MarkEliminated => Ok(p.mark_eliminated()),
        };
        self.replace_player(i, p);
        proof {
            assert(self@.players =~= old(self)@.players.update(i as int, op_outcome(op, old(self)@.players[i as int]).0));
        }
        r
    }

    /// Sorts the players by seat, unseated players first, keeping the order
    /// of players with the same key.
    pub fn sort_players_by_position(&mut self)
        ensures
            final(self)@ == (GameView {
                players: bucket_concat(old(self)@.players, |p: PlayerView| player_key(p), 257),
                ..old(self)@
            }),
            old(self).wf() ==> final(self).wf(),
    {
        let ghost views = self@.players;
        let ghost key = |p: PlayerView| player_key(p);
        let mut sorted: Vec<Player> = Vec::new();
        let mut k: u16 = 0;
        while k < 257
            invariant
                0 <= k <= 257,
                views == self@.players,
                key == (|p: PlayerView| player_key(p)),
                players_view(sorted@) == bucket_concat(views, key, k as nat),
            decreases 257 - k,
        {
            let mut i: usize = 0;
            let ghost bucket = |x: PlayerView| key(x) == k as nat;
            assert(views.take(0) =~= Seq::<PlayerView>::empty());
            proof {
                reveal(Seq::filter);
            }
            while i < self.players.len()
                invariant
                    0 <= i <= self.players.len(),
                    views == self@.players,
                    views.len() == self.players.len(),
                    key == (|p: PlayerView| player_key(p)),
                    bucket == (|x: PlayerView| key(x) == k as nat),
                    players_view(sorted@) == bucket_concat(views, key, k as nat) + views.take(
                        i as int,
                    ).filter(bucket),
                decreases self.players.len() - i,
            {
                let p = &self.players[i];
                let pk: u16 = match p.position() {
                    None => 0,
                    Some(q) => q.0 as u16 + 1,
                };
                proof {
                    assert(views.take(i + 1) =~= views.take(i as int).push(views[i as int]));
                    views.take(i as int).lemma_filter_push(views[i as int], bucket);
                    assert(bucket(views[i as int]) == (pk == k));
                }
                if pk == k {
                    let d = p.duplicate();
                    proof {
                        lemma_players_view_push(sorted@, d);
                    }
                    sorted.push(d);
                    assert(players_view(sorted@) =~= bucket_concat(views, key, k as nat) + views.take(i + 1).filter(bucket));
                }
                i = i + 1;
            }
            assert(views.take(views.len() as int) =~= views);
            assert(bucket_concat(views, key, (k + 1) as nat) == bucket_concat(views, key, k as nat) + views.filter(bucket));
            k = k + 1;
        }
        self.players = sorted;
        assert(self@.voting == old(self)@.voting);
        assert(self@.tie_voting == old(self)@.tie_voting);
    }
}

/// A change made to one player.
#[derive(Debug, Clone, Copy)]
pub enum PlayerOp {
    AssignPosition(Position),
    RevokePosition,
    AssignRole(Role),
    RevokeRole,
    Warn,
    Pardon,
    MarkDead,
    MarkEliminated,
}

/// The view of a player operation's result.
pub open spec fn result_view(r: Result<Vec<player::Event>, player::Error>) -> Result<
    Seq<player::EventView>,
    player::Error,
> {
    match r {
        Ok(events) => Ok(player::events_view(events@)),
        Err(e) => Err(e),
    }
}

/// Whether a change can be made to a player without a missing seat.
pub open spec fn op_defined(op: PlayerOp, v: PlayerView) -> bool {
    match op {
        PlayerOp::AssignRole(_) => v.role is None ==> v.position is Some,
        PlayerOp::RevokeRole => v.role is Some ==> v.position is Some,
        PlayerOp::Warn => v.status != Status::Removed ==> v.position is Some && v.warnings < 255,
        PlayerOp::Pardon => v.warnings > 0 ==> v.position is Some,
        PlayerOp::MarkDead => v.position is Some,
        PlayerOp::MarkEliminated => v.position is Some,
        _ => true,
    }
}

/// The player after a change, and what the change reports.
pub open spec fn op_outcome(op: PlayerOp, v: PlayerView) -> (PlayerView, Result<
    Seq<player::EventView>,
    player::Error,
>) {
    match op {
        PlayerOp::AssignPosition(pos) => if v.position is Some {
            (v, Err(player::Error::HasPosition))
        } else {
            (
                PlayerView { position: Some(pos), ..v },
                Ok(seq![player::EventView::PositionAssigned { name: v.name, position: pos }]),
            )
        },
        PlayerOp::RevokePosition => (
            PlayerView { position: None, ..v },
            Ok(
                match v.position {
                    Some(p) => seq![player::EventView::PositionRevoked { name: v.name, position: p }],
                    None => Seq::empty(),
                },
            ),
        ),
        PlayerOp::AssignRole(role) => if v.role is Some {
            (v, Err(player::Error::HasRole))
        } else {
            (
                PlayerView { role: Some(role), ..v },
                Ok(
                    seq![
                        player::EventView::RoleAssigned {
                            name: v.name,
                            position: v.position.unwrap(),
                            role,
                        },
                    ],
                ),
            )
        },
        PlayerOp::RevokeRole => (
            PlayerView { role: None, ..v },
            Ok(
                match v.role {
                    Some(r) => seq![
                        player::EventView::RoleRevoked {
                            name: v.name,
                            position: v.position.unwrap(),
                            role: r,
                        },
                    ],
                    None => Seq::empty(),
                },
            ),
        ),
        PlayerOp::Warn => if v.status == Status::Removed {
            (v, Err(player::Error::MaxWarningsReached))
        } else {
            (player::warned(v), Ok(player::warned_events(v)))
        },
        PlayerOp::Pardon => if v.warnings == 0 {
            (v, Err(player::Error::NoWarnings))
        } else {
            (player::pardoned(v), Ok(player::pardoned_events(v)))
        },
        PlayerOp::MarkDead => (
            PlayerView { status: Status::Dead, ..v },
            Ok(seq![player::EventView::Died { name: v.name, position: v.position.unwrap() }]),
        ),
        PlayerOp::MarkEliminated => (
            PlayerView { status: Status::Eliminated, ..v },
            Ok(seq![player::EventView::Eliminated { name: v.name, position: v.position.unwrap() }]),
        ),
    }
}


/// The check of a day so far.
pub open spec fn check_of_day(g: GameView, day: usize) -> CheckView {
    if g.check.contains_key(day) {
        g.check[day]
    } else {
        CheckView { sheriff: None, don: None }
    }
}

/// The final votes of a day so far.
pub open spec fn final_votes_of_day(g: GameView, day: usize) -> Seq<Position> {
    if g.final_voting.contains_key(day) {
        g.final_voting[day]
    } else {
        Seq::empty()
    }
}

/// The players eliminated on a day so far.
pub open spec fn eliminated_of_day(g: GameView, day: usize) -> Seq<Position> {
    if g.eliminated.contains_key(day) {
        g.eliminated[day]
    } else {
        Seq::empty()
    }
}

/// The main voting round of a day: a fresh round open to the players alive
/// when the day has none yet.
pub open spec fn voting_of_day(g: GameView, day: usize) -> VotingView {
    if g.voting.contains_key(day) {
        g.voting[day]
    } else {
        fresh_voting(Seq::empty(), alive_seats(g.players))
    }
}

/// The tie voting round of a day, likewise.
pub open spec fn tie_voting_of_day(g: GameView, day: usize) -> VotingView {
    if g.tie_voting.contains_key(day) {
        g.tie_voting[day]
    } else {
        fresh_voting(Seq::empty(), alive_seats(g.players))
    }
}

/// Whether a role is `x`.
pub open spec fn is_role(x: Role) -> spec_fn(Role) -> bool {
    |r: Role| r == x
}

/// Whether a seat is `x`.
pub open spec fn is_seat(x: Position) -> spec_fn(Position) -> bool {
    |p: Position| p == x
}

/// The first index of `x` in a list of roles.
pub open spec fn role_index(s: Seq<Role>, x: Role) -> Option<int> {
    first_match(s, is_role(x))
}

/// The first index of `x` in a list of seats.
pub open spec fn seat_index(s: Seq<Position>, x: Position) -> Option<int> {
    first_match(s, is_seat(x))
}

impl Game {
    // ---------------- Checks ----------------
    /// Records the Sheriff's check of the night of `day`.
    pub fn record_sheriff_check(&mut self, day: DayIndex, checked: Position) -> (r: Result<Vec<Event>, Error>)
        requires
            old(self).wf(),
        ensures
            final(self).wf(),
            check_of_day(old(self)@, day.0).sheriff is Some ==> (r matches Err(
                Error::Check(check::Error::SheriffAlreadyChecked),
            )) && final(self)@ == old(self)@,
            check_of_day(old(self)@, day.0).sheriff is None ==> (r matches Ok(events) && events.len()
                == 1 && (events[0] matches Event::Check(e) && e == check::Event::SheriffChecked {
                chair: checked,
            })) && final(self)@ == (GameView {
                check: old(self)@.check.insert(
                    day.0,
                    CheckView { sheriff: Some(checked), ..check_of_day(old(self)@, day.0) },
                ),
                ..old(self)@
            }),
    {
        let mut c = match self.check.remove(&day.0) {
            Some(c) => c,
            None => Check::new(),
        };
        let r = c.record_sheriff_check(checked);
        self.check.insert(day.0, c);
        proof {
            if old(self)@.check.contains_key(day.0) {
                assert(self@.check =~= old(self)@.check.insert(day.0, c@));
            }
        }
        match r {
            Ok(events) => {
                assert(self@.check =~= old(self)@.check.insert(day.0, c@));
                Ok(vec![Event::Check(events[0])])
            },
            Err(e) => {
                assert(self@.check =~= old(self)@.check);
                Err(Error::Check(e))
            },
        }
    }

    /// Records the Don's check of the night of `day`.
    pub fn record_don_check(&mut self, day: DayIndex, checked: Position) -> (r: Result<Vec<Event>, Error>)
        requires
            old(self).wf(),
        ensures
            final(self).wf(),
            check_of_day(old(self)@, day.0).don is Some ==> (r matches Err(
                Error::Check(check::Error::DonAlreadyChecked),
            )) && final(self)@ == old(self)@,
            check_of_day(old(self)@, day.0).don is None ==> (r matches Ok(events) && events.len()
                == 1 && (events[0] matches Event::Check(e) && e == check::Event::DonChecked {
                chair: checked,
            })) && final(self)@ == (GameView {
                check: old(self)@.check.insert(
                    day.0,
                    CheckView { don: Some(checked), ..check_of_day(old(self)@, day.0) },
                ),
                ..old(self)@
            }),
    {
        let mut c = match self.check.remove(&day.0) {
            Some(c) => c,
            None => Check::new(),
        };
        let r = c.record_don_check(checked);
        self.check.insert(day.0, c);
        match r {
            Ok(events) => {
                assert(self@.check =~= old(self)@.check.insert(day.0, c@));
                Ok(vec![Event::Check(events[0])])
            },
            Err(e) => {
                assert(self@.check =~= old(self)@.check);
                Err(Error::Check(e))
            },
        }
    }

    /// Records the Mafia's shot of `day`; only the first shot of a day counts.
    pub fn record_mafia_kill(&mut self, day: DayIndex, killed: Position) -> (events: Vec<Event>)
        requires
            old(self).wf(),
        ensures
            final(self).wf(),
            final(self)@ == (GameView {
                kill: if old(self)@.kill.contains_key(day.0) {
                    old(self)@.kill
                } else {
                    old(self)@.kill.insert(day.0, killed)
                },
                ..old(self)@
            }),
            events.len() == 1,
            events[0] matches Event::MafiaKill { position } && position == killed,
    {
        if !self.kill.contains_key(&day.0) {
            self.kill.insert(day.0, killed);
        }
        assert(self@.voting == old(self)@.voting);
        vec![Event::MafiaKill { position: killed }]
    }

    /// Records the players eliminated on `day`.
    pub fn record_eliminated(&mut self, day: DayIndex, eliminated: &[Position]) -> (events: Vec<Event>)
        requires
            old(self).wf(),
        ensures
            final(self).wf(),
            final(self)@ == (GameView {
                eliminated: old(self)@.eliminated.insert(
                    day.0,
                    eliminated_of_day(old(self)@, day.0) + eliminated@,
                ),
                ..old(self)@
            }),
            events.len() == 1,
            events[0] matches Event::Eliminated { day: d, positions } && d == day && positions@
                == eliminated@,
    {
        let mut list = match self.eliminated.remove(&day.0) {
            Some(l) => l,
            None => Vec::new(),
        };
        let ghost before = list@;
        let mut i: usize = 0;
        while i < eliminated.len()
            invariant
                0 <= i <= eliminated.len(),
                list@ == before + eliminated@.take(i as int),
            decreases eliminated.len() - i,
        {
            list.push(eliminated[i]);
            assert(eliminated@.take(i + 1) =~= eliminated@.take(i as int).push(eliminated@[i as int]));
            i = i + 1;
        }
        assert(eliminated@.take(eliminated@.len() as int) =~= eliminated@);
        self.eliminated.insert(day.0, list);
        assert(self@.eliminated =~= old(self)@.eliminated.insert(
            day.0,
            eliminated_of_day(old(self)@, day.0) + eliminated@,
        ));
        assert(self@.voting == old(self)@.voting);
        vec![Event::Eliminated { day, positions: voting::copy_positions(eliminated) }]
    }

    /// Whether every seat in `seats` has a player.
    pub fn seats_all_taken(&self, seats: &[Position]) -> (b: bool)
        ensures
            b == all_seated(self@.players, seats@),
    {
        let mut k: usize = 0;
        while k < seats.len()
            invariant
                0 <= k <= seats.len(),
                forall|j: int| 0 <= j < k ==> index_at(self@.players, #[trigger] seats@[j]) is Some,
            decreases seats.len() - k,
        {
            if self.index_by_position(seats[k]).is_none() {
                return false;
            }
            k = k + 1;
        }
        true
    }

    /// Eliminates the players seated at `nominees` on `day`: they are
    /// recorded as the day's eliminated and leave the game.
    pub fn eliminate(&mut self, day: DayIndex, nominees: &[Position])
        requires
            old(self).wf(),
            all_seated(old(self)@.players, nominees@),
        ensures
            final(self).wf(),
            final(self)@ == eliminated_game(old(self)@, day.0, nominees@),
    {
        let _ = self.record_eliminated(day, nominees);
        let ghost g1 = self@;
        let ghost ps0 = old(self)@.players;
        let mut k: usize = 0;
        assert(nominees@.take(0) =~= Seq::<Position>::empty());
        while k < nominees.len()
            invariant
                0 <= k <= nominees.len(),
                self.wf(),
                all_seated(ps0, nominees@),
                g1.players == ps0,
                self@ == (GameView { players: eliminate_all(ps0, nominees@.take(k as int)), ..g1 }),
            decreases nominees.len() - k,
        {
            let ghost taken = nominees@.take(k as int);
            assert forall|j: int| 0 <= j < taken.len() implies index_at(ps0, #[trigger] taken[j]) is Some by {
                assert(taken[j] == nominees@[j]);
            }
            proof {
                lemma_eliminate_all_same_seats(ps0, taken);
                lemma_same_seats_index_at(eliminate_all(ps0, taken), ps0, nominees@[k as int]);
                assert(index_at(ps0, nominees@[k as int]) is Some);
                crate::seqs::lemma_first_match(self@.players, sits_at(nominees@[k as int]));
            }
            let i = self.index_by_position(nominees[k]).unwrap();
            let _ = self.apply_to_player(i, PlayerOp::MarkEliminated);
            assert(nominees@.take(k + 1).drop_last() =~= taken);
            assert(nominees@.take(k + 1).last() == nominees@[k as int]);
            k = k + 1;
        }
        assert(nominees@.take(nominees@.len() as int) =~= nominees@);
    }

    /// Records a guess of the first player shot.
    pub fn record_guess(&mut self, guess: Position) -> (events: Vec<Event>)
        requires
            old(self).wf(),
        ensures
            final(self).wf(),
            final(self)@ == (GameView { guess: old(self)@.guess.push(guess), ..old(self)@ }),
            events.len() == 1,
            events[0] matches Event::Guess { position } && position == guess,
    {
        self.guess.push(guess);
        assert(self@.voting == old(self)@.voting);
        vec![Event::Guess { position: guess }]
    }

    /* ---------------- Votes & Nominations ---------------- */

    /// Takes the main (or tie) voting round of `day` out of the game,
    /// opening a fresh round for the players alive when there is none.
    fn take_voting(&mut self, day: DayIndex, tie: bool) -> (v: Voting)
        requires
            old(self).wf(),
        ensures
            v.wf(),
            !tie ==> v@ == voting_of_day(old(self)@, day.0) && final(self)@ == (GameView {
                voting: old(self)@.voting.remove(day.0),
                ..old(self)@
            }),
            tie ==> v@ == tie_voting_of_day(old(self)@, day.0) && final(self)@ == (GameView {
                tie_voting: old(self)@.tie_voting.remove(day.0),
                ..old(self)@
            }),
            final(self).wf(),
    {
        let alive = self.alive_positions();
        let taken = if tie {
            self.tie_voting.remove(&day.0)
        } else {
            self.voting.remove(&day.0)
        };
        let v = match taken {
            Some(v) => v,
            None => Voting::new(alive.as_slice()),
        };
        proof {
            if tie {
                assert(self@.tie_voting =~= old(self)@.tie_voting.remove(day.0));
                if old(self)@.tie_voting.contains_key(day.0) {
                    assert(voting_wf(old(self)@.tie_voting[day.0]));
                }
            } else {
                assert(self@.voting =~= old(self)@.voting.remove(day.0));
                if old(self)@.voting.contains_key(day.0) {
                    assert(voting_wf(old(self)@.voting[day.0]));
                }
            }
        }
        v
    }

    /// Puts a voting round back as the main (or tie) round of `day`.
    fn put_voting(&mut self, day: DayIndex, tie: bool, v: Voting)
        requires
            old(self).wf(),
            v.wf(),
        ensures
            final(self).wf(),
            !tie ==> final(self)@ == (GameView {
                voting: old(self)@.voting.insert(day.0, v@),
                ..old(self)@
            }),
            tie ==> final(self)@ == (GameView {
                tie_voting: old(self)@.tie_voting.insert(day.0, v@),
                ..old(self)@
            }),
    {
        let ghost vv = v@;
        if tie {
            self.tie_voting.insert(day.0, v);
            assert(self@.tie_voting =~= old(self)@.tie_voting.insert(day.0, vv));
        } else {
            self.voting.insert(day.0, v);
            assert(self@.voting =~= old(self)@.voting.insert(day.0, vv));
        }
    }

    /// Records a nomination made on `day`.
    pub fn add_nomination(&mut self, day: DayIndex, nominator: Position, nominee: Position) -> (r: Result<Vec<Event>, Error>)
        requires
            old(self).wf(),
        ensures
            final(self).wf(),
            match voting::nominated(voting_of_day(old(self)@, day.0), nominator, nominee) {
                Ok(v2) => final(self)@ == (GameView { voting: old(self)@.voting.insert(day.0, v2), ..old(self)@ })
                    && (r matches Ok(events) && events.len() == 1 && (events[0] matches Event::Voting(e) && e
                    == voting::Event::Nominated { nominator, nominee })),
                Err(e) => final(self)@ == (GameView {
                    voting: old(self)@.voting.insert(day.0, voting_of_day(old(self)@, day.0)),
                    ..old(self)@
                }) && (r matches Err(Error::Voting(e2)) && e2 == e),
            },
    {
        let mut v = self.take_voting(day, false);
        let r = v.nominate(nominator, nominee);
        let ghost vv = v@;
        self.put_voting(day, false, v);
        assert(old(self)@.voting.remove(day.0).insert(day.0, vv) =~= old(self)@.voting.insert(day.0, vv));
        match r {
            Ok(events) => Ok(vec![Event::Voting(events[0])]),
            Err(e) => Err(Error::Voting(e)),
        }
    }

    /// Records a vote of `day` in the given pool: the main and tie rounds
    /// check the vote; the final round keeps every "yes" as given.
    pub fn add_vote(&mut self, day: DayIndex, pool: Pool, voter: Position, nominee: Position) -> (r: Result<Vec<Event>, Error>)
        requires
            old(self).wf(),
        ensures
            final(self).wf(),
            pool == Pool::Main ==> match voting::voted(voting_of_day(old(self)@, day.0), voter, nominee) {
                Ok(v2) => final(self)@ == (GameView { voting: old(self)@.voting.insert(day.0, v2), ..old(self)@ })
                    && (r matches Ok(events) && events.len() == 1 && (events[0] matches Event::Voting(e) && e
                    == voting::Event::Voted { voter, nominee })),
                Err(e) => final(self)@ == (GameView {
                    voting: old(self)@.voting.insert(day.0, voting_of_day(old(self)@, day.0)),
                    ..old(self)@
                }) && (r matches Err(Error::Voting(e2)) && e2 == e),
            },
            pool == Pool::Tie ==> match voting::voted(tie_voting_of_day(old(self)@, day.0), voter, nominee) {
                Ok(v2) => final(self)@ == (GameView { tie_voting: old(self)@.tie_voting.insert(day.0, v2), ..old(self)@ })
                    && (r matches Ok(events) && events.len() == 1 && (events[0] matches Event::Voting(e) && e
                    == voting::Event::Voted { voter, nominee })),
                Err(e) => final(self)@ == (GameView {
                    tie_voting: old(self)@.tie_voting.insert(day.0, tie_voting_of_day(old(self)@, day.0)),
                    ..old(self)@
                }) && (r matches Err(Error::Voting(e2)) && e2 == e),
            },
            pool == Pool::Final ==> final(self)@ == (GameView {
                final_voting: old(self)@.final_voting.insert(day.0, final_votes_of_day(old(self)@, day.0).push(voter)),
                ..old(self)@
            }) && (r matches Ok(events) && events.len() == 1 && (events[0] matches Event::FinalVoting(p) && p == voter)),
    {
        match pool {
            Pool::Main | Pool::Tie => {
                let tie = pool == Pool::Tie;
                let mut v = self.take_voting(day, tie);
                let r = v.vote(voter, nominee);
                let ghost vv = v@;
                self.put_voting(day, tie, v);
                assert(old(self)@.voting.remove(day.0).insert(day.0, vv) =~= old(self)@.voting.insert(day.0, vv));
                assert(old(self)@.tie_voting.remove(day.0).insert(day.0, vv) =~= old(self)@.tie_voting.insert(day.0, vv));
                match r {
                    Ok(events) => Ok(vec![Event::Voting(events[0])]),
                    Err(e) => Err(Error::Voting(e)),
                }
            },
            Pool::Final => {
                let mut list = match self.final_voting.remove(&day.0) {
                    Some(l) => l,
                    None => Vec::new(),
                };
                list.push(voter);
                let ghost lv = list@;
                self.final_voting.insert(day.0, list);
                assert(self@.final_voting =~= old(self)@.final_voting.insert(day.0, lv));
                assert(self@.voting == old(self)@.voting);
                Ok(vec![Event::FinalVoting(voter)])
            },
        }
    }

    /// Records the votes of several voters for one nominee in the main (or
    /// tie) round of `day`, skipping voters that cannot vote.
    pub fn add_votes(&mut self, day: DayIndex, tie: bool, nominee: Position, voters: &[Position]) -> (r: Result<Vec<voting::Event>, voting::Error>)
        requires
            old(self).wf(),
        ensures
            final(self).wf(),
            ({
                let v0 = if tie { tie_voting_of_day(old(self)@, day.0) } else { voting_of_day(old(self)@, day.0) };
                let st = voting::batch_prefix(v0, nominee, voters@, false, voters@.len());
                let v1 = if !v0.nominees.contains(nominee) { v0 } else { st.view };
                &&& !tie ==> final(self)@ == (GameView { voting: old(self)@.voting.insert(day.0, v1), ..old(self)@ })
                &&& tie ==> final(self)@ == (GameView { tie_voting: old(self)@.tie_voting.insert(day.0, v1), ..old(self)@ })
                &&& !v0.nominees.contains(nominee) ==> r == Err::<Vec<voting::Event>, voting::Error>(voting::Error::InvalidNominee(nominee))
                &&& v0.nominees.contains(nominee) ==> match st.error {
                    Some(e) => r == Err::<Vec<voting::Event>, voting::Error>(e),
                    None => r matches Ok(events) && events@ == st.events,
                }
            }),
    {
        let mut v = self.take_voting(day, tie);
        let r = v.batch_vote(nominee, voters, false);
        let ghost vv = v@;
        self.put_voting(day, tie, v);
        assert(old(self)@.voting.remove(day.0).insert(day.0, vv) =~= old(self)@.voting.insert(day.0, vv));
        assert(old(self)@.tie_voting.remove(day.0).insert(day.0, vv) =~= old(self)@.tie_voting.insert(day.0, vv));
        r
    }

    /// Records "yes" votes of the final round of `day`, as given.
    pub fn add_final_votes(&mut self, day: DayIndex, voters: &[Position])
        requires
            old(self).wf(),
        ensures
            final(self).wf(),
            final(self)@ == (GameView {
                final_voting: old(self)@.final_voting.insert(day.0, final_votes_of_day(old(self)@, day.0) + voters@),
                ..old(self)@
            }),
    {
        let mut list = match self.final_voting.remove(&day.0) {
            Some(l) => l,
            None => Vec::new(),
        };
        let ghost before = list@;
        let mut i: usize = 0;
        while i < voters.len()
            invariant
                0 <= i <= voters.len(),
                list@ == before + voters@.take(i as int),
            decreases voters.len() - i,
        {
            list.push(voters[i]);
            assert(voters@.take(i + 1) =~= voters@.take(i as int).push(voters@[i as int]));
            i = i + 1;
        }
        assert(voters@.take(voters@.len() as int) =~= voters@);
        let ghost lv = list@;
        self.final_voting.insert(day.0, list);
        assert(self@.final_voting =~= old(self)@.final_voting.insert(day.0, lv));
        assert(self@.voting == old(self)@.voting);
    }

    /// Opens the tie round of `day` over the given nominees, for the players alive.
    pub fn start_tie_voting(&mut self, day: DayIndex, nominees: &[Position])
        requires
            old(self).wf(),
        ensures
            final(self).wf(),
            final(self)@ == (GameView {
                tie_voting: old(self)@.tie_voting.insert(day.0, fresh_voting(nominees@, alive_seats(old(self)@.players))),
                ..old(self)@
            }),
    {
        let alive = self.alive_positions();
        let v = Voting::from_nominees(nominees, alive.as_slice());
        self.put_voting(day, true, v);
    }

    pub fn voting_of(&self, day: DayIndex) -> (r: Option<&Voting>)
        requires
            self.wf(),
        ensures
            r matches Some(v) ==> self@.voting.contains_key(day.0) && v@ == self@.voting[day.0] && v.wf(),
            r is None ==> !self@.voting.contains_key(day.0),
    {
        let r = self.voting.get(&day.0);
        proof {
            if self@.voting.contains_key(day.0) {
                assert(voting_wf(self@.voting[day.0]));
            }
        }
        r
    }

    pub fn tie_voting_of(&self, day: DayIndex) -> (r: Option<&Voting>)
        requires
            self.wf(),
        ensures
            r matches Some(v) ==> self@.tie_voting.contains_key(day.0) && v@ == self@.tie_voting[day.0] && v.wf(),
            r is None ==> !self@.tie_voting.contains_key(day.0),
    {
        let r = self.tie_voting.get(&day.0);
        proof {
            if self@.tie_voting.contains_key(day.0) {
                assert(voting_wf(self@.tie_voting[day.0]));
            }
        }
        r
    }

    /// The tie votings, by day.
    pub fn tie_voting(&self) -> (r: &HashMap<usize, Voting>)
        ensures
            r@.map_values(|v: Voting| v@) == self@.tie_voting,
    {
        &self.tie_voting
    }

    /// The tie votings, by day, to be changed in place.
    pub fn tie_voting_mut(&mut self) -> (r: &mut HashMap<usize, Voting>)
        ensures
            r@.map_values(|v: Voting| v@) == old(self)@.tie_voting,
            final(self)@ == (GameView { tie_voting: final(r)@.map_values(|v: Voting| v@), ..old(self)@ }),
    {
        &mut self.tie_voting
    }

    /// The final votes, by day.
    pub fn final_voting(&self) -> (r: &HashMap<usize, Vec<Position>>)
        ensures
            r@.map_values(|v: Vec<Position>| v@) == self@.final_voting,
    {
        &self.final_voting
    }

    pub fn final_votes_of(&self, day: DayIndex) -> (r: Option<&Vec<Position>>)
        ensures
            r matches Some(v) ==> self@.final_voting.contains_key(day.0) && v@ == self@.final_voting[day.0],
            r is None ==> !self@.final_voting.contains_key(day.0),
    {
        self.final_voting.get(&day.0)
    }

    pub fn check_of(&self, day: DayIndex) -> (r: Option<&Check>)
        ensures
            r matches Some(c) ==> self@.check.contains_key(day.0) && c@ == self@.check[day.0],
            r is None ==> !self@.check.contains_key(day.0),
    {
        self.check.get(&day.0)
    }

    pub fn get_kill(&self, day: DayIndex) -> (r: Option<Position>)
        ensures
            r matches Some(p) ==> self@.kill.contains_key(day.0) && p == self@.kill[day.0],
            r is None ==> !self@.kill.contains_key(day.0),
    {
        match self.kill.get(&day.0) {
            Some(p) => Some(*p),
            None => None,
        }
    }

    pub fn get_eliminated(&self, day: DayIndex) -> (r: Option<&Vec<Position>>)
        ensures
            r matches Some(v) ==> self@.eliminated.contains_key(day.0) && v@ == self@.eliminated[day.0],
            r is None ==> !self@.eliminated.contains_key(day.0),
    {
        self.eliminated.get(&day.0)
    }

    pub fn guesses(&self) -> (r: &Vec<Position>)
        ensures
            r@ == self@.guess,
    {
        &self.guess
    }

    // ---------------- Roles ----------------
    fn role_pool_index(&self, role: Role) -> (r: Option<usize>)
        ensures
            r matches Some(i) ==> role_index(self@.roles_pool, role) == Some(i as int) && i < self@.roles_pool.len(),
            r is None ==> role_index(self@.roles_pool, role) is None,
    {
        let ghost f = is_role(role);
        let mut i: usize = 0;
        while i < self.roles_pool.len()
            invariant
                0 <= i <= self.roles_pool.len(),
                forall|j: int| 0 <= j < i ==> !f(#[trigger] self.roles_pool@[j]),
                f == is_role(role),
            decreases self.roles_pool.len() - i,
        {
            if self.roles_pool[i] == role {
                proof {
                    lemma_first_match_at(self.roles_pool@, f, i as int);
                }
                return Some(i);
            }
            i = i + 1;
        }
        proof {
            lemma_first_match(self.roles_pool@, f);
            if role_index(self@.roles_pool, role) is Some {
                let k = role_index(self@.roles_pool, role).unwrap();
                assert(f(self.roles_pool@[k]));
            }
        }
        None
    }

    /// Assign a role, removing it from available roles
    pub fn take_role(&mut self, role: Role) -> (r: Result<(), Error>)
        requires
            old(self).wf(),
        ensures
            final(self).wf(),
            role_index(old(self)@.roles_pool, role) matches Some(i) ==> r is Ok && final(self)@ == (GameView {
                roles_pool: old(self)@.roles_pool.remove(i),
                ..old(self)@
            }),
            role_index(old(self)@.roles_pool, role) is None ==> (r matches Err(Error::NoAvailableRoles))
                && final(self)@ == old(self)@,
    {
        match self.role_pool_index(role) {
            Some(i) => {
                self.roles_pool.remove(i);
                assert(self@.voting == old(self)@.voting);
                Ok(())
            },
            None => Err(Error::NoAvailableRoles),
        }
    }

    /// Return a role to the pool
    pub fn return_role(&mut self, role: Role)
        requires
            old(self).wf(),
        ensures
            final(self).wf(),
            final(self)@ == (GameView { roles_pool: old(self)@.roles_pool.push(role), ..old(self)@ }),
    {
        self.roles_pool.push(role);
        assert(self@.voting == old(self)@.voting);
    }

    pub fn available_roles(&self) -> (s: &[Role])
        ensures
            s@ == self@.roles_pool,
    {
        self.roles_pool.as_slice()
    }

    // ---------------- Positions ----------------
fn seat_pool_index(&self, position: Position) -> (r: Option<usize>)
        ensures
            r matches Some(i) ==> seat_index(self@.positions_pool, position) == Some(i as int) && i < self@.positions_pool.len(),
            r is None ==> seat_index(self@.positions_pool, position) is None,
    {
        let ghost f = is_seat(position);
        let mut i: usize = 0;
        while i < self.positions_pool.len()
            invariant
                0 <= i <= self.positions_pool.len(),
                forall|j: int| 0 <= j < i ==> !f(#[trigger] self.positions_pool@[j]),
                f == is_seat(position),
            decreases self.positions_pool.len() - i,
        {
            if self.positions_pool[i] == position {
                proof {
                    lemma_first_match_at(self.positions_pool@, f, i as int);
                }
                return Some(i);
            }
            i = i + 1;
        }
        proof {
            lemma_first_match(self.positions_pool@, f);
            if seat_index(self@.positions_pool, position) is Some {
                let k = seat_index(self@.positions_pool, position).unwrap();
                assert(f(self.positions_pool@[k]));
            }
        }
        None
    }

    pub fn take_position(&mut self, position: Position) -> (r: Result<(), Error>)
        requires
            old(self).wf(),
        ensures
            final(self).wf(),
            seat_index(old(self)@.positions_pool, position) matches Some(i) ==> r is Ok && final(self)@ == (GameView {
                positions_pool: old(self)@.positions_pool.remove(i),
                ..old(self)@
            }),
            seat_index(old(self)@.positions_pool, position) is None ==> (r matches Err(Error::NoAvailablePositions))
                && final(self)@ == old(self)@,
    {
        match self.seat_pool_index(position) {
            Some(i) => {
                self.positions_pool.remove(i);
                assert(self@.voting == old(self)@.voting);
                Ok(())
            },
            None => Err(Error::NoAvailablePositions),
        }
    }

    /// Puts a seat back in the pool unless it is there already.
    pub fn return_position(&mut self, position: Position)
        requires
            old(self).wf(),
        ensures
            final(self).wf(),
            final(self)@ == (GameView {
                positions_pool: if old(self)@.positions_pool.contains(position) {
                    old(self)@.positions_pool
                } else {
                    old(self)@.positions_pool.push(position)
                },
                ..old(self)@
            }),
    {
        let mut i: usize = 0;
        let mut found = false;
        while i < self.positions_pool.len()
            invariant
                0 <= i <= self.positions_pool.len(),
                found == exists|j: int| 0 <= j < i && self.positions_pool@[j] == position,
                *self == *old(self),
                self.wf(),
            decreases self.positions_pool.len() - i,
        {
            if self.positions_pool[i] == position {
                found = true;
            }
            i = i + 1;
        }
        if !found {
            self.positions_pool.push(position);
        }
        assert(self@.voting == old(self)@.voting);
    }

    pub fn available_positions(&self) -> (s: &[Position])
        ensures
            s@ == self@.positions_pool,
    {
        self.positions_pool.as_slice()
    }
}


impl Game {
    /// The seats taken, in player order.
    fn seats(&self) -> (v: Vec<Position>)
        ensures
            v@ == seats_taken(self@.players),
    {
        let mut v: Vec<Position> = Vec::new();
        let mut i: usize = 0;
        while i < self.players.len()
            invariant
                0 <= i <= self.players.len(),
                self@.players.len() == self.players.len(),
                v@ == seats_taken(self@.players.take(i as int)),
            decreases self.players.len() - i,
        {
            assert(self@.players.take(i + 1).drop_last() =~= self@.players.take(i as int));
            match self.players[i].position() {
                Some(q) => v.push(q),
                None => {},
            }
            i = i + 1;
        }
        assert(self@.players.take(i as int) =~= self@.players);
        v
    }

    /// The seats taken, in increasing seat order.
    pub fn seat_order(&self) -> (v: Vec<Position>)
        ensures
            v@ == turn_order(self@.players),
    {
        let seats = self.seats();
        let ghost s = seats@;
        let ghost key = |p: Position| seat_key(p);
        let mut sorted: Vec<Position> = Vec::new();
        let mut k: u16 = 0;
        while k < 256
            invariant
                0 <= k <= 256,
                s == seats@,
                key == (|p: Position| seat_key(p)),
                sorted@ == bucket_concat(s, key, k as nat),
            decreases 256 - k,
        {
            let mut i: usize = 0;
            let ghost bucket = |x: Position| key(x) == k as nat;
            assert(s.take(0) =~= Seq::<Position>::empty());
            proof {
                reveal(Seq::filter);
            }
            while i < seats.len()
                invariant
                    0 <= i <= seats.len(),
                    s == seats@,
                    key == (|p: Position| seat_key(p)),
                    bucket == (|x: Position| key(x) == k as nat),
                    sorted@ == bucket_concat(s, key, k as nat) + s.take(i as int).filter(bucket),
                decreases seats.len() - i,
            {
                let q = seats[i];
                proof {
                    assert(s.take(i + 1) =~= s.take(i as int).push(q));
                    s.take(i as int).lemma_filter_push(q, bucket);
                    assert(bucket(q) == (q.0 as u16 == k));
                }
                if q.0 as u16 == k {
                    sorted.push(q);
                    assert(sorted@ =~= bucket_concat(s, key, k as nat) + s.take(i + 1).filter(bucket));
                }
                i = i + 1;
            }
            assert(s.take(s.len() as int) =~= s);
            assert(bucket_concat(s, key, (k + 1) as nat) == bucket_concat(s, key, k as nat) + s.filter(bucket));
            k = k + 1;
        }
        sorted
    }

    /// Whether the player at `pos` may act under criterion `c`.
    pub fn is_eligible_at(&self, c: &Eligibility, pos: Position) -> (b: bool)
        ensures
            b == eligible_at(self@.players, c@, pos),
    {
        match self.index_by_position(pos) {
            None => false,
            Some(i) => {
                let p = &self.players[i];
                match c {
                    Eligibility::WithoutRole => p.role().is_none(),
                    Eligibility::Sheriff => p.is_sheriff(),
                    Eligibility::Don => p.is_don(),
                    Eligibility::Killed(k) => p.is_dead() && *k == pos,
                    Eligibility::Alive => p.is_alive(),
                    Eligibility::EliminatedAmong(list) => p.is_eliminated() && voting::contains_position(list, pos),
                }
            },
        }
    }

    /// Moves the turn to the next seat, in increasing seat order, whose
    /// player may act under `c`; see [`crate::engine::turn::cycle_step`].
    pub fn next_actor(&self, actor: &mut Actor, c: &Eligibility) -> (r: Option<Position>)
        ensures
            (final(actor)@, r) == table_turn_step(self@.players, c@, old(actor)@),
    {
        let order = self.seat_order();
        let mut flags: Vec<bool> = Vec::new();
        let mut k: usize = 0;
        while k < order.len()
            invariant
                0 <= k <= order.len(),
                order@ == turn_order(self@.players),
                flags@ == Seq::new(k as nat, |j: int| eligible_at(self@.players, c@, order@[j])),
            decreases order.len() - k,
        {
            let b = self.is_eligible_at(c, order[k]);
            flags.push(b);
            assert(flags@ =~= Seq::new((k + 1) as nat, |j: int| eligible_at(self@.players, c@, order@[j])));
            k = k + 1;
        }
        let start_ok = self.is_eligible_at(c, actor.start());
        next_in_cycle(&order, &flags, start_ok, actor)
    }
}


/// How a game is shown: its players, shots, votings, final votes and checks.
pub open spec fn game_snapshot(g: GameView) -> snapshot::GameView {
    snapshot::GameView {
        players: g.players.map_values(|p: PlayerView| player_snapshot(p)),
        kill: g.kill,
        voting: g.voting.map_values(|v: VotingView| voting_snapshot(v)),
        tie_voting: g.tie_voting.map_values(|v: VotingView| voting_snapshot(v)),
        final_voting: g.final_voting,
        check: g.check.map_values(|c: CheckView| snapshot::Check { sheriff: c.sheriff, don: c.don }),
    }
}

/// The snapshots of the votings of each day.
fn voting_snapshots(m: &HashMap<usize, Voting>) -> (r: HashMap<usize, snapshot::Voting>)
    ensures
        r@.dom() == m@.dom(),
        forall|k: usize| #[trigger] m@.contains_key(k) ==> r@[k]@ == voting_snapshot(m@[k]@),
{
    let mut r: HashMap<usize, snapshot::Voting> = HashMap::new();
    for entry in it: m.iter()
        invariant
            forall|j: int| 0 <= j < it.index() ==> r@.contains_key(*(#[trigger] it.seq()[j]).0),
            forall|k: usize| #[trigger] r@.contains_key(k) ==> m@.contains_key(k)
                && r@[k]@ == voting_snapshot(m@[k]@),
    {
        let (k, v) = entry;
        r.insert(*k, v.snapshot());
    }
    assert(r@.dom() =~= m@.dom());
    r
}

/// The snapshots of the checks of each night.
fn check_snapshots(m: &HashMap<usize, Check>) -> (r: HashMap<usize, snapshot::Check>)
    ensures
        r@.dom() == m@.dom(),
        forall|k: usize| #[trigger] m@.contains_key(k) ==> r@[k] == (snapshot::Check {
            sheriff: m@[k]@.sheriff,
            don: m@[k]@.don,
        }),
{
    let mut r: HashMap<usize, snapshot::Check> = HashMap::new();
    for entry in it: m.iter()
        invariant
            forall|j: int| 0 <= j < it.index() ==> r@.contains_key(*(#[trigger] it.seq()[j]).0),
            forall|k: usize| #[trigger] r@.contains_key(k) ==> m@.contains_key(k)
                && r@[k] == (snapshot::Check { sheriff: m@[k]@.sheriff, don: m@[k]@.don }),
    {
        let (k, c) = entry;
        r.insert(*k, c.snapshot());
    }
    assert(r@.dom() =~= m@.dom());
    r
}

/// The final votes of each day, copied.
fn final_vote_snapshots(m: &HashMap<usize, Vec<Position>>) -> (r: HashMap<usize, Vec<Position>>)
    ensures
        r@.dom() == m@.dom(),
        forall|k: usize| #[trigger] m@.contains_key(k) ==> r@[k]@ == m@[k]@,
{
    let mut r: HashMap<usize, Vec<Position>> = HashMap::new();
    for entry in it: m.iter()
        invariant
            forall|j: int| 0 <= j < it.index() ==> r@.contains_key(*(#[trigger] it.seq()[j]).0),
            forall|k: usize| #[trigger] r@.contains_key(k) ==> m@.contains_key(k) && r@[k]@ == m@[k]@,
    {
        let (k, l) = entry;
        r.insert(*k, voting::copy_positions(l.as_slice()));
    }
    assert(r@.dom() =~= m@.dom());
    r
}

impl Snapshot for Game {
    type Output = snapshot::Game;

    fn snapshot(&self) -> (s: snapshot::Game)
        ensures
            s@ == game_snapshot(self@),
    {
        let mut players: Vec<snapshot::Player> = Vec::new();
        let mut i: usize = 0;
        while i < self.players.len()
            invariant
                0 <= i <= self.players.len(),
                players.len() == i,
                forall|j: int| 0 <= j < i ==> (#[trigger] players@[j])@ == player_snapshot(self@.players[j]),
            decreases self.players.len() - i,
        {
            players.push(self.players[i].snapshot());
            i = i + 1;
        }
        let s = snapshot::Game {
            players,
            kill: self.kill.clone(),
            voting: voting_snapshots(&self.voting),
            tie_voting: voting_snapshots(&self.tie_voting),
            final_voting: final_vote_snapshots(&self.final_voting),
            check: check_snapshots(&self.check),
        };
        assert(s@.players =~= game_snapshot(self@).players);
        assert(s@.voting =~= game_snapshot(self@).voting);
        assert(s@.tie_voting =~= game_snapshot(self@).tie_voting);
        assert(s@.final_voting =~= game_snapshot(self@).final_voting);
        assert(s@.check =~= game_snapshot(self@).check);
        s
    }
}

/// The decimal writings of seats, one after the other.
pub open spec fn seats_text(ps: Seq<Position>) -> Seq<char>
    decreases ps.len(),
{
    if ps.len() == 0 {
        Seq::empty()
    } else {
        seats_text(ps.drop_last()) + decimal(ps.last().0 as nat)
    }
}

/// How a game event reads.
pub open spec fn event_text(e: Event) -> Seq<char> {
    match e {
        Event::PlayerLeft { name } => "Player  "@ + name@ + ", left the lobby"@,
        Event::PlayerJoin { name } => "Player  "@ + name@ + ", joined to the lobby"@,
        Event::Player(ev) => player::event_text(ev@),
        Event::Voting(ev) => voting::event_text(ev),
        Event::Check(ev) => check::event_text(ev),
        Event::MafiaKill { position } => "Mafia has shoot "@ + decimal(position.0 as nat),
        Event::Guess { position } => "Dead player has guessed "@ + decimal(position.0 as nat),
        Event::Eliminated { day, positions } => "After day "@ + decimal(day.0 as nat)
            + " players at position "@ + seats_text(positions@) + " were eliminated"@,
        Event::FinalVoting(position) => "Final Voting "@ + decimal(position.0 as nat),
    }
}

impl Event {
    /// How the event reads.
    pub fn to_string(&self) -> (s: String)
        ensures
            s@ == event_text(*self),
    {
        match self {
            Event::PlayerLeft { name } => {
                let mut s = String::new();
                push_text(&mut s, "Player  ");
                push_text(&mut s, name.as_str());
                push_text(&mut s, ", left the lobby");
                assert(s@ =~= event_text(*self));
                s
            },
            Event::PlayerJoin { name } => {
                let mut s = String::new();
                push_text(&mut s, "Player  ");
                push_text(&mut s, name.as_str());
                push_text(&mut s, ", joined to the lobby");
                assert(s@ =~= event_text(*self));
                s
            },
            Event::Player(ev) => ev.to_string(),
            Event::Voting(ev) => ev.to_string(),
            Event::Check(ev) => ev.to_string(),
            Event::MafiaKill { position } => {
                let mut s = String::new();
                push_text(&mut s, "Mafia has shoot ");
                push_decimal(&mut s, position.0 as u64);
                assert(s@ =~= event_text(*self));
                s
            },
            Event::Guess { position } => {
                let mut s = String::new();
                push_text(&mut s, "Dead player has guessed ");
                push_decimal(&mut s, position.0 as u64);
                assert(s@ =~= event_text(*self));
                s
            },
            Event::Eliminated { day, positions } => {
                let mut s = String::new();
                push_text(&mut s, "After day ");
                push_decimal(&mut s, day.0 as u64);
                push_text(&mut s, " players at position ");
                let ghost head = s@;
                let mut i: usize = 0;
                assert(positions@.take(0) =~= Seq::<Position>::empty());
                assert(head + seats_text(positions@.take(0)) =~= head);
                while i < positions.len()
                    invariant
                        0 <= i <= positions.len(),
                        s@ == head + seats_text(positions@.take(i as int)),
                    decreases positions.len() - i,
                {
                    push_decimal(&mut s, positions[i].0 as u64);
                    assert(positions@.take(i + 1).drop_last() =~= positions@.take(i as int));
                    assert(head + seats_text(positions@.take(i + 1)) =~= head + seats_text(positions@.take(i as int))
                        + decimal(positions@[i as int].0 as nat));
                    i = i + 1;
                }
                assert(positions@.take(positions.len() as int) =~= positions@);
                push_text(&mut s, " were eliminated");
                assert(s@ =~= event_text(*self));
                s
            },
            Event::FinalVoting(position) => {
                let mut s = String::new();
                push_text(&mut s, "Final Voting ");
                push_decimal(&mut s, position.0 as u64);
                assert(s@ =~= event_text(*self));
                s
            },
        }
    }
}

} // verus!
