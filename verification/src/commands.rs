//! Typed host commands for the first table.
use vstd::prelude::*;

use crate::table::{
    Chair, Phase, Role, Table, TableView, join_outcome, leave_outcome, lines_view, next_phase_outcome,
    rendered, with_seat, PlayerView,
};
use crate::text::{decimal, push_decimal, push_text};

verus! {

/// What the host can type at the first table.
#[derive(Debug)]
pub enum Action {
    Join { name: String },
    Leave { name: String },
    Warn { position: u8 },
    Pardon { position: u8 },
    Nominate { position: u8 },
    Timer { seconds: u8 },
    Next,
    Show,
    Quit,
}

/// Whether the host goes on.
#[derive(Debug, Clone, Copy, PartialEq, Eq, Structural)]
pub enum AppStatus {
    Continue,
    Quit,
}

/// Whether an action can run on `t`: a warning must leave the count in a
/// byte, and a voting that ends must leave the round number in a byte.
pub open spec fn run_defined(t: TableView, a: &Action) -> bool {
    match a {
        Action::Warn { position } => t.seats.dom().contains(*position) ==> t.seats[*position].warnings < 255,
        Action::Next => t.phase == Phase::Voting ==> t.round < 255,
        _ => true,
    }
}

/// Whether `(t2, r)` is what running `a` on `t` can give: the table
/// afterwards, and either whether to go on with the lines to show, or the
/// table's refusal.
pub open spec fn ran(t: TableView, a: &Action, t2: TableView, r: Result<(AppStatus, Seq<Seq<char>>), Seq<char>>) -> bool {
    match a {
        Action::Join { name } => if t.phase == Phase::Registration {
            exists|seat: Option<u8>, role: Option<Role>|
                crate::engine::lobby::valid_pick(t.available_positions, seat)
                    && crate::engine::lobby::valid_pick(t.available_roles, role) && #[trigger] join_outcome(
                    t,
                    name@,
                    seat,
                    role,
                ) == (t2, match r {
                    Ok(_) => Ok::<(), Seq<char>>(()),
                    Err(e) => Err(e),
                }) && (r is Ok ==> r == Ok::<(AppStatus, Seq<Seq<char>>), Seq<char>>((AppStatus::Continue, Seq::empty())))
        } else {
            t2 == t && r == Ok::<(AppStatus, Seq<Seq<char>>), Seq<char>>((AppStatus::Continue, Seq::empty()))
        },
        Action::Leave { name } => if t.phase == Phase::Registration {
            let (t3, lr) = leave_outcome(t, name@);
            t2 == t3 && r == match lr {
                Ok(()) => Ok((AppStatus::Continue, seq!["Player "@ + name@ + " left the game."@])),
                Err(e) => Err(e),
            }
        } else {
            t2 == t && r == Ok::<(AppStatus, Seq<Seq<char>>), Seq<char>>((AppStatus::Continue, Seq::empty()))
        },
        Action::Warn { position } => if t.seats.dom().contains(*position) {
            t2 == with_seat(t, *position, PlayerView {
                warnings: (t.seats[*position].warnings + 1) as u8,
                ..t.seats[*position]
            }) && r == Ok::<(AppStatus, Seq<Seq<char>>), Seq<char>>((AppStatus::Continue, Seq::empty()))
        } else {
            t2 == t && r == Err::<(AppStatus, Seq<Seq<char>>), Seq<char>>("Player not found"@)
        },
        Action::Pardon { position } => if t.seats.dom().contains(*position) {
            t2 == with_seat(t, *position, PlayerView {
                warnings: if t.seats[*position].warnings > 0 {
                    (t.seats[*position].warnings - 1) as u8
                } else {
                    0
                },
                ..t.seats[*position]
            }) && r == Ok::<(AppStatus, Seq<Seq<char>>), Seq<char>>((AppStatus::Continue, Seq::empty()))
        } else {
            t2 == t && r == Err::<(AppStatus, Seq<Seq<char>>), Seq<char>>("Player not found"@)
        },
        Action::Nominate { position } => if t.phase == Phase::Day {
            if t.seats.dom().contains(*position) {
                t2 == (TableView {
                    seats: t.seats.insert(
                        *position,
                        PlayerView {
                            nominated: t.seats[*position].nominated.push(Some(*position)),
                            ..t.seats[*position]
                        },
                    ),
                    nominated_players: t.nominated_players.push(t.seats[*position].name),
                    ..t
                }) && r == Ok::<(AppStatus, Seq<Seq<char>>), Seq<char>>((
                    AppStatus::Continue,
                    seq!["Player at position "@ + decimal(*position as nat) + " has been nominated."@],
                ))
            } else {
                t2 == t && r == Err::<(AppStatus, Seq<Seq<char>>), Seq<char>>("Player not found"@)
            }
        } else {
            t2 == t && r == Ok::<(AppStatus, Seq<Seq<char>>), Seq<char>>((AppStatus::Continue, Seq::empty()))
        },
        Action::Next => t2 == next_phase_outcome(t) && r == Ok::<(AppStatus, Seq<Seq<char>>), Seq<char>>((
            AppStatus::Continue,
            Seq::empty(),
        )),
        Action::Show => t2 == t && r == Ok::<(AppStatus, Seq<Seq<char>>), Seq<char>>((
            AppStatus::Continue,
            rendered(t),
        )),
        Action::Quit => t2 == t && r == Ok::<(AppStatus, Seq<Seq<char>>), Seq<char>>((
            AppStatus::Quit,
            seq!["Exiting the game."@],
        )),
        Action::Timer { .. } => t2 == t && r == Ok::<(AppStatus, Seq<Seq<char>>), Seq<char>>((
            AppStatus::Continue,
            Seq::empty(),
        )),
    }
}

/// The result of an action seen as characters.
pub open spec fn run_view(r: Result<(AppStatus, Vec<String>), String>) -> Result<(AppStatus, Seq<Seq<char>>), Seq<char>> {
    match r {
        Ok((s, lines)) => Ok((s, lines_view(lines@))),
        Err(e) => Err(e@),
    }
}

impl Action {
    /// Runs the action on the table; gives whether to go on and the lines
    /// to show, or the table's refusal. Actions out of their phase are
    /// ignored.
    pub fn run(&self, table: &mut Table) -> (r: Result<(AppStatus, Vec<String>), String>)
        requires
            run_defined(old(table)@, self),
        ensures
            ran(old(table)@, self, final(table)@, run_view(r)),
    {
        let nothing: Vec<String> = Vec::new();
        assert(lines_view(nothing@) =~= Seq::<Seq<char>>::empty());
        match self {
            Action::Join { name } => {
                if table.phase != Phase::Registration {
                    return Ok((AppStatus::Continue, nothing));
                }
                let r = table.join(name.as_str());
                match r {
                    Ok(()) => Ok((AppStatus::Continue, nothing)),
                    Err(e) => Err(e),
                }
            },
            Action::Leave { name } => {
                if table.phase != Phase::Registration {
                    return Ok((AppStatus::Continue, nothing));
                }
                table.leave(name.as_str())?;
                let mut line = String::new();
                push_text(&mut line, "Player ");
                push_text(&mut line, name.as_str());
                push_text(&mut line, " left the game.");
                let ghost l = line@;
                let lines = vec![line];
                assert(lines_view(lines@) =~= seq![l]);
                Ok((AppStatus::Continue, lines))
            },
            Action::Warn { position } => {
                table.warn(Chair::new(*position))?;
                Ok((AppStatus::Continue, nothing))
            },
            Action::Pardon { position } => {
                table.pardon(Chair::new(*position))?;
                Ok((AppStatus::Continue, nothing))
            },
            Action::Nominate { position } => {
                if table.phase != Phase::Day {
                    return Ok((AppStatus::Continue, nothing));
                }
                table.nominate(Chair::new(*position))?;
                let mut line = String::new();
                push_text(&mut line, "Player at position ");
                push_decimal(&mut line, *position as u64);
                push_text(&mut line, " has been nominated.");
                let ghost l = line@;
                let lines = vec![line];
                assert(lines_view(lines@) =~= seq![l]);
                Ok((AppStatus::Continue, lines))
            },
            Action::Next => {
                table.next_phase()?;
                Ok((AppStatus::Continue, nothing))
            },
            Action::Show => {
                let lines = table.render();
                Ok((AppStatus::Continue, lines))
            },
            Action::Quit => {
                let line = "Exiting the game.".to_owned();
                let ghost l = line@;
                let lines = vec![line];
                assert(lines_view(lines@) =~= seq![l]);
                Ok((AppStatus::Quit, lines))
            },
            Action::Timer { .. } => Ok((AppStatus::Continue, nothing)),
        }
    }
}

} // verus!
