use vstd::prelude::*;

use super::commands::{Command, CommandView};
use super::events::EventView;
use super::EngineErrorView;
use super::flow::{advance_defined, advance_outcome};
use super::lobby::{after_add_player, join_outcome, leave_outcome, start_defined, start_outcome, valid_pick};
use super::moves::{
    assign_role_defined, assign_role_outcome, check_outcome, nominate_outcome, revoke_role_defined,
    guess_outcome, revoke_role_outcome, shoot_outcome, vote_outcome, warn_defined, warning_outcome,
};
use super::{Engine, EngineError, EngineView, Event, result_view};
use crate::domain::{Activity, EngineState, LobbyStatus, NightActivity, Position, Role};

verus! {

/// Whether a command is defined on `e`: what it needs (an acting player for
/// dealing or taking back a role, whatever the step needs) is there.
pub open spec fn apply_defined(e: EngineView, cmd: CommandView) -> bool {
    match cmd {
        CommandView::Start => start_defined(e),
        CommandView::Advance => advance_defined(e),
        CommandView::AssignRole => e.actor.current matches Some(p) && assign_role_defined(e, p),
        CommandView::RevokeRole => e.actor.current matches Some(p) && revoke_role_defined(e, p),
        CommandView::Warn { target } => warn_defined(e, target),
        _ => true,
    }
}

/// Whether `(e2, r)` is what a join of `name` on `e` gives for some draw of a seat.
pub open spec fn joined(e: EngineView, name: Seq<char>, e2: EngineView, r: Result<Seq<EventView>, EngineErrorView>) -> bool {
    exists|pick: Option<Position>|
        valid_pick(after_add_player(e.game, name).positions_pool, pick) && (e2, r) == #[trigger] join_outcome(
            e,
            name,
            pick,
        )
}

/// Whether `(e2, r)` is what dealing a role to the acting player of `e`
/// gives for some draw of a role.
pub open spec fn dealt(e: EngineView, e2: EngineView, r: Result<Seq<EventView>, EngineErrorView>) -> bool {
    exists|pick: Option<Role>|
        valid_pick(e.game.roles_pool, pick) && (e2, r) == #[trigger] assign_role_outcome(
            e,
            e.actor.current.unwrap(),
            pick,
        )
}

/// Whether `(e2, r)` is what carrying out `cmd` on `e` can give: the
/// outcome of the command, for some draw where it draws a seat or a role.
pub open spec fn applied(e: EngineView, cmd: CommandView, e2: EngineView, r: Result<Seq<EventView>, EngineErrorView>) -> bool {
    match cmd {
        CommandView::Join { name } => joined(e, name, e2, r),
        CommandView::Leave { name } => (e2, r) == leave_outcome(e, name),
        CommandView::Start => (e2, r) == start_outcome(e),
        CommandView::AssignRole => dealt(e, e2, r),
        CommandView::RevokeRole => (e2, r) == revoke_role_outcome(e, e.actor.current.unwrap()),
        CommandView::Advance => (e2, r) == advance_outcome(e),
        CommandView::Warn { target } => (e2, r) == warning_outcome(e, target, true),
        CommandView::Pardon { target } => (e2, r) == warning_outcome(e, target, false),
        CommandView::Nominate { target } => (e2, r) == nominate_outcome(e, target),
        CommandView::Vote { targets } => (e2, r) == vote_outcome(e, targets),
        CommandView::Shoot { target } => (e2, r) == shoot_outcome(e, target),
        CommandView::Check { target } => (e2, r) == check_outcome(e, target),
        CommandView::Guess { targets } => (e2, r) == guess_outcome(e, targets),
    }
}

impl Engine {
    /// Carries out a command.
    pub fn apply(&mut self, cmd: Command) -> (r: Result<Vec<Event>, EngineError>)
        requires
            old(self).wf(),
            apply_defined(old(self)@, cmd@),
        ensures
            final(self).wf(),
            applied(old(self)@, cmd@, final(self)@, result_view(r)),
    {
        match cmd {
            Command::Join { name } => {
                let r = self.join(name.as_str());
                proof {
                    let pick = choose|pick: Option<Position>|
                        valid_pick(after_add_player(old(self)@.game, name@).positions_pool, pick) && (
                        self@,
                        result_view(r),
                    ) == #[trigger] join_outcome(old(self)@, name@, pick);
                    assert(valid_pick(after_add_player(old(self)@.game, name@).positions_pool, pick) && (
                        self@,
                        result_view(r),
                    ) == join_outcome(old(self)@, name@, pick));
                    assert(joined(old(self)@, name@, self@, result_view(r)));
                }
                r
            },
            Command::Leave { name } => self.leave(name.as_str()),
            Command::Start => self.start(),
            Command::AssignRole => {
                let p = self.actor.current().unwrap();
                self.assign_role(p)
            },
            Command::RevokeRole => {
                let p = self.actor.current().unwrap();
                self.revoke_role(p)
            },
            Command::Advance => self.advance(),
            Command::Warn { target } => self.warn(target),
            Command::Pardon { target } => self.pardon(target),
            Command::Nominate { target } => self.nominate(target),
            Command::Vote { targets } => self.vote(targets),
            Command::Shoot { target } => self.shoot(target),
            Command::Check { target } => self.check(target),
            Command::Guess { targets } => self.guess(targets),
        }
    }
}


impl Engine {
    /// Whether a command is defined here; see [`apply_defined`].
    pub fn can_apply(&self, cmd: &Command) -> (b: bool)
        requires
            self.wf(),
        ensures
            b == apply_defined(self@, cmd@),
    {
        let dealing = match self.state {
            EngineState::Game(Activity::Night(NightActivity::RoleAssignment)) => true,
            _ => false,
        };
        match cmd {
            Command::Start => match self.state {
                EngineState::Lobby(LobbyStatus::Ready) => self.first_speaker_at(self.day.0).is_some(),
                _ => true,
            },
            Command::Advance => self.can_advance(),
            Command::AssignRole => match self.actor.current() {
                None => false,
                Some(p) => !dealing || self.game.player_by_position(p).is_some(),
            },
            Command::RevokeRole => match self.actor.current() {
                None => false,
                Some(p) => !dealing || match self.game.player_by_position(p) {
                    Some(pl) => pl.role().is_some(),
                    None => false,
                },
            },
            Command::Warn { target } => match self.game.player_by_position(*target) {
                Some(pl) => !pl.is_alive() || pl.warnings() < 255,
                None => true,
            },
            _ => true,
        }
    }
}

} // verus!
