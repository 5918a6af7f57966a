use vstd::prelude::*;

use super::role::Role;
use crate::text::{decimal, push_decimal, push_text};

verus! {

/// Whether a seated player is still in the game.
#[derive(Debug, Default, Clone, Copy, PartialEq, Eq, Structural)]
pub enum LifeStatus {
    #[default]
    Alive,
    Killed,
    Eliminated,
    Removed,
}

/// Penalties that follow from warnings.
#[derive(Debug, Clone, Default)]
struct WarningPenalty {
    pub pending_silence: bool,
}

/// A player seated at the table.
#[derive(Debug, Clone)]
pub struct Player {
    name: String,
    role: Role,
    warnings: u8,
    penalty: WarningPenalty,
    life_status: LifeStatus,
}

/// The abstract state of a [`Player`].
pub struct PlayerView {
    pub name: Seq<char>,
    pub role: Role,
    pub warnings: u8,
    pub silenced: bool,
    pub life_status: LifeStatus,
}

impl View for Player {
    type V = PlayerView;

    closed spec fn view(&self) -> PlayerView {
        PlayerView {
            name: self.name@,
            role: self.role,
            warnings: self.warnings,
            silenced: self.penalty.pending_silence,
            life_status: self.life_status,
        }
    }
}

/// Why a warning could not be changed.
#[derive(Debug, Clone, Copy, PartialEq, Eq, Structural)]
pub enum PlayerError {
    MaxWarningsReached,
    NoWarnings,
}

/// A player after one more warning: the third silences, the fourth removes.
pub open spec fn warned(v: PlayerView) -> PlayerView {
    let w = (v.warnings + 1) as u8;
    PlayerView {
        warnings: w,
        silenced: if w == 3 {
            true
        } else {
            v.silenced
        },
        life_status: if w == 4 {
            LifeStatus::Removed
        } else {
            v.life_status
        },
        ..v
    }
}

/// A player after one warning less: below three the silence is lifted,
/// below four a removed player is back.
pub open spec fn pardoned(v: PlayerView) -> PlayerView {
    let w = (v.warnings - 1) as u8;
    PlayerView {
        warnings: w,
        silenced: if w < 3 {
            false
        } else {
            v.silenced
        },
        life_status: if v.life_status == LifeStatus::Removed && w < 4 {
            LifeStatus::Alive
        } else {
            v.life_status
        },
        ..v
    }
}

/// A player whose silence and status follow from the warnings alone.
pub open spec fn settled(v: PlayerView) -> bool {
    &&& v.warnings <= 4
    &&& v.silenced == (v.warnings >= 3)
    &&& (v.life_status == LifeStatus::Removed) == (v.warnings == 4)
}

/// A warning taken back restores a settled player exactly as before,
/// when the warning did not remove them, or they were alive.
pub proof fn lemma_pardon_undoes_warning(v: PlayerView)
    requires
        settled(v),
        v.warnings < 3 || (v.warnings == 3 && v.life_status == LifeStatus::Alive),
    ensures
        pardoned(warned(v)) == v,
        settled(warned(v)),
{
}

/// The name of a status as it is displayed.
pub open spec fn life_status_name(s: LifeStatus) -> Seq<char> {
    match s {
        LifeStatus::Alive => "Alive"@,
        LifeStatus::Killed => "Killed"@,
        LifeStatus::Eliminated => "Eliminated"@,
        LifeStatus::Removed => "Removed"@,
    }
}

/// The name of a role as a player's description shows it.
pub open spec fn role_label(r: Role) -> Seq<char> {
    match r {
        Role::Citizen => "Citizen"@,
        Role::Mafia => "Mafia"@,
        Role::Don => "Don"@,
        Role::Sheriff => "Sheriff"@,
    }
}

/// How a player reads: name, role, status, warnings, and whether silenced.
pub open spec fn player_text(v: PlayerView) -> Seq<char> {
    v.name + " ("@ + role_label(v.role) + ") – Status: "@ + life_status_name(v.life_status)
        + ", Warnings: "@ + decimal(v.warnings as nat) + if v.silenced {
        ", Silenced"@
    } else {
        ""@
    }
}

impl LifeStatus {
    /// The displayed name of the status.
    pub fn as_str(&self) -> (s: &'static str)
        ensures
            s@ == life_status_name(*self),
    {
        match self {
            LifeStatus::Alive => "Alive",
            LifeStatus::Killed => "Killed",
            LifeStatus::Eliminated => "Eliminated",
            LifeStatus::Removed => "Removed",
        }
    }
}

fn role_text(r: Role) -> (s: &'static str)
    ensures
        s@ == role_label(r),
{
    match r {
        Role::Citizen => "Citizen",
        Role::Mafia => "Mafia",
        Role::Don => "Don",
        Role::Sheriff => "Sheriff",
    }
}

impl Player {
    /// A new player with a name and role.
    pub fn new(name: String, role: Role) -> (p: Player)
        ensures
            p@ == (PlayerView { name: name@, role, warnings: 0, silenced: false, life_status: LifeStatus::Alive }),
    {
        Player { name, role, warnings: 0, penalty: WarningPenalty { pending_silence: false }, life_status: LifeStatus::Alive }
    }

    /// An empty seat's player: no name, a citizen, alive.
    pub fn default() -> (p: Player)
        ensures
            p@ == (PlayerView { name: Seq::empty(), role: Role::Citizen, warnings: 0, silenced: false, life_status: LifeStatus::Alive }),
    {
        Player::new(String::new(), Role::Citizen)
    }

    /// A copy of the player.
    pub fn duplicate(&self) -> (p: Player)
        ensures
            p@ == self@,
    {
        Player {
            name: self.name.clone(),
            role: self.role,
            warnings: self.warnings,
            penalty: WarningPenalty { pending_silence: self.penalty.pending_silence },
            life_status: self.life_status,
        }
    }

    pub fn name(&self) -> (n: &str)
        ensures
            n@ == self@.name,
    {
        self.name.as_str()
    }

    pub fn role(&self) -> (r: Role)
        ensures
            r == self@.role,
    {
        self.role
    }

    pub fn life_status(&self) -> (s: LifeStatus)
        ensures
            s == self@.life_status,
    {
        self.life_status
    }

    pub fn is_alive(&self) -> (b: bool)
        ensures
            b == (self@.life_status == LifeStatus::Alive),
    {
        self.life_status == LifeStatus::Alive
    }

    pub fn is_removed(&self) -> (b: bool)
        ensures
            b == (self@.life_status == LifeStatus::Removed),
    {
        self.life_status == LifeStatus::Removed
    }

    pub fn is_dead(&self) -> (b: bool)
        ensures
            b == (self@.life_status == LifeStatus::Killed || self@.life_status == LifeStatus::Eliminated),
    {
        self.life_status == LifeStatus::Killed || self.life_status == LifeStatus::Eliminated
    }

    pub fn is_eliminated(&self) -> (b: bool)
        ensures
            b == (self@.life_status == LifeStatus::Eliminated),
    {
        self.life_status == LifeStatus::Eliminated
    }

    pub fn warnings(&self) -> (w: u8)
        ensures
            w == self@.warnings,
    {
        self.warnings
    }

    pub fn has_warnings(&self) -> (b: bool)
        ensures
            b == (self@.warnings > 0),
    {
        self.warnings > 0
    }

    pub fn is_silenced(&self) -> (b: bool)
        ensures
            b == self@.silenced,
    {
        self.penalty.pending_silence
    }

    /// Adds a warning, unless the player was removed.
    pub fn increment_warning(&mut self) -> (r: Result<(), PlayerError>)
        requires
            old(self)@.life_status != LifeStatus::Removed ==> old(self)@.warnings < 255,
        ensures
            old(self)@.life_status == LifeStatus::Removed ==> final(self)@ == old(self)@ && r
                == Err::<(), PlayerError>(PlayerError::MaxWarningsReached),
            old(self)@.life_status != LifeStatus::Removed ==> final(self)@ == warned(old(self)@) && r is Ok,
    {
        if self.life_status == LifeStatus::Removed {
            return Err(PlayerError::MaxWarningsReached);
        }
        self.warnings = self.warnings + 1;
        if self.warnings == 3 {
            self.penalty.pending_silence = true;
        } else if self.warnings == 4 {
            self.life_status = LifeStatus::Removed;
        }
        Ok(())
    }

    /// Takes a warning back, if there is one.
    pub fn deincrement_warning(&mut self) -> (r: Result<(), PlayerError>)
        ensures
            old(self)@.warnings == 0 ==> final(self)@ == old(self)@ && r == Err::<(), PlayerError>(
                PlayerError::NoWarnings,
            ),
            old(self)@.warnings > 0 ==> final(self)@ == pardoned(old(self)@) && r is Ok,
    {
        if self.warnings == 0 {
            return Err(PlayerError::NoWarnings);
        }
        self.warnings = self.warnings - 1;
        if self.warnings < 3 {
            self.penalty.pending_silence = false;
        }
        if self.life_status == LifeStatus::Removed && self.warnings < 4 {
            self.life_status = LifeStatus::Alive;
        }
        Ok(())
    }

    pub fn mark_killed(&mut self)
        ensures
            final(self)@ == (PlayerView { life_status: LifeStatus::Killed, ..old(self)@ }),
    {
        self.life_status = LifeStatus::Killed;
    }

    pub fn mark_eliminated(&mut self)
        ensures
            final(self)@ == (PlayerView { life_status: LifeStatus::Eliminated, ..old(self)@ }),
    {
        self.life_status = LifeStatus::Eliminated;
    }

    pub fn mark_removed(&mut self)
        ensures
            final(self)@ == (PlayerView { life_status: LifeStatus::Removed, ..old(self)@ }),
    {
        self.life_status = LifeStatus::Removed;
    }

    pub fn restore_alive(&mut self)
        ensures
            final(self)@ == (PlayerView { life_status: LifeStatus::Alive, ..old(self)@ }),
    {
        self.life_status = LifeStatus::Alive;
    }

    /// How the player reads.
    pub fn to_string(&self) -> (s: String)
        ensures
            s@ == player_text(self@),
    {
        let mut s = String::new();
        push_text(&mut s, self.name.as_str());
        push_text(&mut s, " (");
        push_text(&mut s, role_text(self.role));
        push_text(&mut s, ") – Status: ");
        push_text(&mut s, self.life_status.as_str());
        push_text(&mut s, ", Warnings: ");
        push_decimal(&mut s, self.warnings as u64);
        if self.penalty.pending_silence {
            push_text(&mut s, ", Silenced");
        } else {
            push_text(&mut s, "");
        }
        assert(s@ =~= player_text(self@));
        s
    }
}

} // verus!
