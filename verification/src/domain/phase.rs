use vstd::prelude::*;

use crate::text::{decimal, push_decimal};

verus! {

/// The four parts of a game day.
#[derive(Debug, Clone, Copy, PartialEq, Eq, Structural)]
pub enum Day {
    Night,
    Morning,
    Noon,
    Evening,
}

impl Day {
    /// The label shown for this part of the day.
    pub fn label(&self) -> (s: &'static str)
        ensures
            s@ == match *self {
                Day::Night => "Night"@,
                Day::Morning => "Mornig"@,
                Day::Noon => "Noon"@,
                Day::Evening => "Evening"@,
            },
    {
        match self {
            Day::Night => "Night",
            Day::Morning => "Mornig",
            Day::Noon => "Noon",
            Day::Evening => "Evening",
        }
    }
}

#[derive(Debug, Clone, Copy, PartialEq, Eq, Structural)]
pub enum NightActivity {
    /// Game setup, zero night only.
    RoleAssignment,
    SheriffReveal,
    DonReveal,
    MafiaBriefing,
    MafiaShooting,
    SheriffCheck,
    DonCheck,
}

impl NightActivity {
    pub fn label(&self) -> (s: &'static str)
        ensures
            s@ == match *self {
                NightActivity::RoleAssignment => "Role Assignment"@,
                NightActivity::SheriffReveal => "Sheriff Reveal"@,
                NightActivity::DonReveal => "Don Reveal"@,
                NightActivity::MafiaBriefing => "Mafia Briefing"@,
                NightActivity::MafiaShooting => "Mafia Shooting"@,
                NightActivity::SheriffCheck => "Sheriff Check"@,
                NightActivity::DonCheck => "Don Check"@,
            },
    {
        match self {
            NightActivity::RoleAssignment => "Role Assignment",
            NightActivity::SheriffReveal => "Sheriff Reveal",
            NightActivity::DonReveal => "Don Reveal",
            NightActivity::MafiaBriefing => "Mafia Briefing",
            NightActivity::MafiaShooting => "Mafia Shooting",
            NightActivity::SheriffCheck => "Sheriff Check",
            NightActivity::DonCheck => "Don Check",
        }
    }
}

#[derive(Debug, Clone, Copy, PartialEq, Eq, Structural)]
pub enum MorningActivity {
    /// Optional, single actor.
    DeathSpeech,
    /// Optional, single actor, three guesses.
    Guessing,
}

impl MorningActivity {
    pub fn label(&self) -> (s: &'static str)
        ensures
            s@ == match *self {
                MorningActivity::DeathSpeech => "Death Speech"@,
                MorningActivity::Guessing => "Guessing"@,
            },
    {
        match self {
            MorningActivity::DeathSpeech => "Death Speech",
            MorningActivity::Guessing => "Guessing",
        }
    }
}

#[derive(Debug, Clone, Copy, PartialEq, Eq, Structural)]
pub enum NoonActivity {
    Discussion,
}

impl NoonActivity {
    pub fn label(&self) -> (s: &'static str)
        ensures
            s@ == "Discussion"@,
    {
        match self {
            NoonActivity::Discussion => "Discussion",
        }
    }
}

#[derive(Debug, Clone, Copy, PartialEq, Eq, Structural)]
pub enum EveningActivity {
    NominationAnnouncement,
    Voting,
    TieDiscussion,
    TieVoting,
    FinalVoting,
    FinalSpeech,
}

impl EveningActivity {
    pub fn label(&self) -> (s: &'static str)
        ensures
            s@ == match *self {
                EveningActivity::NominationAnnouncement => "Nomination Announcement"@,
                EveningActivity::Voting => "Voting"@,
                EveningActivity::TieDiscussion => "Tie Discussion"@,
                EveningActivity::TieVoting => "Tie Voting"@,
                EveningActivity::FinalVoting => "Final Voting"@,
                EveningActivity::FinalSpeech => "Final Speech"@,
            },
    {
        match self {
            EveningActivity::NominationAnnouncement => "Nomination Announcement",
            EveningActivity::Voting => "Voting",
            EveningActivity::TieDiscussion => "Tie Discussion",
            EveningActivity::TieVoting => "Tie Voting",
            EveningActivity::FinalVoting => "Final Voting",
            EveningActivity::FinalSpeech => "Final Speech",
        }
    }
}

/// What happens at the table right now.
#[derive(Debug, Clone, Copy, PartialEq, Eq, Structural)]
pub enum Activity {
    Night(NightActivity),
    Morning(MorningActivity),
    Noon(NoonActivity),
    Evening(EveningActivity),
}

/// The part of the day an activity belongs to.
pub open spec fn daytime_of(a: Activity) -> Day {
    match a {
        Activity::Night(_) => Day::Night,
        Activity::Morning(_) => Day::Morning,
        Activity::Noon(_) => Day::Noon,
        Activity::Evening(_) => Day::Evening,
    }
}

impl Activity {
    pub fn daytime(&self) -> (d: Day)
        ensures
            d == daytime_of(*self),
    {
        match self {
            Activity::Night(_) => Day::Night,
            Activity::Morning(_) => Day::Morning,
            Activity::Noon(_) => Day::Noon,
            Activity::Evening(_) => Day::Evening,
        }
    }

    /// The label of the inner activity.
    pub fn label(&self) -> (s: &'static str)
        ensures
            s@ == match *self {
                Activity::Night(a) => match a {
                    NightActivity::RoleAssignment => "Role Assignment"@,
                    NightActivity::SheriffReveal => "Sheriff Reveal"@,
                    NightActivity::DonReveal => "Don Reveal"@,
                    NightActivity::MafiaBriefing => "Mafia Briefing"@,
                    NightActivity::MafiaShooting => "Mafia Shooting"@,
                    NightActivity::SheriffCheck => "Sheriff Check"@,
                    NightActivity::DonCheck => "Don Check"@,
                },
                Activity::Morning(a) => match a {
                    MorningActivity::DeathSpeech => "Death Speech"@,
                    MorningActivity::Guessing => "Guessing"@,
                },
                Activity::Noon(_) => "Discussion"@,
                Activity::Evening(a) => match a {
                    EveningActivity::NominationAnnouncement => "Nomination Announcement"@,
                    EveningActivity::Voting => "Voting"@,
                    EveningActivity::TieDiscussion => "Tie Discussion"@,
                    EveningActivity::TieVoting => "Tie Voting"@,
                    EveningActivity::FinalVoting => "Final Voting"@,
                    EveningActivity::FinalSpeech => "Final Speech"@,
                },
            },
    {
        match self {
            Activity::Night(a) => a.label(),
            Activity::Morning(a) => a.label(),
            Activity::Noon(a) => a.label(),
            Activity::Evening(a) => a.label(),
        }
    }
}

/// The number of the current game day, counted from zero.
#[derive(Debug, Default, Clone, Copy, PartialEq, Eq, Structural, PartialOrd, Ord, Hash)]
pub struct DayIndex(pub usize);

impl DayIndex {
    pub fn new(value: usize) -> (d: DayIndex)
        ensures
            d.0 == value,
    {
        DayIndex(value)
    }

    pub fn is_first(&self) -> (b: bool)
        ensures
            b == (self.0 == 0),
    {
        self.0 == 0
    }

    /// How the day number reads.
    pub fn to_string(&self) -> (s: String)
        ensures
            s@ == decimal(self.0 as nat),
    {
        let mut s = String::new();
        push_decimal(&mut s, self.0 as u64);
        assert(s@ =~= decimal(self.0 as nat));
        s
    }

    pub fn is_second(&self) -> (b: bool)
        ensures
            b == (self.0 == 1),
    {
        self.0 == 1
    }

    pub fn current(&self) -> (v: usize)
        ensures
            v == self.0,
    {
        self.0
    }

    pub fn next(&self) -> (d: DayIndex)
        requires
            self.0 < usize::MAX,
        ensures
            d.0 == self.0 + 1,
    {
        DayIndex(self.current() + 1)
    }

    pub fn previous(&self) -> (d: Option<DayIndex>)
        ensures
            self.0 == 0 ==> d is None,
            self.0 > 0 ==> d == Some(DayIndex((self.0 - 1) as usize)),
    {
        if self.0 == 0 {
            None
        } else {
            Some(DayIndex(self.current() - 1))
        }
    }

    pub fn advance(&mut self)
        requires
            old(self).0 < usize::MAX,
        ensures
            final(self).0 == old(self).0 + 1,
    {
        self.0 = self.0 + 1;
    }
}

impl From<DayIndex> for usize {
    fn from(day: DayIndex) -> (v: usize) {
        day.0
    }
}

impl vstd::std_specs::convert::FromSpecImpl<DayIndex> for usize {
    open spec fn obeys_from_spec() -> bool {
        true
    }

    open spec fn from_spec(v: DayIndex) -> usize {
        v.0
    }
}

impl From<usize> for DayIndex {
    fn from(value: usize) -> (d: DayIndex) {
        DayIndex(value)
    }
}

impl vstd::std_specs::convert::FromSpecImpl<usize> for DayIndex {
    open spec fn obeys_from_spec() -> bool {
        true
    }

    open spec fn from_spec(v: usize) -> DayIndex {
        DayIndex(v)
    }
}

} // verus!
