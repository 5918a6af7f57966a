use vstd::prelude::*;

use crate::text::{concat, equals_literal, lowercase, to_lowercase};

verus! {

/// Player status in the game
#[derive(Debug, Clone, Copy, PartialEq, Eq, Structural)]
pub enum Status {
    Alive,
    Dead,
    Eliminated,
    Removed,
}

/// The name of a status as it is displayed.
pub open spec fn status_name(s: Status) -> Seq<char> {
    match s {
        Status::Alive => "alive"@,
        Status::Dead => "dead"@,
        Status::Eliminated => "eliminated"@,
        Status::Removed => "removed"@,
    }
}

/// The status a lowercase name stands for, if any.
pub open spec fn status_from_lowercase(s: Seq<char>) -> Option<Status> {
    if s == "alive"@ {
        Some(Status::Alive)
    } else if s == "dead"@ {
        Some(Status::Dead)
    } else if s == "eliminated"@ {
        Some(Status::Eliminated)
    } else if s == "removed"@ {
        Some(Status::Removed)
    } else {
        None
    }
}

impl Status {
    /// The displayed name of the status.
    pub fn as_str(self) -> (s: &'static str)
        ensures
            s@ == status_name(self),
    {
        match self {
            Status::Alive => "alive",
            Status::Dead => "dead",
            Status::Eliminated => "eliminated",
            Status::Removed => "removed",
        }
    }

    /// Reads a status name already in lowercase.
    pub fn parse_lowercase(lower: &String) -> (r: Result<Status, String>)
        ensures
            status_from_lowercase(lower@) matches Some(st) ==> r == Ok::<Status, String>(st),
            status_from_lowercase(lower@) is None ==> (r matches Err(msg) && msg@ == "Invalid status: "@ + lower@),
    {
        if equals_literal(lower, "alive") {
            Ok(Status::Alive)
        } else if equals_literal(lower, "dead") {
            Ok(Status::Dead)
        } else if equals_literal(lower, "eliminated") {
            Ok(Status::Eliminated)
        } else if equals_literal(lower, "removed") {
            Ok(Status::Removed)
        } else {
            Err(concat("Invalid status: ", lower.as_str()))
        }
    }

    /// Parses a status name, ignoring case.
    pub fn parse(s: &str) -> (r: Result<Status, String>)
        ensures
            status_from_lowercase(lowercase(s@)) matches Some(st) ==> r == Ok::<Status, String>(st),
            status_from_lowercase(lowercase(s@)) is None ==> (r matches Err(msg)
                && msg@ == "Invalid status: "@ + lowercase(s@)),
    {
        let lower = to_lowercase(s);
        Self::parse_lowercase(&lower)
    }
}

impl std::str::FromStr for Status {
    type Err = String;

    fn from_str(s: &str) -> (r: Result<Status, String>)
        ensures
            status_from_lowercase(lowercase(s@)) matches Some(st) ==> r == Ok::<Status, String>(st),
            status_from_lowercase(lowercase(s@)) is None ==> (r matches Err(msg)
                && msg@ == "Invalid status: "@ + lowercase(s@)),
    {
        Status::parse(s)
    }
}

} // verus!
