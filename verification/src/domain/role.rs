use vstd::prelude::*;

use crate::text::{concat, equals_literal, lowercase, to_lowercase};

verus! {

/// The secret role a player holds.
#[derive(Debug, Default, Clone, Copy, PartialEq, Eq, Structural, Hash)]
pub enum Role {
    #[default]
    Citizen,
    Mafia,
    Don,
    Sheriff,
}

/// The name of a role as it is displayed.
pub open spec fn role_name(r: Role) -> Seq<char> {
    match r {
        Role::Citizen => "Citizen"@,
        Role::Mafia => "Mafia"@,
        Role::Don => "Don"@,
        Role::Sheriff => "Sheriff"@,
    }
}

/// The role a lowercase name stands for, if any.
pub open spec fn role_from_lowercase(s: Seq<char>) -> Option<Role> {
    if s == "citizen"@ {
        Some(Role::Citizen)
    } else if s == "mafia"@ {
        Some(Role::Mafia)
    } else if s == "don"@ {
        Some(Role::Don)
    } else if s == "sheriff"@ {
        Some(Role::Sheriff)
    } else {
        None
    }
}

impl Role {
    /// The displayed name of the role.
    pub fn as_str(self) -> (s: &'static str)
        ensures
            s@ == role_name(self),
    {
        match self {
            Role::Citizen => "Citizen",
            Role::Mafia => "Mafia",
            Role::Don => "Don",
            Role::Sheriff => "Sheriff",
        }
    }

    /// Reads a role name already in lowercase.
    pub fn parse_lowercase(lower: &String) -> (r: Result<Role, String>)
        ensures
            role_from_lowercase(lower@) matches Some(role) ==> r == Ok::<Role, String>(role),
            role_from_lowercase(lower@) is None ==> (r matches Err(msg) && msg@ == "Invalid role: "@ + lower@),
    {
        if equals_literal(lower, "citizen") {
            Ok(Role::Citizen)
        } else if equals_literal(lower, "mafia") {
            Ok(Role::Mafia)
        } else if equals_literal(lower, "don") {
            Ok(Role::Don)
        } else if equals_literal(lower, "sheriff") {
            Ok(Role::Sheriff)
        } else {
            Err(concat("Invalid role: ", lower.as_str()))
        }
    }

    /// Parses a role name, ignoring case.
    pub fn parse(s: &str) -> (r: Result<Role, String>)
        ensures
            role_from_lowercase(lowercase(s@)) matches Some(role) ==> r == Ok::<Role, String>(role),
            role_from_lowercase(lowercase(s@)) is None ==> (r matches Err(msg)
                && msg@ == "Invalid role: "@ + lowercase(s@)),
    {
        let lower = to_lowercase(s);
        Self::parse_lowercase(&lower)
    }
}

impl std::str::FromStr for Role {
    type Err = String;

    fn from_str(s: &str) -> (r: Result<Role, String>)
        ensures
            role_from_lowercase(lowercase(s@)) matches Some(role) ==> r == Ok::<Role, String>(role),
            role_from_lowercase(lowercase(s@)) is None ==> (r matches Err(msg)
                && msg@ == "Invalid role: "@ + lowercase(s@)),
    {
        Role::parse(s)
    }
}

} // verus!
