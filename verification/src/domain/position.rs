use vstd::prelude::*;

use crate::snapshot::Snapshot;
use crate::text::{decimal, push_decimal};

verus! {

/// A seat number at the table (1-based).
#[derive(Debug, Clone, Copy, PartialEq, Eq, Structural, Hash, PartialOrd, Ord)]
pub struct Position(pub u8);

/// The emoji shown for a seat number; seats outside 1..=10 show "?".
pub open spec fn emoji_of(value: u8) -> Seq<char> {
    if value == 1 {
        "1️⃣"@
    } else if value == 2 {
        "2️⃣"@
    } else if value == 3 {
        "3️⃣"@
    } else if value == 4 {
        "4️⃣"@
    } else if value == 5 {
        "5️⃣"@
    } else if value == 6 {
        "6️⃣"@
    } else if value == 7 {
        "7️⃣"@
    } else if value == 8 {
        "8️⃣"@
    } else if value == 9 {
        "9️⃣"@
    } else if value == 10 {
        "🔟"@
    } else {
        "?"@
    }
}

impl Snapshot for Position {
    type Output = Position;

    fn snapshot(&self) -> (p: Position)
        ensures
            p == *self,
    {
        *self
    }
}

impl From<u8> for Position {
    fn from(value: u8) -> (p: Position) {
        Position(value)
    }
}

impl vstd::std_specs::convert::FromSpecImpl<u8> for Position {
    open spec fn obeys_from_spec() -> bool {
        true
    }

    open spec fn from_spec(v: u8) -> Position {
        Position(v)
    }
}

impl From<Position> for u8 {
    fn from(pos: Position) -> (v: u8) {
        pos.0
    }
}

impl vstd::std_specs::convert::FromSpecImpl<Position> for u8 {
    open spec fn obeys_from_spec() -> bool {
        true
    }

    open spec fn from_spec(v: Position) -> u8 {
        v.0
    }
}

impl Position {
    /// How the seat number reads.
    pub fn to_string(&self) -> (s: String)
        ensures
            s@ == decimal(self.0 as nat),
    {
        let mut s = String::new();
        push_decimal(&mut s, self.0 as u64);
        assert(s@ =~= decimal(self.0 as nat));
        s
    }

    /// Creates a position.
    ///
    /// This constructor is intentionally infallible.
    /// Validity is enforced by the game rules, not by Position itself.
    pub fn new(value: u8) -> (p: Position)
        ensures
            p.0 == value,
    {
        Position(value)
    }

    pub fn value(self) -> (v: u8)
        ensures
            v == self.0,
    {
        self.0
    }

    pub fn as_emoji(&self) -> (s: &'static str)
        ensures
            s@ == emoji_of(self.0),
    {
        match self.0 {
            1 => "1️⃣",
            2 => "2️⃣",
            3 => "3️⃣",
            4 => "4️⃣",
            5 => "5️⃣",
            6 => "6️⃣",
            7 => "7️⃣",
            8 => "8️⃣",
            9 => "9️⃣",
            10 => "🔟",
            _ => "?",
        }
    }
}

} // verus!
