use vstd::prelude::*;

verus! {

/// Logical seat at the table: created only by the table, used as an
/// identity, immutable and copyable. Its position is one of 1 to 10.
#[derive(Debug, Clone, Copy, PartialEq, Eq, Structural, Hash, Ord, PartialOrd)]
pub struct Chair(u8);

impl View for Chair {
    type V = u8;

    closed spec fn view(&self) -> u8 {
        self.0
    }
}

impl Chair {
    /// Every chair is one of the ten seats.
    #[verifier::type_invariant]
    closed spec fn on_table(self) -> bool {
        1 <= self.0 <= 10
    }

    /// A chair at a given position of the table.
    pub(in crate::engine::state::table) fn new(position: u8) -> (c: Chair)
        requires
            1 <= position <= 10,
        ensures
            c@ == position,
    {
        Chair(position)
    }

    /// The 1-based position of the chair at the table.
    pub fn position(&self) -> (p: u8)
        ensures
            p == self@,
            1 <= p <= 10,
    {
        proof {
            use_type_invariant(self);
        }
        self.0
    }

    /// Chairs at the same position are the same chair.
    pub proof fn lemma_same_position(a: Chair, b: Chair)
        ensures
            a@ == b@ ==> a == b,
    {
    }

    /// How the chair reads: its position.
    pub fn to_string(&self) -> (s: String)
        ensures
            s@ == crate::text::decimal(self@ as nat),
    {
        let mut s = String::new();
        crate::text::push_decimal(&mut s, self.0 as u64);
        assert(s@ =~= crate::text::decimal(self@ as nat));
        s
    }
}

/// Why a chair could not be made.
#[derive(Debug, Clone, Copy, PartialEq, Eq, Structural)]
pub enum ChairError {
    InvalidPosition(u8),
}

} // verus!
