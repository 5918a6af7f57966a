use vstd::prelude::*;

use super::table::chair::Chair;

verus! {

/// A vote as recorded: who voted for whom.
#[derive(Debug, Clone, Copy)]
pub struct Vote {
    pub voter: Chair,
    pub target: Chair,
}

} // verus!
