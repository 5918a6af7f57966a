use vstd::prelude::*;

use super::table::chair::Chair;

verus! {

/// A nomination as recorded: who nominated whom.
#[derive(Debug, Clone, Copy)]
pub struct Nomination {
    pub by: Chair,
    pub target: Chair,
}

} // verus!
