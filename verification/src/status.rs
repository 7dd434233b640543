//! The two states an item can be in, which double as the two tabs of the
//! interface.

use vstd::prelude::*;

verus! {

/// Whether an item is still to be done or already done. The same two values
/// name the tab that is on screen.
#[derive(Clone, Copy, Debug, PartialEq, Eq, Structural)]
pub enum Status {
    Todo,
    Done,
}

impl Status {
    /// The other status.
    pub open spec fn toggled(self) -> Status {
        match self {
            Status::Todo => Status::Done,
            Status::Done => Status::Todo,
        }
    }

    /// Switches between the two values.
    pub fn toggle(&self) -> (other: Status)
        ensures
            other == self.toggled(),
    {
        match self {
            Status::Todo => Status::Done,
            Status::Done => Status::Todo,
        }
    }
}

/// Toggling twice leads back to the start, and a single toggle always changes
/// the value.
pub proof fn lemma_toggle_involution(status: Status)
    ensures
        status.toggled().toggled() == status,
        status.toggled() != status,
{
}

} // verus!
