use vstd::prelude::*;

use crate::state::appstate::{total_of, AppState};

verus! {

/// The status answer: the total packet count over every registered
/// interface.
#[derive(Clone, Copy, Debug, Eq, PartialEq, Structural)]
pub struct Statistics {
    total_packet_count: u32,
}

impl Statistics {
    /// The reported total.
    pub closed spec fn total_spec(&self) -> u32 {
        self.total_packet_count
    }

    /// The reported total.
    pub fn total_packet_count(&self) -> (r: u32)
        ensures
            r == self.total_spec(),
    {
        self.total_packet_count
    }
}

/// Answer one status query: fold the interfaces' totals (saturating at the
/// counter type's maximum) into the statistics record.
pub fn process(state: &AppState) -> (r: Statistics)
    ensures
        r.total_spec() as int == if total_of(state.interfaces_view()) <= u32::MAX as int {
            total_of(state.interfaces_view())
        } else {
            u32::MAX as int
        },
{
    Statistics { total_packet_count: state.total_count() }
}

} // verus!
