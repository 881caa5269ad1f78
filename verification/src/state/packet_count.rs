use vstd::prelude::*;

verus! {

/// Driver-level packet counters for one interface: total frames received,
/// frames dropped by the OS, and frames dropped by the interface itself.
/// Refreshed only on a capture-timeout tick and never decremented.
#[derive(Clone, Copy, Debug, PartialEq, Eq, Structural)]
pub struct PacketCount {
    pub total: u32,
    pub os_dropped: u32,
    pub if_dropped: u32,
}

impl Default for PacketCount {
    fn default() -> (r: Self)
        ensures
            r == (PacketCount { total: 0, os_dropped: 0, if_dropped: 0 }),
    {
        PacketCount { total: 0, os_dropped: 0, if_dropped: 0 }
    }
}

} // verus!
