use vstd::prelude::*;

use crate::state::packet_count::PacketCount;

verus! {

/// One registered network interface: an immutable name that serves as its
/// identity, its mutable packet counters, and a watching flag.
pub struct Interface {
    name: String,
    counts: PacketCount,
    watching: bool,
}

/// The mathematical value of an [`Interface`].
pub struct InterfaceView {
    pub name: Seq<char>,
    pub counts: PacketCount,
    pub watching: bool,
}

impl View for Interface {
    type V = InterfaceView;

    closed spec fn view(&self) -> InterfaceView {
        InterfaceView { name: self.name@, counts: self.counts, watching: self.watching }
    }
}

impl Interface {
    pub fn new(name: String) -> (r: Interface)
        ensures
            r@ == (InterfaceView {
                name: name@,
                counts: PacketCount { total: 0, os_dropped: 0, if_dropped: 0 },
                watching: true,
            }),
    {
        Interface { name, counts: PacketCount::default(), watching: true }
    }

    /// The total number of frames the driver has reported for this interface.
    pub fn count(&self) -> (r: u32)
        ensures
            r == self@.counts.total,
    {
        self.counts.total
    }

    /// Overwrite all three counters with the driver's latest statistics.
    /// This is the sole mutation path for the counters.
    pub fn update_counts(&mut self, total: u32, os_dropped: u32, if_dropped: u32)
        ensures
            final(self)@ == (InterfaceView {
                name: old(self)@.name,
                counts: PacketCount { total, os_dropped, if_dropped },
                watching: old(self)@.watching,
            }),
    {
        self.counts = PacketCount { total, os_dropped, if_dropped };
    }

    /// Read access to the interface name.
    pub fn name(&self) -> (r: &String)
        ensures
            r@ == self@.name,
    {
        &self.name
    }

    /// A copy of all three counters.
    pub fn counters(&self) -> (r: PacketCount)
        ensures
            r == self@.counts,
    {
        self.counts
    }
}

impl Clone for Interface {
    fn clone(&self) -> (r: Self)
        ensures
            r@ == self@,
    {
        Interface { name: self.name.clone(), counts: self.counts, watching: self.watching }
    }
}

impl PartialEq for Interface {
    /// Interfaces are equal exactly when their names are: the name is the
    /// identity, the counters are mutable payload.
    fn eq(&self, other: &Self) -> bool {
        self.name == other.name
    }
}

impl vstd::std_specs::cmp::PartialEqSpecImpl for Interface {
    open spec fn obeys_eq_spec() -> bool {
        true
    }

    open spec fn eq_spec(&self, other: &Self) -> bool {
        self@.name == other@.name
    }
}

impl Eq for Interface {}

} // verus!
