use vstd::prelude::*;

use crate::devices::Matcher;
use crate::state::interface::{Interface, InterfaceView};
use crate::state::packet_count::PacketCount;

verus! {

/// Marker for a type that can serve as the shared application state of a
/// service.
pub trait State: Clone + Default + Send + Sync {
}

/// The shared state registry: the set of known interfaces (identified by
/// name, duplicates rejected) plus per-category packet counters.
pub struct AppState {
    interfaces: Vec<Interface>,
    packet_counts: Vec<(Matcher, PacketCount)>,
}

pub fn new() -> (r: AppState)
    ensures
        r.wf(),
        r.interfaces_view() == Seq::<InterfaceView>::empty(),
        r.packet_counts_view() == Seq::<(Matcher, PacketCount)>::empty(),
{
    AppState { interfaces: Vec::new(), packet_counts: Vec::new() }
}

/// How a registry after `update_counts(name, ..)` relates to the registry
/// before: the entry of that name (if any) carries the new counters, every
/// other entry and the per-category counters are untouched.
pub open spec fn spec_counts_updated(
    pre: AppState,
    post: AppState,
    name: Seq<char>,
    pc: PacketCount,
) -> bool {
    &&& post.wf()
    &&& post.packet_counts_view() == pre.packet_counts_view()
    &&& post.interfaces_view().len() == pre.interfaces_view().len()
    &&& forall|i: int|
        0 <= i < pre.interfaces_view().len() && pre.interfaces_view()[i].name != name
            ==> post.interfaces_view()[i] == pre.interfaces_view()[i]
    &&& forall|i: int|
        0 <= i < pre.interfaces_view().len() && pre.interfaces_view()[i].name == name
            ==> post.interfaces_view()[i] == (InterfaceView {
            name: pre.interfaces_view()[i].name,
            counts: pc,
            watching: pre.interfaces_view()[i].watching,
        })
}

/// The sum of the `total` counters over a sequence of interfaces.
pub open spec fn total_of(s: Seq<InterfaceView>) -> int
    decreases s.len(),
{
    if s.len() == 0 {
        0
    } else {
        total_of(s.drop_last()) + s.last().counts.total
    }
}

impl AppState {
    /// The registered interfaces, in registration order.
    pub closed spec fn interfaces_view(&self) -> Seq<InterfaceView> {
        self.interfaces@.map_values(|i: Interface| i@)
    }

    /// The per-category packet counters.
    pub closed spec fn packet_counts_view(&self) -> Seq<(Matcher, PacketCount)> {
        self.packet_counts@
    }

    /// Read access to the per-category packet counters.
    pub fn packet_counts(&self) -> (r: &Vec<(Matcher, PacketCount)>)
        ensures
            r@ == self.packet_counts_view(),
    {
        &self.packet_counts
    }

    /// Well-formed: interface names are pairwise distinct, so a name
    /// identifies at most one entry.
    pub open spec fn wf(&self) -> bool {
        forall|i: int, j: int|
            0 <= i < j < self.interfaces_view().len() ==> self.interfaces_view()[i].name
                != self.interfaces_view()[j].name
    }

    /// Whether an interface of this name is registered.
    pub open spec fn has_iface(&self, name: Seq<char>) -> bool {
        exists|i: int|
            0 <= i < self.interfaces_view().len() && self.interfaces_view()[i].name == name
    }

    /// The position of the interface of this name, if it is registered.
    fn find_iface(&self, name: &String) -> (r: Option<usize>)
        ensures
            match r {
                Some(i) => i < self.interfaces_view().len() && self.interfaces_view()[i as int].name
                    == name@,
                None => !self.has_iface(name@),
            },
    {
        let n = self.interfaces.len();
        for k in 0..n
            invariant
                n == self.interfaces.len(),
                forall|j: int| 0 <= j < k ==> self.interfaces_view()[j].name != name@,
        {
            assert(self.interfaces_view()[k as int] == self.interfaces@[k as int]@);
            if *self.interfaces[k].name() == *name {
                return Some(k);
            }
        }
        None
    }

    /// Insert `iface` unless an interface of the same name is already
    /// registered; a duplicate is rejected and leaves the registry unchanged.
    pub fn register(&mut self, iface: Interface) -> (r: bool)
        requires
            old(self).wf(),
        ensures
            final(self).wf(),
            final(self).packet_counts_view() == old(self).packet_counts_view(),
            r == !old(self).has_iface(iface@.name),
            !r ==> final(self).interfaces_view() == old(self).interfaces_view(),
            r ==> final(self).interfaces_view() == old(self).interfaces_view().push(iface@),
            final(self).has_iface(iface@.name),
    {
        match self.find_iface(iface.name()) {
            Some(_) => false,
            None => {
                self.interfaces.push(iface);
                proof {
                    assert(self.interfaces_view() =~= old(self).interfaces_view().push(iface@));
                    let w = self.interfaces_view().len() - 1;
                    assert(self.interfaces_view()[w].name == iface@.name);
                }
                true
            },
        }
    }

    /// Overwrite the counters of the interface of this name with the
    /// driver's latest statistics; report whether the name was registered.
    /// This is the sole mutation path for registered counters.
    pub fn update_counts(
        &mut self,
        name: &String,
        total: u32,
        os_dropped: u32,
        if_dropped: u32,
    ) -> (r: bool)
        requires
            old(self).wf(),
        ensures
            r == old(self).has_iface(name@),
            spec_counts_updated(
                *old(self),
                *final(self),
                name@,
                (PacketCount { total, os_dropped, if_dropped }),
            ),
    {
        match self.find_iface(name) {
            Some(i) => {
                let elem = &mut self.interfaces[i];
                elem.update_counts(total, os_dropped, if_dropped);
                proof {
                    assert forall|j: int|
                        0 <= j < old(self).interfaces_view().len() && j != i implies self
                        .interfaces_view()[j] == old(self).interfaces_view()[j] by {
                        assert(self.interfaces@[j] == old(self).interfaces@[j]);
                    }
                    assert(self.interfaces_view()[i as int] == self.interfaces@[i as int]@);
                }
                true
            },
            None => false,
        }
    }

    /// The counters of the interface of this name, if it is registered.
    pub fn counters_for(&self, name: &String) -> (r: Option<PacketCount>)
        ensures
            r.is_some() == self.has_iface(name@),
            match r {
                Some(pc) => exists|i: int|
                    0 <= i < self.interfaces_view().len() && self.interfaces_view()[i].name == name@
                        && self.interfaces_view()[i].counts == pc,
                None => !self.has_iface(name@),
            },
    {
        match self.find_iface(name) {
            Some(i) => {
                let pc = self.interfaces[i].counters();
                proof {
                    assert(self.interfaces_view()[i as int] == self.interfaces@[i as int]@);
                }
                Some(pc)
            },
            None => None,
        }
    }

    /// A read-only snapshot for status reporting: each registered
    /// interface's name with its total packet count, in registration order.
    pub fn snapshot_all(&self) -> (r: Vec<(String, u32)>)
        ensures
            r@.len() == self.interfaces_view().len(),
            forall|i: int|
                0 <= i < r@.len() ==> r@[i].0@ == self.interfaces_view()[i].name && r@[i].1
                    == self.interfaces_view()[i].counts.total,
    {
        let n = self.interfaces.len();
        let mut out: Vec<(String, u32)> = Vec::new();
        for k in 0..n
            invariant
                n == self.interfaces.len(),
                out@.len() == k,
                forall|i: int|
                    0 <= i < k ==> out@[i].0@ == self.interfaces_view()[i].name && out@[i].1
                        == self.interfaces_view()[i].counts.total,
        {
            assert(self.interfaces_view()[k as int] == self.interfaces@[k as int]@);
            let name = self.interfaces[k].name().clone();
            let total = self.interfaces[k].count();
            out.push((name, total));
        }
        out
    }

    /// The total packet count over every registered interface, saturating
    /// at the counter type's maximum.
    pub fn total_count(&self) -> (r: u32)
        ensures
            r as int == if total_of(self.interfaces_view()) <= u32::MAX as int {
                total_of(self.interfaces_view())
            } else {
                u32::MAX as int
            },
    {
        let n = self.interfaces.len();
        let mut acc: u32 = 0;
        for k in 0..n
            invariant
                n == self.interfaces.len(),
                acc as int == if total_of(self.interfaces_view().take(k as int)) <= u32::MAX as int {
                    total_of(self.interfaces_view().take(k as int))
                } else {
                    u32::MAX as int
                },
        {
            assert(self.interfaces_view()[k as int] == self.interfaces@[k as int]@);
            proof {
                assert(self.interfaces_view().take(k as int + 1).drop_last() =~= self
                    .interfaces_view()
                    .take(k as int));
                assert(self.interfaces_view().take(k as int + 1).last() == self.interfaces_view()[k
                    as int]);
            }
            let t = self.interfaces[k].count();
            if acc <= u32::MAX - t {
                acc = acc + t;
            } else {
                acc = u32::MAX;
            }
        }
        proof {
            assert(self.interfaces_view().take(n as int) =~= self.interfaces_view());
        }
        acc
    }
}

impl Default for AppState {
    fn default() -> (r: Self)
        ensures
            r.wf(),
            r.interfaces_view() == Seq::<InterfaceView>::empty(),
            r.packet_counts_view() == Seq::<(Matcher, PacketCount)>::empty(),
    {
        AppState { interfaces: Vec::new(), packet_counts: Vec::new() }
    }
}

impl Clone for AppState {
    /// A deep copy with the same mathematical value.
    fn clone(&self) -> (r: Self)
        ensures
            r.interfaces_view() == self.interfaces_view(),
            r.packet_counts_view() == self.packet_counts_view(),
    {
        let n = self.interfaces.len();
        let mut interfaces: Vec<Interface> = Vec::new();
        for k in 0..n
            invariant
                n == self.interfaces.len(),
                interfaces@.len() == k,
                forall|i: int| 0 <= i < k ==> interfaces@[i]@ == self.interfaces@[i]@,
        {
            interfaces.push(self.interfaces[k].clone());
        }
        let m = self.packet_counts.len();
        let mut packet_counts: Vec<(Matcher, PacketCount)> = Vec::new();
        for k in 0..m
            invariant
                m == self.packet_counts.len(),
                packet_counts@.len() == k,
                forall|i: int| 0 <= i < k ==> packet_counts@[i] == self.packet_counts@[i],
        {
            let pair = self.packet_counts[k];
            packet_counts.push(pair);
        }
        let r = AppState { interfaces, packet_counts };
        proof {
            assert(r.interfaces_view() =~= self.interfaces_view());
            assert(r.packet_counts@ =~= self.packet_counts@);
        }
        r
    }
}

impl State for AppState {
}

} // verus!
