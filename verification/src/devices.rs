use vstd::prelude::*;

use tokio::sync::mpsc::Sender;

use crate::chan::send_blocking;
use crate::frame::{
    spec_summary_of, summarize_frame, FrameSummary, NetLayerInfo, TransportLayerInfo,
};
use crate::state::appstate::{spec_counts_updated, AppState};
use crate::state::interface::{Interface, InterfaceView};
use crate::state::packet_count::PacketCount;

verus! {

/// The protocol category assigned to a captured frame, used as the
/// channel-routing key. A closed enumeration: `Missing` marks a frame with
/// no parseable network layer, `Unexpected` a protocol-layer mismatch
/// (an ICMP version riding on the wrong IP version).
#[allow(non_camel_case_types)]
#[derive(Clone, Copy, Debug, Eq, Hash, PartialEq, Structural)]
pub enum Matcher {
    Arp,
    IPv4_ICMPv4,
    IPv4_TCP,
    IPv4_UDP,
    IPv6_ICMPv6,
    IPv6_TCP,
    IPv6_UDP,
    Missing,
    Unexpected,
}

/// The capture header of one frame: timestamp and lengths, as the driver
/// reported them.
#[derive(Clone, Copy, Debug, Eq, PartialEq, Structural)]
pub struct FrameHeader {
    pub ts_sec: i64,
    pub ts_usec: i64,
    pub caplen: u32,
    pub len: u32,
}

/// One item on a capture channel: either an owned copy of a captured frame,
/// or a snapshot of the driver-level counters.
pub enum ReceivedPacketData {
    MovingPacket { header: FrameHeader, data: Vec<u8> },
    Counts { total: u32, os_dropped: u32, if_dropped: u32 },
}

/// The category of a parsed frame, or `None` for a frame with a known
/// network layer but no parsed transport layer, which is dropped with a
/// diagnostic instead of being routed (an unparsed IP protocol, such as
/// IGMP, falls here).
pub open spec fn spec_classify(net: NetLayerInfo, transport: TransportLayerInfo) -> Option<
    Matcher,
> {
    match net {
        NetLayerInfo::Absent => Some(Matcher::Missing),
        NetLayerInfo::Arp => Some(Matcher::Arp),
        NetLayerInfo::V4 { .. } => match transport {
            TransportLayerInfo::Icmp4 => Some(Matcher::IPv4_ICMPv4),
            TransportLayerInfo::Icmp6 => Some(Matcher::Unexpected),
            TransportLayerInfo::Tcp(_) => Some(Matcher::IPv4_TCP),
            TransportLayerInfo::Udp(_) => Some(Matcher::IPv4_UDP),
            TransportLayerInfo::Igmp => None,
            TransportLayerInfo::Absent => None,
        },
        NetLayerInfo::V6 { .. } => match transport {
            TransportLayerInfo::Icmp4 => Some(Matcher::Unexpected),
            TransportLayerInfo::Icmp6 => Some(Matcher::IPv6_ICMPv6),
            TransportLayerInfo::Tcp(_) => Some(Matcher::IPv6_TCP),
            TransportLayerInfo::Udp(_) => Some(Matcher::IPv6_UDP),
            TransportLayerInfo::Igmp => None,
            TransportLayerInfo::Absent => None,
        },
    }
}

/// Map one parsed frame to its protocol category. A frame without a network
/// layer is always classified `Missing` (it names no protocol).
pub fn classify(net: &NetLayerInfo, transport: &TransportLayerInfo) -> (r: Option<Matcher>)
    ensures
        r == spec_classify(*net, *transport),
        *net == NetLayerInfo::Absent ==> r == Some(Matcher::Missing),
{
    match *net {
        NetLayerInfo::Absent => Some(Matcher::Missing),
        NetLayerInfo::Arp => Some(Matcher::Arp),
        NetLayerInfo::V4 { .. } => match *transport {
            TransportLayerInfo::Icmp4 => Some(Matcher::IPv4_ICMPv4),
            TransportLayerInfo::Icmp6 => Some(Matcher::Unexpected),
            TransportLayerInfo::Tcp(_) => Some(Matcher::IPv4_TCP),
            TransportLayerInfo::Udp(_) => Some(Matcher::IPv4_UDP),
            TransportLayerInfo::Igmp => None,
            TransportLayerInfo::Absent => None,
        },
        NetLayerInfo::V6 { .. } => match *transport {
            TransportLayerInfo::Icmp4 => Some(Matcher::Unexpected),
            TransportLayerInfo::Icmp6 => Some(Matcher::IPv6_ICMPv6),
            TransportLayerInfo::Tcp(_) => Some(Matcher::IPv6_TCP),
            TransportLayerInfo::Udp(_) => Some(Matcher::IPv6_UDP),
            TransportLayerInfo::Igmp => None,
            TransportLayerInfo::Absent => None,
        },
    }
}

/// Configuration for one capture engine, gathered step by step.
pub struct Builder {
    iface_name: Option<String>,
    senders: Vec<(Matcher, Sender<ReceivedPacketData>)>,
    state: Option<AppState>,
}

/// The capture engine for one interface: its name, the table mapping each
/// category to that category's output channel, and the last driver
/// statistics it has seen.
pub struct Devices {
    iface_name: String,
    senders: Vec<(Matcher, Sender<ReceivedPacketData>)>,
    counts_seen: PacketCount,
}

/// Why a capture engine could not be built.
#[derive(Clone, Copy, Debug, Eq, PartialEq, Structural)]
pub enum BuildError {
    NoInterface,
    NoState,
}

pub fn new() -> (r: Builder)
    ensures
        r.wf(),
        r.iface_name_spec() is None,
        r.sender_keys() == Seq::<Matcher>::empty(),
        r.senders_view() == Seq::<(Matcher, Sender<ReceivedPacketData>)>::empty(),
        !r.has_state(),
{
    Builder { iface_name: None, senders: Vec::new(), state: None }
}

/// The position of the sender registered for `m`, if any.
fn find_sender(senders: &Vec<(Matcher, Sender<ReceivedPacketData>)>, m: &Matcher) -> (r: Option<
    usize,
>)
    ensures
        match r {
            Some(i) => i < senders@.len() && senders@[i as int].0 == *m,
            None => forall|j: int| 0 <= j < senders@.len() ==> senders@[j].0 != *m,
        },
{
    let n = senders.len();
    for k in 0..n
        invariant
            n == senders.len(),
            forall|j: int| 0 <= j < k ==> senders@[j].0 != *m,
    {
        if senders[k].0 == *m {
            return Some(k);
        }
    }
    None
}

impl Builder {
    /// The configured interface name, if one was set.
    pub closed spec fn iface_name_spec(&self) -> Option<Seq<char>> {
        match self.iface_name {
            Some(n) => Some(n@),
            None => None,
        }
    }

    /// The channel table: each category with the channel bound to it, in
    /// registration order.
    pub closed spec fn senders_view(&self) -> Seq<(Matcher, Sender<ReceivedPacketData>)> {
        self.senders@
    }

    /// The categories that have an output channel, in registration order.
    pub closed spec fn sender_keys(&self) -> Seq<Matcher> {
        self.senders@.map_values(|p: (Matcher, Sender<ReceivedPacketData>)| p.0)
    }

    /// The category keys are exactly the first components of the table.
    pub proof fn lemma_sender_keys(&self)
        ensures
            self.sender_keys().len() == self.senders_view().len(),
            forall|i: int|
                0 <= i < self.senders_view().len() ==> self.sender_keys()[i]
                    == self.senders_view()[i].0,
    {
    }

    /// Whether a state registry handle was supplied.
    pub closed spec fn has_state(&self) -> bool {
        self.state is Some
    }

    /// The supplied state registry (meaningful only when `has_state()`).
    pub closed spec fn state_spec(&self) -> AppState {
        self.state->Some_0
    }

    /// Well-formed: one channel per category, and a well-formed registry if
    /// one was supplied.
    pub open spec fn wf(&self) -> bool {
        &&& forall|i: int, j: int|
            0 <= i < j < self.sender_keys().len() ==> self.sender_keys()[i]
                != self.sender_keys()[j]
        &&& self.has_state() ==> self.state_spec().wf()
    }

    pub fn set_interface(self, iface_name: String) -> (r: Self)
        ensures
            r.iface_name_spec() == Some(iface_name@),
            r.sender_keys() == self.sender_keys(),
            r.senders_view() == self.senders_view(),
            r.has_state() == self.has_state(),
            r.has_state() ==> r.state_spec() == self.state_spec(),
            r.wf() == self.wf(),
    {
        Builder { iface_name: Some(iface_name), ..self }
    }

    pub fn set_state(self, state: AppState) -> (r: Self)
        requires
            state.wf(),
        ensures
            r.iface_name_spec() == self.iface_name_spec(),
            r.sender_keys() == self.sender_keys(),
            r.senders_view() == self.senders_view(),
            r.has_state(),
            r.state_spec() == state,
            self.wf() ==> r.wf(),
    {
        Builder { state: Some(state), ..self }
    }

    /// Register the output channel for category `m`, replacing a channel
    /// already registered for it.
    pub fn set_typed_sender(self, m: Matcher, sender: Sender<ReceivedPacketData>) -> (r: Self)
        requires
            self.wf(),
        ensures
            r.wf(),
            r.iface_name_spec() == self.iface_name_spec(),
            r.has_state() == self.has_state(),
            r.has_state() ==> r.state_spec() == self.state_spec(),
            self.sender_keys().contains(m) ==> r.sender_keys() == self.sender_keys(),
            !self.sender_keys().contains(m) ==> r.sender_keys() == self.sender_keys().push(m),
            r.sender_keys().contains(m),
            !self.sender_keys().contains(m) ==> r.senders_view() == self.senders_view().push(
                (m, sender),
            ),
            self.sender_keys().contains(m) ==> exists|i: int|
                0 <= i < self.senders_view().len() && self.senders_view()[i].0 == m
                    && r.senders_view() == self.senders_view().update(i, (m, sender)),
    {
        let ghost orig = self;
        let mut b = self;
        match find_sender(&b.senders, &m) {
            Some(i) => {
                proof {
                    assert(b.sender_keys()[i as int] == b.senders@[i as int].0);
                }
                let elem = &mut b.senders[i];
                *elem = (m, sender);
                proof {
                    assert forall|j: int| 0 <= j < b.sender_keys().len() implies b.sender_keys()[j]
                        == orig.sender_keys()[j] by {
                        assert(b.sender_keys()[j] == b.senders@[j].0);
                        assert(orig.sender_keys()[j] == orig.senders@[j].0);
                    }
                    assert(b.sender_keys() =~= orig.sender_keys());
                    assert(orig.sender_keys()[i as int] == m);
                    assert((i as int) < orig.senders_view().len()
                        && orig.senders_view()[i as int].0 == m && b.senders_view()
                        == orig.senders_view().update(i as int, (m, sender)));
                }
                b
            },
            None => {
                proof {
                    assert(!orig.sender_keys().contains(m)) by {
                        assert forall|j: int|
                            0 <= j < orig.sender_keys().len() implies orig.sender_keys()[j]
                            != m by {
                            assert(orig.sender_keys()[j] == orig.senders@[j].0);
                        }
                    }
                }
                b.senders.push((m, sender));
                proof {
                    assert(b.sender_keys() =~= orig.sender_keys().push(m));
                    assert(b.sender_keys()[b.sender_keys().len() - 1] == m);
                }
                b
            },
        }
    }

    /// Complete the configuration: build the engine and register its
    /// interface into the supplied registry exactly once (a name already
    /// registered is kept, not duplicated). A missing interface name or a
    /// missing registry fails this build only.
    pub fn build(self) -> (r: Result<(Devices, AppState), BuildError>)
        requires
            self.wf(),
        ensures
            self.iface_name_spec() is None ==> r == Err::<(Devices, AppState), BuildError>(
                BuildError::NoInterface,
            ),
            self.iface_name_spec() is Some && !self.has_state() ==> r == Err::<
                (Devices, AppState),
                BuildError,
            >(BuildError::NoState),
            self.iface_name_spec() is Some && self.has_state() ==> r is Ok,
            match r {
                Ok((d, st)) => {
                    &&& d.wf()
                    &&& Some(d.iface_name_spec()) == self.iface_name_spec()
                    &&& d.sender_keys() == self.sender_keys()
                    &&& d.senders_view() == self.senders_view()
                    &&& d.counts_seen_spec() == (PacketCount {
                        total: 0,
                        os_dropped: 0,
                        if_dropped: 0,
                    })
                    &&& st.wf()
                    &&& st.has_iface(d.iface_name_spec())
                    &&& st.packet_counts_view() == self.state_spec().packet_counts_view()
                    &&& if self.state_spec().has_iface(d.iface_name_spec()) {
                        st.interfaces_view() == self.state_spec().interfaces_view()
                    } else {
                        st.interfaces_view() == self.state_spec().interfaces_view().push(
                            InterfaceView {
                                name: d.iface_name_spec(),
                                counts: PacketCount { total: 0, os_dropped: 0, if_dropped: 0 },
                                watching: true,
                            },
                        )
                    }
                },
                Err(_) => true,
            },
    {
        let ghost orig = self;
        let Builder { iface_name, senders, state } = self;
        match iface_name {
            None => Err(BuildError::NoInterface),
            Some(name) => match state {
                None => Err(BuildError::NoState),
                Some(mut st) => {
                    let iface = Interface::new(name.clone());
                    let _ = st.register(iface);
                    let d = Devices { iface_name: name, senders, counts_seen: PacketCount::default() };
                    proof {
                        assert(d.sender_keys() =~= orig.sender_keys());
                    }
                    Ok((d, st))
                },
            },
        }
    }
}

/// One observation of the capture loop: a captured frame, the periodic
/// poll-timeout tick carrying the driver statistics, another capture fault,
/// or the cancellation signal.
pub enum CaptureEvent {
    Packet { header: FrameHeader, data: Vec<u8> },
    TimeoutTick { total: u32, os_dropped: u32, if_dropped: u32 },
    CaptureFault,
    Cancelled,
}

/// What one step of the capture loop did with its event.
#[derive(Clone, Copy, Debug, Eq, PartialEq, Structural)]
pub enum CaptureOutcome {
    /// The cancellation signal was observed: leave the loop, release the
    /// device.
    Exit,
    /// The frame went out on its category's channel; `delivered` is false
    /// when that channel's receiver half was gone.
    Sent { category: Matcher, delivered: bool },
    /// A frame with no parseable network layer is never forwarded.
    DroppedNoNetworkLayer,
    /// No channel is registered for the frame's category: dropped silently.
    DroppedNoSender { category: Matcher },
    /// A known network layer without a parsed transport layer: dropped with
    /// a diagnostic naming the raw IP protocol number.
    DroppedNoTransport { v6: bool, ip_number: u8 },
    /// The frame did not parse: dropped, the loop continues.
    DroppedMalformed,
    /// The poll-timeout tick; `changed` reports whether the driver
    /// statistics moved and the registry was updated.
    CountsRefreshed { changed: bool },
    /// Any other capture error: logged, the loop continues.
    FaultLogged,
}

/// How the routing of one parsed frame relates its summary, the
/// categories that have a channel, and the step's outcome: the frame goes
/// out exactly on its own category's channel, a frame with no network
/// layer is never forwarded, and the drop taxonomy is as classified.
pub open spec fn spec_dispatched(
    keys: Seq<Matcher>,
    summary: FrameSummary,
    r: CaptureOutcome,
) -> bool {
    match spec_classify(summary.net, summary.transport) {
        Some(m) => if m == Matcher::Missing {
            r == CaptureOutcome::DroppedNoNetworkLayer
        } else if keys.contains(m) {
            r matches CaptureOutcome::Sent { category, .. } && category == m
        } else {
            r == (CaptureOutcome::DroppedNoSender { category: m })
        },
        None => match summary.net {
            NetLayerInfo::V4 { ip_number, .. } => r == (CaptureOutcome::DroppedNoTransport {
                v6: false,
                ip_number,
            }),
            NetLayerInfo::V6 { ip_number } => r == (CaptureOutcome::DroppedNoTransport {
                v6: true,
                ip_number,
            }),
            _ => true,
        },
    }
}

impl Devices {
    /// This engine's interface name.
    pub closed spec fn iface_name_spec(&self) -> Seq<char> {
        self.iface_name@
    }

    /// The channel table: each category with the channel bound to it.
    pub closed spec fn senders_view(&self) -> Seq<(Matcher, Sender<ReceivedPacketData>)> {
        self.senders@
    }

    /// The categories that have an output channel.
    pub closed spec fn sender_keys(&self) -> Seq<Matcher> {
        self.senders@.map_values(|p: (Matcher, Sender<ReceivedPacketData>)| p.0)
    }

    /// The category keys are exactly the first components of the table.
    pub proof fn lemma_sender_keys(&self)
        ensures
            self.sender_keys().len() == self.senders_view().len(),
            forall|i: int|
                0 <= i < self.senders_view().len() ==> self.sender_keys()[i]
                    == self.senders_view()[i].0,
    {
    }

    /// The driver statistics as of the last refresh.
    pub closed spec fn counts_seen_spec(&self) -> PacketCount {
        self.counts_seen
    }

    /// Well-formed: one channel per category.
    pub open spec fn wf(&self) -> bool {
        forall|i: int, j: int|
            0 <= i < j < self.sender_keys().len() ==> self.sender_keys()[i]
                != self.sender_keys()[j]
    }

    /// Read access to the interface name.
    pub fn interface_name(&self) -> (r: &String)
        ensures
            r@ == self.iface_name_spec(),
    {
        &self.iface_name
    }

    /// Route one parsed frame: look up the channel of its category and
    /// forward the frame on it, or drop the frame as the category demands.
    /// A frame with no network layer is never forwarded to any channel.
    pub fn dispatch(&self, header: FrameHeader, data: Vec<u8>, summary: &FrameSummary) -> (r:
        CaptureOutcome)
        ensures
            spec_dispatched(self.sender_keys(), *summary, r),
            summary.net == NetLayerInfo::Absent ==> r == CaptureOutcome::DroppedNoNetworkLayer,
    {
        match classify(&summary.net, &summary.transport) {
            None => match summary.net {
                NetLayerInfo::V4 { ip_number, .. } => CaptureOutcome::DroppedNoTransport {
                    v6: false,
                    ip_number,
                },
                NetLayerInfo::V6 { ip_number } => CaptureOutcome::DroppedNoTransport {
                    v6: true,
                    ip_number,
                },
                NetLayerInfo::Absent | NetLayerInfo::Arp => {
                    proof {
                        assert(false);
                    }
                    CaptureOutcome::DroppedMalformed
                },
            },
            Some(m) => {
                if m == Matcher::Missing {
                    CaptureOutcome::DroppedNoNetworkLayer
                } else {
                    match find_sender(&self.senders, &m) {
                        Some(i) => {
                            proof {
                                assert(self.sender_keys()[i as int] == self.senders@[i as int].0);
                            }
                            let delivered = send_blocking(
                                &self.senders[i].1,
                                ReceivedPacketData::MovingPacket { header, data },
                            );
                            CaptureOutcome::Sent { category: m, delivered }
                        },
                        None => {
                            proof {
                                assert(!self.sender_keys().contains(m)) by {
                                    assert forall|j: int|
                                        0 <= j < self.sender_keys().len() implies self
                                        .sender_keys()[j] != m by {
                                        assert(self.sender_keys()[j] == self.senders@[j].0);
                                    }
                                }
                            }
                            CaptureOutcome::DroppedNoSender { category: m }
                        },
                    }
                }
            },
        }
    }

    /// One iteration of the capture loop, as a function of the observed
    /// event. Cancellation exits; a captured frame is classified and
    /// routed; the poll-timeout tick refreshes the registry's counters
    /// exactly when the driver statistics moved (the sole counter write
    /// path); any other fault only keeps the loop alive.
    pub fn capture_step(&mut self, state: &mut AppState, event: CaptureEvent) -> (r: CaptureOutcome)
        requires
            old(self).wf(),
            old(state).wf(),
        ensures
            final(self).wf(),
            final(state).wf(),
            final(self).iface_name_spec() == old(self).iface_name_spec(),
            final(self).sender_keys() == old(self).sender_keys(),
            event matches CaptureEvent::Cancelled ==> r == CaptureOutcome::Exit && *final(self)
                == *old(self) && *final(state) == *old(state),
            event matches CaptureEvent::CaptureFault ==> r == CaptureOutcome::FaultLogged
                && *final(self) == *old(self) && *final(state) == *old(state),
            event matches CaptureEvent::Packet { .. } ==> *final(state) == *old(state)
                && final(self).counts_seen_spec() == old(self).counts_seen_spec()
                && !(r matches CaptureOutcome::Exit)
                && !(r matches CaptureOutcome::CountsRefreshed { .. })
                && !(r matches CaptureOutcome::FaultLogged),
            event matches CaptureEvent::Packet { data, .. } ==> match spec_summary_of(data@) {
                None => r == CaptureOutcome::DroppedMalformed,
                Some(s) => spec_dispatched(old(self).sender_keys(), s, r),
            },
            r matches CaptureOutcome::Sent { category, .. } ==> old(self).sender_keys().contains(
                category,
            ),
            event matches CaptureEvent::TimeoutTick { total, os_dropped, if_dropped } ==> ({
                let pc = PacketCount { total, os_dropped, if_dropped };
                if pc == old(self).counts_seen_spec() {
                    r == (CaptureOutcome::CountsRefreshed { changed: false }) && *final(self)
                        == *old(self) && *final(state) == *old(state)
                } else {
                    r == (CaptureOutcome::CountsRefreshed { changed: true })
                        && final(self).counts_seen_spec() == pc
                        && spec_counts_updated(
                        *old(state),
                        *final(state),
                        old(self).iface_name_spec(),
                        pc,
                    )
                }
            }),
    {
        let r = match event {
            CaptureEvent::Cancelled => CaptureOutcome::Exit,
            CaptureEvent::CaptureFault => CaptureOutcome::FaultLogged,
            CaptureEvent::Packet { header, data } => {
                let summary = summarize_frame(data.as_slice());
                match summary {
                    None => CaptureOutcome::DroppedMalformed,
                    Some(s) => self.dispatch(header, data, &s),
                }
            },
            CaptureEvent::TimeoutTick { total, os_dropped, if_dropped } => {
                if total == self.counts_seen.total && os_dropped == self.counts_seen.os_dropped
                    && if_dropped == self.counts_seen.if_dropped {
                    CaptureOutcome::CountsRefreshed { changed: false }
                } else {
                    self.counts_seen = PacketCount { total, os_dropped, if_dropped };
                    let _ = state.update_counts(&self.iface_name, total, os_dropped, if_dropped);
                    CaptureOutcome::CountsRefreshed { changed: true }
                }
            },
        };
        proof {
            assert(self.sender_keys() =~= old(self).sender_keys());
        }
        r
    }
}

} // verus!
