use vstd::prelude::*;

use tokio::sync::mpsc::Receiver;

use crate::devices::ReceivedPacketData;
use crate::frame::{
    spec_summary_of, summarize_frame, FrameSummary, NetLayerInfo, TcpSegmentInfo,
    TransportLayerInfo,
};
use crate::packet_listeners::listener::{spec_sat_inc64, BuildError, ListenerEvent, ListenerOutcome};

verus! {

/// The identity of one directional TCP flow: source and destination
/// address (big-endian byte order packed into an integer) and port.
/// Reverse-direction traffic is a distinct key by design: tracking is per
/// half-connection.
#[derive(Clone, Copy, Debug, Eq, Hash, PartialEq, Structural)]
pub struct FlowKey {
    pub src_ip: u32,
    pub src_port: u16,
    pub dst_ip: u32,
    pub dst_port: u16,
}

/// The tracked state of one flow: the last-seen sequence number and how
/// many segments have been counted against the flow.
#[derive(Clone, Copy, Debug, Eq, PartialEq, Structural)]
pub struct SessionState {
    pub last_seq: u32,
    pub count: u32,
}

/// How one segment relates to its flow's stored state.
#[derive(Clone, Copy, Debug, Eq, PartialEq, Structural)]
pub enum SegmentReport {
    NewSession,
    Duplicate,
    Progressed,
    OutOfOrder,
}

/// A segment-counter increment that saturates instead of wrapping.
pub open spec fn spec_sat_inc(c: u32) -> u32 {
    if c == u32::MAX {
        c
    } else {
        (c + 1) as u32
    }
}

/// What one segment does to the session map: an unknown flow starts a
/// session; the stored sequence number seen again is a duplicate; a larger
/// one is forward progress and moves last-seen up; a smaller one is
/// out-of-order and mutates nothing (last-seen never moves backward).
pub open spec fn spec_process_segment(
    m: Map<FlowKey, SessionState>,
    key: FlowKey,
    seq: u32,
) -> (Map<FlowKey, SessionState>, SegmentReport) {
    if !m.contains_key(key) {
        (m.insert(key, SessionState { last_seq: seq, count: 1 }), SegmentReport::NewSession)
    } else if seq == m[key].last_seq {
        (
            m.insert(key, SessionState { last_seq: m[key].last_seq, count: spec_sat_inc(m[key].count) }),
            SegmentReport::Duplicate,
        )
    } else if seq > m[key].last_seq {
        (
            m.insert(key, SessionState { last_seq: seq, count: spec_sat_inc(m[key].count) }),
            SegmentReport::Progressed,
        )
    } else {
        (m, SegmentReport::OutOfOrder)
    }
}

/// The map held by an association list, later entries shadowing earlier
/// ones (the table keeps its keys distinct, so nothing is shadowed).
spec fn entries_map(s: Seq<(FlowKey, SessionState)>) -> Map<FlowKey, SessionState>
    decreases s.len(),
{
    if s.len() == 0 {
        Map::empty()
    } else {
        entries_map(s.drop_last()).insert(s.last().0, s.last().1)
    }
}

spec fn keys_distinct(s: Seq<(FlowKey, SessionState)>) -> bool {
    forall|i: int, j: int| 0 <= i < j < s.len() ==> s[i].0 != s[j].0
}

proof fn lemma_entries_map_domain(s: Seq<(FlowKey, SessionState)>, k: FlowKey)
    ensures
        entries_map(s).contains_key(k) <==> exists|i: int| 0 <= i < s.len() && s[i].0 == k,
    decreases s.len(),
{
    if s.len() > 0 {
        lemma_entries_map_domain(s.drop_last(), k);
        if s.last().0 == k {
            assert(s[s.len() - 1].0 == k);
        } else {
            if exists|i: int| 0 <= i < s.len() && s[i].0 == k {
                let i = choose|i: int| 0 <= i < s.len() && s[i].0 == k;
                assert(i < s.len() - 1);
                assert(s.drop_last()[i].0 == k);
            }
            if entries_map(s).contains_key(k) {
                let i = choose|i: int| 0 <= i < s.drop_last().len() && s.drop_last()[i].0 == k;
                assert(s[i].0 == k);
            }
        }
    }
}

proof fn lemma_entries_map_index(s: Seq<(FlowKey, SessionState)>, i: int)
    requires
        keys_distinct(s),
        0 <= i < s.len(),
    ensures
        entries_map(s).contains_key(s[i].0),
        entries_map(s)[s[i].0] == s[i].1,
    decreases s.len(),
{
    if i < s.len() - 1 {
        assert(keys_distinct(s.drop_last()));
        lemma_entries_map_index(s.drop_last(), i);
        assert(s.drop_last()[i] == s[i]);
        assert(s.last().0 != s[i].0);
    }
}

proof fn lemma_entries_map_update(s: Seq<(FlowKey, SessionState)>, i: int, v: SessionState)
    requires
        keys_distinct(s),
        0 <= i < s.len(),
    ensures
        entries_map(s.update(i, (s[i].0, v))) == entries_map(s).insert(s[i].0, v),
    decreases s.len(),
{
    let k = s[i].0;
    let t = s.update(i, (k, v));
    if i == s.len() - 1 {
        assert(t.drop_last() =~= s.drop_last());
        assert(t.last() == (k, v));
        assert(entries_map(t) == entries_map(s.drop_last()).insert(k, v));
        assert(entries_map(s).insert(k, v) =~= entries_map(s.drop_last()).insert(k, v));
    } else {
        assert(keys_distinct(s.drop_last()));
        lemma_entries_map_update(s.drop_last(), i, v);
        assert(t.drop_last() =~= s.drop_last().update(i, (k, v)));
        assert(t.last() == s.last());
        assert(entries_map(t) == entries_map(s.drop_last()).insert(k, v).insert(
            s.last().0,
            s.last().1,
        ));
        assert(s.last().0 != k);
        assert(entries_map(s.drop_last()).insert(k, v).insert(s.last().0, s.last().1)
            =~= entries_map(s.drop_last()).insert(s.last().0, s.last().1).insert(k, v));
    }
}

proof fn lemma_entries_map_len(s: Seq<(FlowKey, SessionState)>)
    requires
        keys_distinct(s),
    ensures
        entries_map(s).dom().finite(),
        entries_map(s).dom().len() == s.len(),
    decreases s.len(),
{
    if s.len() == 0 {
        assert(entries_map(s).dom() =~= Set::<FlowKey>::empty());
    } else {
        assert(keys_distinct(s.drop_last()));
        lemma_entries_map_len(s.drop_last());
        lemma_entries_map_domain(s.drop_last(), s.last().0);
        assert forall|i: int| 0 <= i < s.drop_last().len() implies s.drop_last()[i].0
            != s.last().0 by {
            assert(s.drop_last()[i] == s[i]);
        }
        assert(!entries_map(s.drop_last()).contains_key(s.last().0));
        assert(entries_map(s).dom() =~= entries_map(s.drop_last()).dom().insert(s.last().0));
        vstd::set::axiom_set_insert_len(entries_map(s.drop_last()).dom(), s.last().0);
    }
}

/// The per-flow session map of one TCP listener, keyed by `FlowKey`.
pub struct SessionTable {
    entries: Vec<(FlowKey, SessionState)>,
}

impl View for SessionTable {
    type V = Map<FlowKey, SessionState>;

    closed spec fn view(&self) -> Map<FlowKey, SessionState> {
        entries_map(self.entries@)
    }
}

impl SessionTable {
    /// Well-formed: one entry per flow.
    pub closed spec fn wf(&self) -> bool {
        keys_distinct(self.entries@)
    }

    pub fn new() -> (r: Self)
        ensures
            r.wf(),
            r@ == Map::<FlowKey, SessionState>::empty(),
    {
        SessionTable { entries: Vec::new() }
    }

    /// The position of this flow's entry, if the flow is tracked.
    fn find(&self, key: &FlowKey) -> (r: Option<usize>)
        requires
            self.wf(),
        ensures
            match r {
                Some(i) => {
                    &&& i < self.entries@.len()
                    &&& self.entries@[i as int].0 == *key
                    &&& self@.contains_key(*key)
                    &&& self@[*key] == self.entries@[i as int].1
                },
                None => !self@.contains_key(*key),
            },
    {
        let n = self.entries.len();
        for k in 0..n
            invariant
                self.wf(),
                n == self.entries.len(),
                forall|j: int| 0 <= j < k ==> self.entries@[j].0 != *key,
        {
            if self.entries[k].0 == *key {
                proof {
                    lemma_entries_map_index(self.entries@, k as int);
                }
                return Some(k);
            }
        }
        proof {
            lemma_entries_map_domain(self.entries@, *key);
        }
        None
    }

    /// How many flows are tracked.
    pub fn len(&self) -> (r: usize)
        requires
            self.wf(),
        ensures
            r == self@.dom().len(),
    {
        proof {
            lemma_entries_map_len(self.entries@);
        }
        self.entries.len()
    }

    /// The stored state of this flow, if the flow is tracked.
    pub fn get(&self, key: &FlowKey) -> (r: Option<SessionState>)
        requires
            self.wf(),
        ensures
            r == if self@.contains_key(*key) {
                Some(self@[*key])
            } else {
                None::<SessionState>
            },
    {
        match self.find(key) {
            Some(i) => Some(self.entries[i].1),
            None => None,
        }
    }

    /// Apply one segment to the map, exactly as `spec_process_segment`
    /// says: an out-of-order segment (sequence number behind the stored
    /// last-seen) mutates nothing.
    pub fn process_segment(&mut self, key: FlowKey, seq: u32) -> (r: SegmentReport)
        requires
            old(self).wf(),
        ensures
            final(self).wf(),
            final(self)@ == spec_process_segment(old(self)@, key, seq).0,
            r == spec_process_segment(old(self)@, key, seq).1,
    {
        match self.find(&key) {
            None => {
                proof {
                    lemma_entries_map_domain(self.entries@, key);
                }
                self.entries.push((key, SessionState { last_seq: seq, count: 1 }));
                proof {
                    assert(self.entries@.drop_last() =~= old(self).entries@);
                    assert(self.entries@.last() == (key, SessionState { last_seq: seq, count: 1 }));
                    assert forall|i: int, j: int|
                        0 <= i < j < self.entries@.len() implies self.entries@[i].0
                        != self.entries@[j].0 by {
                        if j < self.entries@.len() - 1 {
                            assert(old(self).entries@[i].0 != old(self).entries@[j].0);
                        } else {
                            assert(self.entries@[i] == old(self).entries@[i]);
                        }
                    }
                }
                SegmentReport::NewSession
            },
            Some(i) => {
                let st = self.entries[i].1;
                if seq < st.last_seq {
                    return SegmentReport::OutOfOrder;
                }
                let bumped: u32 = if st.count == u32::MAX {
                    st.count
                } else {
                    st.count + 1
                };
                let newstate = if seq == st.last_seq {
                    SessionState { last_seq: st.last_seq, count: bumped }
                } else {
                    SessionState { last_seq: seq, count: bumped }
                };
                let report = if seq == st.last_seq {
                    SegmentReport::Duplicate
                } else {
                    SegmentReport::Progressed
                };
                proof {
                    lemma_entries_map_update(self.entries@, i as int, newstate);
                }
                let elem = &mut self.entries[i];
                *elem = (key, newstate);
                proof {
                    assert forall|a: int, b: int|
                        0 <= a < b < self.entries@.len() implies self.entries@[a].0
                        != self.entries@[b].0 by {
                        assert(self.entries@[a].0 == old(self).entries@[a].0);
                        assert(self.entries@[b].0 == old(self).entries@[b].0);
                    }
                }
                report
            },
        }
    }
}

/// Law: a sequence number at or ahead of the stored last-seen, delivered
/// twice, is reported a duplicate the second time, and the stored
/// last-seen, equal to it after the first delivery, is never reduced. The
/// replay also raises the segment count by one, up to the counter type's
/// maximum, where the count saturates.
pub proof fn lemma_replay_duplicate(m: Map<FlowKey, SessionState>, key: FlowKey, seq: u32)
    requires
        m.contains_key(key) ==> m[key].last_seq <= seq,
    ensures
        spec_process_segment(m, key, seq).0[key].last_seq == seq,
        spec_process_segment(spec_process_segment(m, key, seq).0, key, seq).1
            == SegmentReport::Duplicate,
        spec_process_segment(spec_process_segment(m, key, seq).0, key, seq).0[key].last_seq == seq,
        spec_process_segment(m, key, seq).0[key].count < u32::MAX ==> spec_process_segment(
            spec_process_segment(m, key, seq).0,
            key,
            seq,
        ).0[key].count == spec_process_segment(m, key, seq).0[key].count + 1,
{
}

/// Law: processing a segment for a tracked flow never moves the stored
/// last-seen backward.
pub proof fn lemma_last_seen_never_decreases(m: Map<FlowKey, SessionState>, key: FlowKey, seq: u32)
    requires
        m.contains_key(key),
    ensures
        spec_process_segment(m, key, seq).0.contains_key(key),
        spec_process_segment(m, key, seq).0[key].last_seq >= m[key].last_seq,
{
}

/// Law: a segment behind the stored last-seen is reported out-of-order and
/// leaves the session map exactly as it was.
pub proof fn lemma_out_of_order_is_noop(m: Map<FlowKey, SessionState>, key: FlowKey, seq: u32)
    requires
        m.contains_key(key),
        seq < m[key].last_seq,
    ensures
        spec_process_segment(m, key, seq).0 == m,
        spec_process_segment(m, key, seq).1 == SegmentReport::OutOfOrder,
{
}

/// The session map after a run of segments on one flow.
pub open spec fn spec_replay_all(
    m: Map<FlowKey, SessionState>,
    key: FlowKey,
    seqs: Seq<u32>,
) -> Map<FlowKey, SessionState>
    decreases seqs.len(),
{
    if seqs.len() == 0 {
        m
    } else {
        spec_replay_all(spec_process_segment(m, key, seqs.first()).0, key, seqs.drop_first())
    }
}

/// Whether every segment of a run on one flow is reported as progress.
pub open spec fn spec_all_progress(
    m: Map<FlowKey, SessionState>,
    key: FlowKey,
    seqs: Seq<u32>,
) -> bool
    decreases seqs.len(),
{
    seqs.len() == 0 || {
        let stepped = spec_process_segment(m, key, seqs.first());
        stepped.1 == SegmentReport::Progressed && spec_all_progress(
            stepped.0,
            key,
            seqs.drop_first(),
        )
    }
}

/// Law: segments with strictly increasing sequence numbers, all ahead of
/// the tracked flow's stored last-seen, are each reported as progress, and
/// the stored last-seen ends equal to the most recent sequence number
/// delivered. The segment count grows by one per segment as long as it
/// stays below the counter type's maximum, where it saturates.
pub proof fn lemma_increasing_all_progress(
    m: Map<FlowKey, SessionState>,
    key: FlowKey,
    seqs: Seq<u32>,
)
    requires
        m.contains_key(key),
        seqs.len() > 0,
        m[key].last_seq < seqs.first(),
        forall|i: int, j: int| 0 <= i < j < seqs.len() ==> seqs[i] < seqs[j],
    ensures
        spec_all_progress(m, key, seqs),
        spec_replay_all(m, key, seqs).contains_key(key),
        spec_replay_all(m, key, seqs)[key].last_seq == seqs.last(),
        m[key].count + seqs.len() <= u32::MAX ==> spec_replay_all(m, key, seqs)[key].count
            == m[key].count + seqs.len(),
    decreases seqs.len(),
{
    let stepped = spec_process_segment(m, key, seqs.first());
    assert(stepped.1 == SegmentReport::Progressed);
    assert(stepped.0[key].last_seq == seqs.first());
    if seqs.len() == 1 {
        assert(seqs.drop_first().len() == 0);
        assert(spec_replay_all(stepped.0, key, seqs.drop_first()) == stepped.0);
        assert(spec_all_progress(stepped.0, key, seqs.drop_first()));
        assert(spec_replay_all(m, key, seqs) == stepped.0);
        assert(seqs.last() == seqs.first());
    } else {
        let rest = seqs.drop_first();
        assert(rest.first() == seqs[1]);
        assert(seqs[0] < seqs[1]);
        assert forall|i: int, j: int| 0 <= i < j < rest.len() implies rest[i] < rest[j] by {
            assert(rest[i] == seqs[i + 1]);
            assert(rest[j] == seqs[j + 1]);
        }
        lemma_increasing_all_progress(stepped.0, key, rest);
        assert(rest.last() == seqs.last());
    }
}

/// Configuration for one IPv4/TCP listener, gathered step by step.
pub struct Ipv4TcpListenerBuilder {
    receiver: Option<Receiver<ReceivedPacketData>>,
}

pub fn new() -> (r: Ipv4TcpListenerBuilder)
    ensures
        !r.has_receiver(),
{
    Ipv4TcpListenerBuilder { receiver: None }
}

impl Ipv4TcpListenerBuilder {
    /// Whether an input channel was supplied.
    pub closed spec fn has_receiver(&self) -> bool {
        self.receiver is Some
    }

    /// The supplied input channel (meaningful only when `has_receiver()`).
    pub closed spec fn spec_receiver(&self) -> Receiver<ReceivedPacketData> {
        self.receiver->Some_0
    }

    pub fn set_receiver(self, receiver: Receiver<ReceivedPacketData>) -> (r: Self)
        ensures
            r.has_receiver(),
            r.spec_receiver() == receiver,
    {
        Ipv4TcpListenerBuilder { receiver: Some(receiver) }
    }

    /// Complete the configuration: a listener with an empty session map,
    /// handed back together with its input channel. A missing channel
    /// fails this build only.
    pub fn build(self) -> (r: Result<(Ipv4TcpListener, Receiver<ReceivedPacketData>), BuildError>)
        ensures
            r is Ok <==> self.has_receiver(),
            !self.has_receiver() ==> r is Err && r->Err_0 == BuildError::NoReceiver,
            r matches Ok((_, rx)) ==> rx == self.spec_receiver(),
            r matches Ok((l, _)) ==> l.wf() && l.packet_count_spec() == 0 && l.sessions()
                == Map::<FlowKey, SessionState>::empty(),
    {
        match self.receiver {
            None => Err(BuildError::NoReceiver),
            Some(rx) => Ok((Ipv4TcpListener { packet_count: 0, sequences: SessionTable::new() }, rx)),
        }
    }
}

/// The diagnostic record of one handled TCP segment, as the listener logs
/// it: the report, the flow, the segment's flags and sizes, and the flow's
/// segment count after this segment.
#[derive(Clone, Copy, Debug, Eq, PartialEq, Structural)]
pub struct TcpDiagnostic {
    pub report: SegmentReport,
    pub key: FlowKey,
    pub seq: u32,
    pub syn: bool,
    pub ack: bool,
    pub fin: bool,
    pub rst: bool,
    pub fragmented: bool,
    pub payload_len: usize,
    pub count: u32,
}

/// The flow key of an IPv4/TCP frame.
pub open spec fn spec_flow_key(src: u32, dst: u32, t: TcpSegmentInfo) -> FlowKey {
    FlowKey { src_ip: src, src_port: t.src_port, dst_ip: dst, dst_port: t.dst_port }
}

/// What one decoded frame does to a TCP listener: an IPv4 frame carrying
/// TCP runs its segment through the session map and yields the diagnostic
/// record; any other frame leaves the map alone and yields none.
pub open spec fn spec_tcp_outcome(pre: Map<FlowKey, SessionState>, s: FrameSummary) -> (
    Map<FlowKey, SessionState>,
    Option<TcpDiagnostic>,
) {
    match (s.net, s.transport) {
        (NetLayerInfo::V4 { src, dst, fragmented, .. }, TransportLayerInfo::Tcp(t)) => {
            let key = spec_flow_key(src, dst, t);
            let stepped = spec_process_segment(pre, key, t.seq);
            (
                stepped.0,
                Some(
                    TcpDiagnostic {
                        report: stepped.1,
                        key,
                        seq: t.seq,
                        syn: t.syn,
                        ack: t.ack,
                        fin: t.fin,
                        rst: t.rst,
                        fragmented,
                        payload_len: t.payload_len,
                        count: stepped.0[key].count,
                    },
                ),
            )
        },
        _ => (pre, None),
    }
}

/// The consumer of the IPv4/TCP channel: counts the frames it decodes and
/// tracks per-flow sequence state in a session map it owns exclusively.
pub struct Ipv4TcpListener {
    packet_count: u64,
    sequences: SessionTable,
}

impl Ipv4TcpListener {
    /// How many frames this listener has decoded.
    pub closed spec fn packet_count_spec(&self) -> u64 {
        self.packet_count
    }

    /// The session map.
    pub closed spec fn sessions(&self) -> Map<FlowKey, SessionState> {
        self.sequences@
    }

    pub closed spec fn wf(&self) -> bool {
        self.sequences.wf()
    }

    /// How many frames this listener has decoded.
    pub fn packet_count(&self) -> (r: u64)
        ensures
            r == self.packet_count_spec(),
    {
        self.packet_count
    }

    /// The stored state of this flow, if the flow is tracked.
    pub fn session(&self, key: &FlowKey) -> (r: Option<SessionState>)
        requires
            self.wf(),
        ensures
            r == if self.sessions().contains_key(*key) {
                Some(self.sessions()[*key])
            } else {
                None::<SessionState>
            },
    {
        self.sequences.get(key)
    }

    /// How many flows are tracked.
    pub fn session_count(&self) -> (r: usize)
        requires
            self.wf(),
        ensures
            r == self.sessions().dom().len(),
    {
        self.sequences.len()
    }

    /// Handle one decoded frame: count it, and run its segment through the
    /// session map exactly when it is IPv4 carrying TCP.
    pub fn handle_summary(&mut self, s: &FrameSummary) -> (r: Option<TcpDiagnostic>)
        requires
            old(self).wf(),
        ensures
            final(self).wf(),
            final(self).packet_count_spec() == spec_sat_inc64(old(self).packet_count_spec()),
            (final(self).sessions(), r) == spec_tcp_outcome(old(self).sessions(), *s),
    {
        self.packet_count = if self.packet_count == u64::MAX {
            self.packet_count
        } else {
            self.packet_count + 1
        };
        match (s.net, s.transport) {
            (NetLayerInfo::V4 { src, dst, fragmented, .. }, TransportLayerInfo::Tcp(t)) => {
                let key = FlowKey {
                    src_ip: src,
                    src_port: t.src_port,
                    dst_ip: dst,
                    dst_port: t.dst_port,
                };
                let report = self.sequences.process_segment(key, t.seq);
                let count = match self.sequences.get(&key) {
                    Some(ss) => ss.count,
                    None => {
                        proof {
                            assert(false);
                        }
                        0
                    },
                };
                Some(
                    TcpDiagnostic {
                        report,
                        key,
                        seq: t.seq,
                        syn: t.syn,
                        ack: t.ack,
                        fin: t.fin,
                        rst: t.rst,
                        fragmented,
                        payload_len: t.payload_len,
                        count,
                    },
                )
            },
            _ => None,
        }
    }

    /// One step of the driver loop: cancellation stops the loop; a received
    /// frame is decoded and handled; a decode failure or an unrelated item
    /// keeps the loop alive.
    pub fn on_event(&mut self, ev: ListenerEvent) -> (r: ListenerOutcome<TcpDiagnostic>)
        requires
            old(self).wf(),
        ensures
            final(self).wf(),
            ev matches ListenerEvent::Cancelled ==> r matches ListenerOutcome::Stop && *final(self)
                == *old(self),
            ev matches ListenerEvent::ChannelClosed ==> r matches ListenerOutcome::Ignored
                && *final(self) == *old(self),
            ev matches ListenerEvent::Item(ReceivedPacketData::Counts { .. }) ==> r
                matches ListenerOutcome::Ignored && *final(self) == *old(self),
            ev matches ListenerEvent::Item(ReceivedPacketData::MovingPacket { .. }) ==> !(r
                matches ListenerOutcome::Stop),
            ev matches ListenerEvent::Item(ReceivedPacketData::MovingPacket { data, .. })
                ==> match spec_summary_of(data@) {
                None => r matches ListenerOutcome::DecodeFailed && *final(self) == *old(self),
                Some(s) => {
                    let stepped = spec_tcp_outcome(old(self).sessions(), s);
                    &&& final(self).sessions() == stepped.0
                    &&& final(self).packet_count_spec() == spec_sat_inc64(
                        old(self).packet_count_spec(),
                    )
                    &&& match stepped.1 {
                        Some(d) => r == ListenerOutcome::Handled(d),
                        None => r matches ListenerOutcome::Ignored,
                    }
                },
            },
    {
        match ev {
            ListenerEvent::Cancelled => ListenerOutcome::Stop,
            ListenerEvent::ChannelClosed => ListenerOutcome::Ignored,
            ListenerEvent::Item(ReceivedPacketData::Counts { .. }) => ListenerOutcome::Ignored,
            ListenerEvent::Item(ReceivedPacketData::MovingPacket { data, .. }) => {
                match summarize_frame(data.as_slice()) {
                    None => ListenerOutcome::DecodeFailed,
                    Some(s) => match self.handle_summary(&s) {
                        Some(d) => ListenerOutcome::Handled(d),
                        None => ListenerOutcome::Ignored,
                    },
                }
            },
        }
    }
}

} // verus!
