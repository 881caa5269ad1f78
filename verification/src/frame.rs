use vstd::prelude::*;

use etherparse::{NetSlice, SlicedPacket, TransportSlice};

verus! {

/// What the logic reads from a frame's network layer: the layer kind and,
/// for IP, the addresses (big-endian byte order packed into an integer),
/// the payload's IP protocol number, and the fragmentation flag.
#[derive(Clone, Copy, Debug, Eq, PartialEq, Structural)]
pub enum NetLayerInfo {
    Absent,
    Arp,
    V4 { src: u32, dst: u32, ip_number: u8, fragmented: bool },
    V6 { ip_number: u8 },
}

/// What the logic reads from a TCP segment.
#[derive(Clone, Copy, Debug, Eq, PartialEq, Structural)]
pub struct TcpSegmentInfo {
    pub src_port: u16,
    pub dst_port: u16,
    pub seq: u32,
    pub syn: bool,
    pub ack: bool,
    pub fin: bool,
    pub rst: bool,
    pub payload_len: usize,
}

/// What the logic reads from a UDP datagram.
#[derive(Clone, Copy, Debug, Eq, PartialEq, Structural)]
pub struct UdpDatagramInfo {
    pub src_port: u16,
    pub dst_port: u16,
    pub payload_len: usize,
}

/// What the logic reads from a frame's transport layer.
#[derive(Clone, Copy, Debug, Eq, PartialEq, Structural)]
pub enum TransportLayerInfo {
    Absent,
    Icmp4,
    Icmp6,
    Igmp,
    Tcp(TcpSegmentInfo),
    Udp(UdpDatagramInfo),
}

/// Everything the pipeline reads from one successfully parsed frame.
#[derive(Clone, Copy, Debug, Eq, PartialEq, Structural)]
pub struct FrameSummary {
    pub net: NetLayerInfo,
    pub transport: TransportLayerInfo,
}

/// The network layer that parsing these frame bytes yields, `None` for a
/// malformed frame. The parse is a function of the bytes alone; this name
/// stands for its result and is fixed by `net_layer_raw`.
pub uninterp spec fn spec_net_of(data: Seq<u8>) -> Option<NetLayerInfo>;

/// The bare variant of a frame's transport layer.
#[derive(Clone, Copy, Debug, Eq, PartialEq, Structural)]
pub enum TransportKind {
    Absent,
    Icmp4,
    Icmp6,
    Igmp,
    Tcp,
    Udp,
}

/// The transport-layer variant that parsing these frame bytes yields,
/// `None` for a malformed frame. The parse is a function of the bytes
/// alone; this name stands for its result and is fixed by
/// `transport_kind_raw`.
pub uninterp spec fn spec_transport_kind_of(data: Seq<u8>) -> Option<TransportKind>;

/// The TCP segment that parsing these frame bytes yields, `None` for a
/// malformed frame or one not carrying TCP. Fixed by `tcp_segment_raw`.
pub uninterp spec fn spec_tcp_of(data: Seq<u8>) -> Option<TcpSegmentInfo>;

/// The UDP datagram that parsing these frame bytes yields, `None` for a
/// malformed frame or one not carrying UDP. Fixed by `udp_datagram_raw`.
pub uninterp spec fn spec_udp_of(data: Seq<u8>) -> Option<UdpDatagramInfo>;

/// The transport layer that parsing these frame bytes yields, `None` for
/// a malformed frame: the variant together with its segment or datagram
/// fields. (A TCP or UDP variant whose fields cannot be read falls back to
/// an absent transport layer; by construction the two names come from the
/// same parse, so that case does not arise.)
pub open spec fn spec_transport_of(data: Seq<u8>) -> Option<TransportLayerInfo> {
    match spec_transport_kind_of(data) {
        None => None,
        Some(TransportKind::Absent) => Some(TransportLayerInfo::Absent),
        Some(TransportKind::Icmp4) => Some(TransportLayerInfo::Icmp4),
        Some(TransportKind::Icmp6) => Some(TransportLayerInfo::Icmp6),
        Some(TransportKind::Igmp) => Some(TransportLayerInfo::Igmp),
        Some(TransportKind::Tcp) => match spec_tcp_of(data) {
            Some(t) => Some(TransportLayerInfo::Tcp(t)),
            None => Some(TransportLayerInfo::Absent),
        },
        Some(TransportKind::Udp) => match spec_udp_of(data) {
            Some(u) => Some(TransportLayerInfo::Udp(u)),
            None => Some(TransportLayerInfo::Absent),
        },
    }
}

/// The summary that parsing these frame bytes yields: both layers, or
/// `None` for a malformed frame.
pub open spec fn spec_summary_of(data: Seq<u8>) -> Option<FrameSummary> {
    match (spec_net_of(data), spec_transport_of(data)) {
        (Some(net), Some(transport)) => Some(FrameSummary { net, transport }),
        _ => None,
    }
}

/// Relies on etherparse's `SlicedPacket::from_ethernet` (deterministic in
/// the bytes; `Err` exactly on a malformed frame) and, per network-layer
/// variant, on `Ipv4Slice::{header, payload_ip_number,
/// is_payload_fragmented}` with `Ipv4HeaderSlice::{source, destination}`,
/// and on `Ipv6Slice::payload`: slices the frame and moves the
/// network-layer fields the logic reads into plain values, one arm per
/// variant.
#[verifier::external_body]
fn net_layer_raw(data: &[u8]) -> (r: Option<NetLayerInfo>)
    ensures
        r == spec_net_of(data@),
{
    let p = SlicedPacket::from_ethernet(data).ok()?;
    Some(match &p.net {
        None => NetLayerInfo::Absent,
        Some(NetSlice::Arp(_)) => NetLayerInfo::Arp,
        Some(NetSlice::Ipv4(v)) => NetLayerInfo::V4 {
            src: u32::from_be_bytes(v.header().source()),
            dst: u32::from_be_bytes(v.header().destination()),
            ip_number: v.payload_ip_number().0,
            fragmented: v.is_payload_fragmented(),
        },
        Some(NetSlice::Ipv6(v)) => NetLayerInfo::V6 { ip_number: v.payload().ip_number.0 },
    })
}

/// Relies on the same `SlicedPacket::from_ethernet` parse: tells the
/// variants of its `transport` field apart, one arm per variant.
#[verifier::external_body]
fn transport_kind_raw(data: &[u8]) -> (r: Option<TransportKind>)
    ensures
        r == spec_transport_kind_of(data@),
{
    let p = SlicedPacket::from_ethernet(data).ok()?;
    Some(match &p.transport {
        None => TransportKind::Absent,
        Some(TransportSlice::Icmpv4(_)) => TransportKind::Icmp4,
        Some(TransportSlice::Icmpv6(_)) => TransportKind::Icmp6,
        Some(TransportSlice::Igmp(_)) => TransportKind::Igmp,
        Some(TransportSlice::Tcp(_)) => TransportKind::Tcp,
        Some(TransportSlice::Udp(_)) => TransportKind::Udp,
    })
}

/// Relies on the same `SlicedPacket::from_ethernet` parse and the
/// accessors of `TcpSlice`: moves the segment fields the logic reads into
/// plain values.
#[verifier::external_body]
fn tcp_segment_raw(data: &[u8]) -> (r: Option<TcpSegmentInfo>)
    ensures
        r == spec_tcp_of(data@),
{
    let p = SlicedPacket::from_ethernet(data).ok()?;
    match &p.transport {
        Some(TransportSlice::Tcp(t)) => Some(TcpSegmentInfo {
            src_port: t.source_port(), dst_port: t.destination_port(), seq: t.sequence_number(),
            syn: t.syn(), ack: t.ack(), fin: t.fin(), rst: t.rst(),
            payload_len: t.payload().len(),
        }),
        _ => None,
    }
}

/// Relies on the same `SlicedPacket::from_ethernet` parse and the
/// accessors of `UdpSlice`: moves the datagram fields the logic reads into
/// plain values.
#[verifier::external_body]
fn udp_datagram_raw(data: &[u8]) -> (r: Option<UdpDatagramInfo>)
    ensures
        r == spec_udp_of(data@),
{
    let p = SlicedPacket::from_ethernet(data).ok()?;
    match &p.transport {
        Some(TransportSlice::Udp(u)) => Some(UdpDatagramInfo {
            src_port: u.source_port(), dst_port: u.destination_port(),
            payload_len: u.payload().len(),
        }),
        _ => None,
    }
}

/// Parse one captured frame and summarize the layers the pipeline
/// inspects; `None` exactly when the parser rejects the frame.
pub fn summarize_frame(data: &[u8]) -> (r: Option<FrameSummary>)
    ensures
        r == spec_summary_of(data@),
{
    let net = net_layer_raw(data);
    let transport = match transport_kind_raw(data) {
        None => None,
        Some(TransportKind::Absent) => Some(TransportLayerInfo::Absent),
        Some(TransportKind::Icmp4) => Some(TransportLayerInfo::Icmp4),
        Some(TransportKind::Icmp6) => Some(TransportLayerInfo::Icmp6),
        Some(TransportKind::Igmp) => Some(TransportLayerInfo::Igmp),
        Some(TransportKind::Tcp) => match tcp_segment_raw(data) {
            Some(t) => Some(TransportLayerInfo::Tcp(t)),
            None => Some(TransportLayerInfo::Absent),
        },
        Some(TransportKind::Udp) => match udp_datagram_raw(data) {
            Some(u) => Some(TransportLayerInfo::Udp(u)),
            None => Some(TransportLayerInfo::Absent),
        },
    };
    match (net, transport) {
        (Some(net), Some(transport)) => Some(FrameSummary { net, transport }),
        _ => None,
    }
}

} // verus!
