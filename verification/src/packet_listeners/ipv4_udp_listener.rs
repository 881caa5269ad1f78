use vstd::prelude::*;

use tokio::sync::mpsc::Receiver;

use crate::devices::ReceivedPacketData;
use crate::frame::{
    spec_summary_of, summarize_frame, FrameSummary, NetLayerInfo, TransportLayerInfo,
};
use crate::packet_listeners::listener::{BuildError, ListenerEvent, ListenerOutcome};

verus! {

/// Configuration for one IPv4/UDP listener, gathered step by step.
pub struct Ipv4UdpListenerBuilder {
    receiver: Option<Receiver<ReceivedPacketData>>,
}

pub fn new() -> (r: Ipv4UdpListenerBuilder)
    ensures
        !r.has_receiver(),
{
    Ipv4UdpListenerBuilder { receiver: None }
}

impl Ipv4UdpListenerBuilder {
    /// Whether an input channel was supplied.
    pub closed spec fn has_receiver(&self) -> bool {
        self.receiver is Some
    }

    /// The supplied input channel (meaningful only when `has_receiver()`).
    pub closed spec fn spec_receiver(&self) -> Receiver<ReceivedPacketData> {
        self.receiver->Some_0
    }

    pub fn set_receiver(self, receiver: Receiver<ReceivedPacketData>) -> (r: Self)
        ensures
            r.has_receiver(),
            r.spec_receiver() == receiver,
    {
        Ipv4UdpListenerBuilder { receiver: Some(receiver) }
    }

    /// Complete the configuration: the stateless listener, handed back
    /// together with its input channel. A missing channel fails this build
    /// only.
    pub fn build(self) -> (r: Result<(Ipv4UdpListener, Receiver<ReceivedPacketData>), BuildError>)
        ensures
            r is Ok <==> self.has_receiver(),
            !self.has_receiver() ==> r is Err && r->Err_0 == BuildError::NoReceiver,
            r matches Ok((_, rx)) ==> rx == self.spec_receiver(),
    {
        match self.receiver {
            None => Err(BuildError::NoReceiver),
            Some(rx) => Ok((Ipv4UdpListener {  }, rx)),
        }
    }
}

/// The diagnostic record of one handled UDP datagram, as the listener logs
/// it: addresses, ports and payload length.
#[derive(Clone, Copy, Debug, Eq, PartialEq, Structural)]
pub struct UdpDiagnostic {
    pub src_ip: u32,
    pub dst_ip: u32,
    pub src_port: u16,
    pub dst_port: u16,
    pub payload_len: usize,
}

/// The diagnostic that one decoded frame yields on a UDP listener: a
/// record exactly when the frame is IPv4 carrying UDP, nothing otherwise.
pub open spec fn spec_udp_diag(s: FrameSummary) -> Option<UdpDiagnostic> {
    match (s.net, s.transport) {
        (NetLayerInfo::V4 { src, dst, .. }, TransportLayerInfo::Udp(u)) => Some(
            UdpDiagnostic {
                src_ip: src,
                dst_ip: dst,
                src_port: u.src_port,
                dst_port: u.dst_port,
                payload_len: u.payload_len,
            },
        ),
        _ => None,
    }
}

/// The consumer of the IPv4/UDP channel: stateless, it only decodes and
/// emits a structured diagnostic per datagram.
pub struct Ipv4UdpListener {}

impl Ipv4UdpListener {
    /// Handle one decoded frame: a diagnostic record exactly when it is
    /// IPv4 carrying UDP.
    pub fn handle_summary(&mut self, s: &FrameSummary) -> (r: Option<UdpDiagnostic>)
        ensures
            r == spec_udp_diag(*s),
    {
        match (s.net, s.transport) {
            (NetLayerInfo::V4 { src, dst, .. }, TransportLayerInfo::Udp(u)) => Some(
                UdpDiagnostic {
                    src_ip: src,
                    dst_ip: dst,
                    src_port: u.src_port,
                    dst_port: u.dst_port,
                    payload_len: u.payload_len,
                },
            ),
            _ => None,
        }
    }

    /// One step of the driver loop: cancellation stops the loop; a received
    /// frame is decoded and handled; a decode failure or an unrelated item
    /// keeps the loop alive.
    pub fn on_event(&mut self, ev: ListenerEvent) -> (r: ListenerOutcome<UdpDiagnostic>)
        ensures
            ev matches ListenerEvent::Cancelled ==> r matches ListenerOutcome::Stop,
            ev matches ListenerEvent::ChannelClosed ==> r matches ListenerOutcome::Ignored,
            ev matches ListenerEvent::Item(ReceivedPacketData::Counts { .. }) ==> r
                matches ListenerOutcome::Ignored,
            ev matches ListenerEvent::Item(ReceivedPacketData::MovingPacket { .. }) ==> !(r
                matches ListenerOutcome::Stop),
            ev matches ListenerEvent::Item(ReceivedPacketData::MovingPacket { data, .. })
                ==> match spec_summary_of(data@) {
                None => r matches ListenerOutcome::DecodeFailed,
                Some(s) => match spec_udp_diag(s) {
                    Some(d) => r == ListenerOutcome::Handled(d),
                    None => r matches ListenerOutcome::Ignored,
                },
            },
    {
        match ev {
            ListenerEvent::Cancelled => ListenerOutcome::Stop,
            ListenerEvent::ChannelClosed => ListenerOutcome::Ignored,
            ListenerEvent::Item(ReceivedPacketData::Counts { .. }) => ListenerOutcome::Ignored,
            ListenerEvent::Item(ReceivedPacketData::MovingPacket { data, .. }) => {
                match summarize_frame(data.as_slice()) {
                    None => ListenerOutcome::DecodeFailed,
                    Some(s) => match self.handle_summary(&s) {
                        Some(d) => ListenerOutcome::Handled(d),
                        None => ListenerOutcome::Ignored,
                    },
                }
            },
        }
    }
}

} // verus!
