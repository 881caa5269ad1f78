use vstd::prelude::*;

use tokio::sync::mpsc::Receiver;

use crate::devices::ReceivedPacketData;
use crate::frame::{spec_summary_of, summarize_frame, FrameSummary, NetLayerInfo};
use crate::packet_listeners::listener::{spec_sat_inc64, BuildError, ListenerEvent, ListenerOutcome};

verus! {

/// Configuration for one ARP listener, gathered step by step.
pub struct ArpListenerBuilder {
    receiver: Option<Receiver<ReceivedPacketData>>,
}

pub fn new() -> (r: ArpListenerBuilder)
    ensures
        !r.has_receiver(),
{
    ArpListenerBuilder { receiver: None }
}

impl ArpListenerBuilder {
    /// Whether an input channel was supplied.
    pub closed spec fn has_receiver(&self) -> bool {
        self.receiver is Some
    }

    /// The supplied input channel (meaningful only when `has_receiver()`).
    pub closed spec fn spec_receiver(&self) -> Receiver<ReceivedPacketData> {
        self.receiver->Some_0
    }

    pub fn set_receiver(self, receiver: Receiver<ReceivedPacketData>) -> (r: Self)
        ensures
            r.has_receiver(),
            r.spec_receiver() == receiver,
    {
        ArpListenerBuilder { receiver: Some(receiver) }
    }

    /// Complete the configuration: a listener with a zero frame counter,
    /// handed back together with its input channel. A missing channel
    /// fails this build only.
    pub fn build(self) -> (r: Result<(ArpListener, Receiver<ReceivedPacketData>), BuildError>)
        ensures
            r is Ok <==> self.has_receiver(),
            !self.has_receiver() ==> r is Err && r->Err_0 == BuildError::NoReceiver,
            r matches Ok((_, rx)) ==> rx == self.spec_receiver(),
            r matches Ok((l, _)) ==> l.packet_count_spec() == 0,
    {
        match self.receiver {
            None => Err(BuildError::NoReceiver),
            Some(rx) => Ok((ArpListener { packet_count: 0 }, rx)),
        }
    }
}

/// The consumer of the ARP channel: counts the frames it decodes and does
/// nothing further with them yet (a placeholder surface for future
/// classification).
pub struct ArpListener {
    packet_count: u64,
}

impl ArpListener {
    /// How many frames this listener has decoded.
    pub closed spec fn packet_count_spec(&self) -> u64 {
        self.packet_count
    }

    /// How many frames this listener has decoded.
    pub fn packet_count(&self) -> (r: u64)
        ensures
            r == self.packet_count_spec(),
    {
        self.packet_count
    }

    /// Handle one decoded frame: count it, and report whether it actually
    /// carried an ARP message.
    pub fn handle_summary(&mut self, s: &FrameSummary) -> (r: bool)
        ensures
            final(self).packet_count_spec() == spec_sat_inc64(old(self).packet_count_spec()),
            r == (s.net == NetLayerInfo::Arp),
    {
        self.packet_count = if self.packet_count == u64::MAX {
            self.packet_count
        } else {
            self.packet_count + 1
        };
        match s.net {
            NetLayerInfo::Arp => true,
            _ => false,
        }
    }

    /// One step of the driver loop: cancellation stops the loop; a received
    /// frame is decoded and counted; a decode failure or an unrelated item
    /// keeps the loop alive.
    pub fn on_event(&mut self, ev: ListenerEvent) -> (r: ListenerOutcome<bool>)
        ensures
            ev matches ListenerEvent::Cancelled ==> r matches ListenerOutcome::Stop && *final(self)
                == *old(self),
            ev matches ListenerEvent::ChannelClosed ==> r matches ListenerOutcome::Ignored
                && *final(self) == *old(self),
            ev matches ListenerEvent::Item(ReceivedPacketData::Counts { .. }) ==> r
                matches ListenerOutcome::Ignored && *final(self) == *old(self),
            ev matches ListenerEvent::Item(ReceivedPacketData::MovingPacket { .. }) ==> !(r
                matches ListenerOutcome::Stop),
            ev matches ListenerEvent::Item(ReceivedPacketData::MovingPacket { data, .. })
                ==> match spec_summary_of(data@) {
                None => r matches ListenerOutcome::DecodeFailed && *final(self) == *old(self),
                Some(s) => final(self).packet_count_spec() == spec_sat_inc64(
                    old(self).packet_count_spec(),
                ) && r == ListenerOutcome::Handled(s.net == NetLayerInfo::Arp),
            },
    {
        match ev {
            ListenerEvent::Cancelled => ListenerOutcome::Stop,
            ListenerEvent::ChannelClosed => ListenerOutcome::Ignored,
            ListenerEvent::Item(ReceivedPacketData::Counts { .. }) => ListenerOutcome::Ignored,
            ListenerEvent::Item(ReceivedPacketData::MovingPacket { data, .. }) => {
                match summarize_frame(data.as_slice()) {
                    None => ListenerOutcome::DecodeFailed,
                    Some(s) => {
                        let is_arp = self.handle_summary(&s);
                        ListenerOutcome::Handled(is_arp)
                    },
                }
            },
        }
    }
}

} // verus!
