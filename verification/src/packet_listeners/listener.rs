use vstd::prelude::*;

verus! {

/// Why a listener build step failed.
#[derive(Clone, Copy, Debug, Eq, PartialEq, Structural)]
pub enum BuildError {
    NoReceiver,
}

/// One observation of a listener's driver loop: the cancellation signal
/// (which takes priority and terminates the loop), the channel reporting
/// that its sender half is gone, or the next received item.
pub enum ListenerEvent {
    Cancelled,
    ChannelClosed,
    Item(crate::devices::ReceivedPacketData),
}

/// What one step of a listener's driver loop did with its event. Every
/// outcome but `Stop` keeps the loop alive.
#[derive(Debug, Eq, PartialEq)]
pub enum ListenerOutcome<D> {
    /// The cancellation signal was observed: the loop terminates.
    Stop,
    /// A frame was decoded and handled; the handler's diagnostic record.
    Handled(D),
    /// A frame failed to decode: logged, dropped, the loop continues.
    DecodeFailed,
    /// An item that this handler has nothing to do with.
    Ignored,
}

/// A counter increment that saturates instead of wrapping.
pub open spec fn spec_sat_inc64(c: u64) -> u64 {
    if c == u64::MAX {
        c
    } else {
        (c + 1) as u64
    }
}

} // verus!
