//! The elementary operations a transport asks of the hardware.

use vstd::prelude::*;
use crate::error::Port;

verus! {

/// How long the enable line stays high before it falls, in milliseconds.
///
/// The controller samples its inputs when enable falls, and needs enable to
/// have been high for some minimum time before that.
pub const ENABLE_HOLD_MS: u32 = 2;

/// The bytes of one write on the two-wire bus, in the order they are sent.
#[derive(Clone, Copy, Debug, PartialEq, Eq, Structural)]
pub enum Frame {
    Single(u8),
    Pair(u8, u8),
}

impl Frame {
    /// The bytes of the frame.
    pub open spec fn bytes(self) -> Seq<u8> {
        match self {
            Frame::Single(only) => seq![only],
            Frame::Pair(first, second) => seq![first, second],
        }
    }

    /// The byte sent last, which is what the expander's outputs rest at.
    pub open spec fn spec_last(&self) -> u8 {
        match *self {
            Frame::Single(only) => only,
            Frame::Pair(_, second) => second,
        }
    }

    /// The bytes of the frame.
    pub fn to_vec(&self) -> (bytes: Vec<u8>)
        ensures
            bytes@ == self.bytes(),
    {
        match self {
            Frame::Single(only) => vec![*only],
            Frame::Pair(first, second) => vec![*first, *second],
        }
    }

    /// The byte sent last.
    #[verifier::when_used_as_spec(spec_last)]
    pub fn last(&self) -> (byte: u8)
        ensures
            byte == self.spec_last(),
    {
        match self {
            Frame::Single(only) => *only,
            Frame::Pair(_, second) => *second,
        }
    }
}

/// One operation on the hardware.
#[derive(Clone, Copy, Debug, PartialEq, Eq, Structural)]
pub enum Signal {
    /// Drive the line `port` high or low.
    Pin { port: Port, high: bool },
    /// Wait for `ms` milliseconds.
    Hold { ms: u32 },
    /// Write `frame` to the device at `address` on the two-wire bus.
    Bus { address: u8, frame: Frame },
}

impl Signal {
    /// The port that a failure of this signal is charged to. Waiting has
    /// none: it cannot fail.
    pub open spec fn spec_port(&self) -> Option<Port> {
        match *self {
            Signal::Pin { port, .. } => Some(port),
            Signal::Hold { .. } => None,
            Signal::Bus { .. } => Some(Port::I2C),
        }
    }

    /// The port that a failure of this signal is charged to.
    #[verifier::when_used_as_spec(spec_port)]
    pub fn port(&self) -> (port: Option<Port>)
        ensures
            port == self.spec_port(),
    {
        match self {
            Signal::Pin { port, .. } => Some(*port),
            Signal::Hold { .. } => None,
            Signal::Bus { .. } => Some(Port::I2C),
        }
    }
}

/// The writes on the two-wire bus among the first `count` of `signals`, in
/// order, each with the address it goes to.
pub open spec fn bus_writes(signals: Seq<Signal>, count: nat) -> Seq<(u8, Frame)>
    decreases count,
{
    if count == 0 {
        Seq::empty()
    } else {
        let before = bus_writes(signals, (count - 1) as nat);
        match signals[count - 1] {
            Signal::Bus { address, frame } => before.push((address, frame)),
            _ => before,
        }
    }
}

} // verus!
