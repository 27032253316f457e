//! The protocol values that a session reads and writes: identities,
//! priorities, initial sequence numbers and the close message.

use crate::seq_num::ZInt;
use vstd::prelude::*;

verus! {

/// The identity of a peer.
#[derive(Clone, Copy, Debug, PartialEq, Eq, Structural, Hash)]
pub struct PeerId {
    pub id: u128,
}

/// The role that a peer announced in the handshake.
pub type WhatAmI = ZInt;

/// The priority classes, from the most urgent to the least.
#[derive(Clone, Copy, Debug, PartialEq, Eq, Structural, Hash)]
pub enum Priority {
    Control,
    RealTime,
    InteractiveHigh,
    InteractiveLow,
    DataHigh,
    Data,
    DataLow,
    Background,
}

impl Priority {
    /// The number of priority classes.
    pub const NUM: usize = 8;

    /// The place of a class in the order of urgency, `Control` being 0.
    pub open spec fn index(self) -> int {
        match self {
            Priority::Control => 0,
            Priority::RealTime => 1,
            Priority::InteractiveHigh => 2,
            Priority::InteractiveLow => 3,
            Priority::DataHigh => 4,
            Priority::Data => 5,
            Priority::DataLow => 6,
            Priority::Background => 7,
        }
    }

    /// The class that stands at `index`, for an index below `NUM`.
    pub open spec fn at(index: int) -> Priority {
        if index == 0 {
            Priority::Control
        } else if index == 1 {
            Priority::RealTime
        } else if index == 2 {
            Priority::InteractiveHigh
        } else if index == 3 {
            Priority::InteractiveLow
        } else if index == 4 {
            Priority::DataHigh
        } else if index == 5 {
            Priority::Data
        } else if index == 6 {
            Priority::DataLow
        } else {
            Priority::Background
        }
    }

    /// The number of a class on the wire.
    pub fn id(self) -> (n: u8)
        ensures
            n == self.index(),
            n < Priority::NUM,
    {
        match self {
            Priority::Control => 0,
            Priority::RealTime => 1,
            Priority::InteractiveHigh => 2,
            Priority::InteractiveLow => 3,
            Priority::DataHigh => 4,
            Priority::Data => 5,
            Priority::DataLow => 6,
            Priority::Background => 7,
        }
    }

    /// The class with the given number, if there is one.
    pub fn from_id(n: u8) -> (p: Option<Priority>)
        ensures
            p.is_some() == (n < Priority::NUM),
            p matches Some(class) ==> class == Priority::at(n as int) && class.index() == n,
    {
        match n {
            0 => Some(Priority::Control),
            1 => Some(Priority::RealTime),
            2 => Some(Priority::InteractiveHigh),
            3 => Some(Priority::InteractiveLow),
            4 => Some(Priority::DataHigh),
            5 => Some(Priority::Data),
            6 => Some(Priority::DataLow),
            7 => Some(Priority::Background),
            _ => None,
        }
    }
}

impl Default for Priority {
    /// The class of a message that asks for none.
    fn default() -> (p: Priority)
        ensures
            p == Priority::Data,
    {
        Priority::Data
    }
}

/// The two sequence numbers, one per delivery class, that a conduit starts with.
#[derive(Clone, Copy, Debug, PartialEq, Eq, Structural)]
pub struct ConduitSn {
    pub reliable: ZInt,
    pub best_effort: ZInt,
}

/// Opaque bytes that may travel with a message.
#[derive(Clone, Debug, PartialEq, Eq)]
pub struct Attachment {
    pub buffer: Vec<u8>,
}

/// A message of the transport protocol that the session itself sends.
#[derive(Clone, Debug, PartialEq, Eq)]
pub enum TransportMessage {
    /// Tells the peer that the sender closes the link the message travels
    /// on (`link_only`) or the whole session.
    Close { pid: Option<PeerId>, reason: u8, link_only: bool, attachment: Option<Attachment> },
}

impl TransportMessage {
    pub fn make_close(
        pid: Option<PeerId>,
        reason: u8,
        link_only: bool,
        attachment: Option<Attachment>,
    ) -> (msg: TransportMessage)
        ensures
            msg == (TransportMessage::Close { pid, reason, link_only, attachment }),
    {
        TransportMessage::Close { pid, reason, link_only, attachment }
    }
}

} // verus!
