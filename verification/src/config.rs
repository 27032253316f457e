//! What the manager hands to a session when it creates it.

use crate::protocol::{PeerId, Priority, WhatAmI};
use crate::seq_num::{SeqNum, ZInt};
use vstd::prelude::*;

verus! {

/// The manager's settings that a session reads.
#[derive(Clone, Copy, Debug, PartialEq, Eq, Structural)]
pub struct TransportManagerConfig {
    /// The identity of the local peer.
    pub pid: PeerId,
    /// The most links that one session may hold.
    pub max_links: usize,
    /// The most bytes that a message under reassembly may take.
    pub defrag_buff_size: usize,
}

/// The outcome of the handshake with one peer.
#[derive(Clone, Copy, Debug, PartialEq, Eq, Structural)]
pub struct TransportUnicastConfig {
    pub manager: TransportManagerConfig,
    /// The identity of the remote peer.
    pub pid: PeerId,
    pub whatami: WhatAmI,
    pub sn_resolution: ZInt,
    pub initial_sn_tx: ZInt,
    pub initial_sn_rx: ZInt,
    pub is_shm: bool,
    pub is_qos: bool,
}

impl TransportUnicastConfig {
    /// Whether a session can be made from the configuration: both initial
    /// sequence numbers are below the resolution.
    pub open spec fn valid(self) -> bool {
        &&& SeqNum::admits(self.initial_sn_tx, self.sn_resolution)
        &&& SeqNum::admits(self.initial_sn_rx, self.sn_resolution)
    }

    /// The number of conduits in each direction: one per priority class
    /// with priorities, one without.
    pub open spec fn conduits(self) -> nat {
        if self.is_qos {
            Priority::NUM as nat
        } else {
            1
        }
    }

    /// The priority class of the conduit at `index`.
    pub open spec fn conduit_priority(self, index: int) -> Priority {
        if self.is_qos {
            Priority::at(index)
        } else {
            Priority::Data
        }
    }

    pub fn is_valid(&self) -> (ok: bool)
        ensures
            ok == self.valid(),
    {
        self.initial_sn_tx < self.sn_resolution && self.initial_sn_rx < self.sn_resolution
    }
}

} // verus!
