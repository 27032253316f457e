//! Per-priority channel state: the sequence counters of the two delivery
//! classes and, for the receiving side, the bound of the reassembly buffer.

use crate::protocol::{ConduitSn, Priority};
use crate::seq_num::{SeqNum, ZInt};
use vstd::prelude::*;

verus! {

/// The sending side of one priority class.
#[derive(Clone, Copy, Debug)]
pub struct TransportConduitTx {
    pub priority: Priority,
    pub reliable: SeqNum,
    pub best_effort: SeqNum,
}

/// The receiving side of one priority class.
#[derive(Clone, Copy, Debug)]
pub struct TransportConduitRx {
    pub priority: Priority,
    pub reliable: SeqNum,
    pub best_effort: SeqNum,
    /// The most bytes that a message under reassembly may take.
    pub defrag_buff_size: usize,
}

impl TransportConduitTx {
    /// Whether this is the conduit of `priority` with both counters at
    /// their values in `initial_sn`, counting modulo `sn_resolution`.
    pub open spec fn starts_at(self, priority: Priority, sn_resolution: ZInt, initial_sn: ConduitSn) -> bool {
        &&& self.priority == priority
        &&& self.reliable.value() == initial_sn.reliable
        &&& self.reliable.resolution() == sn_resolution
        &&& self.best_effort.value() == initial_sn.best_effort
        &&& self.best_effort.resolution() == sn_resolution
    }

    pub fn new(priority: Priority, sn_resolution: ZInt, initial_sn: ConduitSn) -> (c: TransportConduitTx)
        requires
            SeqNum::admits(initial_sn.reliable, sn_resolution),
            SeqNum::admits(initial_sn.best_effort, sn_resolution),
        ensures
            c.starts_at(priority, sn_resolution, initial_sn),
    {
        TransportConduitTx {
            priority,
            reliable: SeqNum::new(initial_sn.reliable, sn_resolution),
            best_effort: SeqNum::new(initial_sn.best_effort, sn_resolution),
        }
    }
}

impl TransportConduitRx {
    /// Whether this is the conduit of `priority` with both counters at
    /// their values in `initial_sn`, counting modulo `sn_resolution`, and
    /// with a reassembly buffer of at most `defrag_buff_size` bytes.
    pub open spec fn starts_at(
        self,
        priority: Priority,
        sn_resolution: ZInt,
        initial_sn: ConduitSn,
        defrag_buff_size: usize,
    ) -> bool {
        &&& self.priority == priority
        &&& self.reliable.value() == initial_sn.reliable
        &&& self.reliable.resolution() == sn_resolution
        &&& self.best_effort.value() == initial_sn.best_effort
        &&& self.best_effort.resolution() == sn_resolution
        &&& self.defrag_buff_size == defrag_buff_size
    }

    pub fn new(
        priority: Priority,
        sn_resolution: ZInt,
        initial_sn: ConduitSn,
        defrag_buff_size: usize,
    ) -> (c: TransportConduitRx)
        requires
            SeqNum::admits(initial_sn.reliable, sn_resolution),
            SeqNum::admits(initial_sn.best_effort, sn_resolution),
        ensures
            c.starts_at(priority, sn_resolution, initial_sn, defrag_buff_size),
    {
        TransportConduitRx {
            priority,
            reliable: SeqNum::new(initial_sn.reliable, sn_resolution),
            best_effort: SeqNum::new(initial_sn.best_effort, sn_resolution),
            defrag_buff_size,
        }
    }
}

} // verus!
