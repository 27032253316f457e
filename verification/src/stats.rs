//! Counters of the traffic of one session. They are for observation only:
//! nothing in the session reads them to decide anything.

use vstd::prelude::*;

verus! {

/// What a counter of `usize` holds after `count` was added to `value`: the
/// sum, reduced modulo the number of values of `usize` where it passes the
/// largest.
pub open spec fn counter_add(value: usize, count: usize) -> usize {
    if value + count <= usize::MAX {
        (value + count) as usize
    } else {
        (value + count - usize::MAX - 1) as usize
    }
}

/// Messages and bytes sent and received.
#[derive(Clone, Copy, Debug, PartialEq, Eq, Structural)]
pub struct TransportUnicastStatsInner {
    tx_msgs: usize,
    tx_bytes: usize,
    rx_msgs: usize,
    rx_bytes: usize,
}

impl TransportUnicastStatsInner {
    pub closed spec fn tx_msgs(self) -> usize {
        self.tx_msgs
    }

    pub closed spec fn tx_bytes(self) -> usize {
        self.tx_bytes
    }

    pub closed spec fn rx_msgs(self) -> usize {
        self.rx_msgs
    }

    pub closed spec fn rx_bytes(self) -> usize {
        self.rx_bytes
    }

    pub fn inc_tx_msgs(&mut self, messages: usize)
        ensures
            final(self).tx_msgs() == counter_add(old(self).tx_msgs(), messages),
            final(self).tx_bytes() == old(self).tx_bytes(),
            final(self).rx_msgs() == old(self).rx_msgs(),
            final(self).rx_bytes() == old(self).rx_bytes(),
    {
        self.tx_msgs = self.tx_msgs.wrapping_add(messages);
    }

    pub fn get_tx_msgs(&self) -> (n: usize)
        ensures
            n == self.tx_msgs(),
    {
        self.tx_msgs
    }

    pub fn inc_tx_bytes(&mut self, bytes: usize)
        ensures
            final(self).tx_bytes() == counter_add(old(self).tx_bytes(), bytes),
            final(self).tx_msgs() == old(self).tx_msgs(),
            final(self).rx_msgs() == old(self).rx_msgs(),
            final(self).rx_bytes() == old(self).rx_bytes(),
    {
        self.tx_bytes = self.tx_bytes.wrapping_add(bytes);
    }

    pub fn get_tx_bytes(&self) -> (n: usize)
        ensures
            n == self.tx_bytes(),
    {
        self.tx_bytes
    }

    pub fn inc_rx_msgs(&mut self, messages: usize)
        ensures
            final(self).rx_msgs() == counter_add(old(self).rx_msgs(), messages),
            final(self).tx_msgs() == old(self).tx_msgs(),
            final(self).tx_bytes() == old(self).tx_bytes(),
            final(self).rx_bytes() == old(self).rx_bytes(),
    {
        self.rx_msgs = self.rx_msgs.wrapping_add(messages);
    }

    pub fn get_rx_msgs(&self) -> (n: usize)
        ensures
            n == self.rx_msgs(),
    {
        self.rx_msgs
    }

    pub fn inc_rx_bytes(&mut self, bytes: usize)
        ensures
            final(self).rx_bytes() == counter_add(old(self).rx_bytes(), bytes),
            final(self).tx_msgs() == old(self).tx_msgs(),
            final(self).tx_bytes() == old(self).tx_bytes(),
            final(self).rx_msgs() == old(self).rx_msgs(),
    {
        self.rx_bytes = self.rx_bytes.wrapping_add(bytes);
    }

    pub fn get_rx_bytes(&self) -> (n: usize)
        ensures
            n == self.rx_bytes(),
    {
        self.rx_bytes
    }
}

impl Default for TransportUnicastStatsInner {
    /// All four counters at zero.
    fn default() -> (s: TransportUnicastStatsInner)
        ensures
            s.tx_msgs() == 0,
            s.tx_bytes() == 0,
            s.rx_msgs() == 0,
            s.rx_bytes() == 0,
    {
        TransportUnicastStatsInner { tx_msgs: 0, tx_bytes: 0, rx_msgs: 0, rx_bytes: 0 }
    }
}

} // verus!
