//! Byte counters of a tunnel.
use vstd::prelude::*;

verus! {

/// Bytes that a tunnel has carried in each direction. A counter that passes
/// its largest value starts again from zero.
#[derive(Debug)]
pub struct TrafficCounters {
    rx_total: u64,
    tx_total: u64,
}

impl TrafficCounters {
    /// Bytes received from the remote side.
    pub closed spec fn rx(self) -> u64 {
        self.rx_total
    }

    /// Bytes sent to the remote side.
    pub closed spec fn tx(self) -> u64 {
        self.tx_total
    }

    /// Counts bytes received.
    pub fn add_rx(&mut self, bytes: u64)
        ensures
            final(self).rx() == (old(self).rx() + bytes) % 0x1_0000_0000_0000_0000,
            final(self).tx() == old(self).tx(),
    {
        self.rx_total = self.rx_total.wrapping_add(bytes);
    }

    /// Counts bytes sent.
    pub fn add_tx(&mut self, bytes: u64)
        ensures
            final(self).tx() == (old(self).tx() + bytes) % 0x1_0000_0000_0000_0000,
            final(self).rx() == old(self).rx(),
    {
        self.tx_total = self.tx_total.wrapping_add(bytes);
    }

    /// Bytes received, then bytes sent.
    pub fn totals(&self) -> (r: (u64, u64))
        ensures
            r == (self.rx(), self.tx()),
    {
        (self.rx_total, self.tx_total)
    }
}

impl Default for TrafficCounters {
    fn default() -> (r: Self)
        ensures
            r.rx() == 0,
            r.tx() == 0,
    {
        TrafficCounters { rx_total: 0, tx_total: 0 }
    }
}

} // verus!
