//! Per-tunnel traffic counters.

use vstd::prelude::*;

verus! {

/// Traffic counters of one tunnel. Counters wrap around; timestamps are
/// milliseconds since the epoch, 0 before the first packet.
#[derive(Debug, Clone, Copy, PartialEq, Eq, Structural)]
pub struct TunnelStats {
    pub tx_packets: u64,
    pub tx_bytes: u64,
    pub rx_packets: u64,
    pub rx_bytes: u64,
    pub tx_errors: u64,
    pub rx_errors: u64,
    pub last_rx_timestamp: i64,
    pub last_tx_timestamp: i64,
}

/// The counters of a tunnel that nothing went through.
pub open spec fn zero_stats() -> TunnelStats {
    TunnelStats {
        tx_packets: 0,
        tx_bytes: 0,
        rx_packets: 0,
        rx_bytes: 0,
        tx_errors: 0,
        rx_errors: 0,
        last_rx_timestamp: 0,
        last_tx_timestamp: 0,
    }
}

/// The counters after `bytes` bytes were received at `now_ms`.
pub open spec fn stats_after_rx(stats: TunnelStats, bytes: u64, now_ms: i64) -> TunnelStats {
    TunnelStats {
        rx_packets: stats.rx_packets.wrapping_add(1),
        rx_bytes: stats.rx_bytes.wrapping_add(bytes),
        last_rx_timestamp: now_ms,
        ..stats
    }
}

/// The counters after a received frame could not be delivered.
pub open spec fn stats_after_rx_error(stats: TunnelStats) -> TunnelStats {
    TunnelStats { rx_errors: stats.rx_errors.wrapping_add(1), ..stats }
}

/// The counters after `bytes` bytes were read for sending at `now_ms`.
pub open spec fn stats_after_tx(stats: TunnelStats, bytes: u64, now_ms: i64) -> TunnelStats {
    TunnelStats {
        tx_packets: stats.tx_packets.wrapping_add(1),
        tx_bytes: stats.tx_bytes.wrapping_add(bytes),
        last_tx_timestamp: now_ms,
        ..stats
    }
}

impl TunnelStats {
    pub fn new() -> (stats: Self)
        ensures
            stats == zero_stats(),
    {
        TunnelStats {
            tx_packets: 0,
            tx_bytes: 0,
            rx_packets: 0,
            rx_bytes: 0,
            tx_errors: 0,
            rx_errors: 0,
            last_rx_timestamp: 0,
            last_tx_timestamp: 0,
        }
    }

    /// Count a received packet.
    pub fn record_rx(&mut self, bytes: u64, now_ms: i64)
        ensures
            *final(self) == stats_after_rx(*old(self), bytes, now_ms),
    {
        self.rx_packets = self.rx_packets.wrapping_add(1);
        self.rx_bytes = self.rx_bytes.wrapping_add(bytes);
        self.last_rx_timestamp = now_ms;
    }

    /// Count a received frame that could not be delivered.
    pub fn record_rx_error(&mut self)
        ensures
            *final(self) == stats_after_rx_error(*old(self)),
    {
        self.rx_errors = self.rx_errors.wrapping_add(1);
    }

    /// Count a frame read for sending.
    pub fn record_tx(&mut self, bytes: u64, now_ms: i64)
        ensures
            *final(self) == stats_after_tx(*old(self), bytes, now_ms),
    {
        self.tx_packets = self.tx_packets.wrapping_add(1);
        self.tx_bytes = self.tx_bytes.wrapping_add(bytes);
        self.last_tx_timestamp = now_ms;
    }
}

impl Default for TunnelStats {
    fn default() -> (stats: Self)
        ensures
            stats == zero_stats(),
    {
        TunnelStats::new()
    }
}

/// Receiving counts one packet, its bytes and its time, and nothing that is sent.
pub proof fn law_rx_is_counted(stats: TunnelStats, bytes: u64, now_ms: i64)
    ensures
        ({
            let after = stats_after_rx(stats, bytes, now_ms);
            &&& after.rx_packets == stats.rx_packets.wrapping_add(1)
            &&& after.rx_bytes == stats.rx_bytes.wrapping_add(bytes)
            &&& after.last_rx_timestamp == now_ms
            &&& after.rx_errors == stats.rx_errors
            &&& after.tx_packets == stats.tx_packets
            &&& after.tx_bytes == stats.tx_bytes
            &&& after.tx_errors == stats.tx_errors
            &&& after.last_tx_timestamp == stats.last_tx_timestamp
        }),
{
}

/// A frame that could not be delivered counts as one error, and as nothing else.
pub proof fn law_rx_error_is_counted(stats: TunnelStats)
    ensures
        ({
            let after = stats_after_rx_error(stats);
            &&& after.rx_errors == stats.rx_errors.wrapping_add(1)
            &&& after.rx_packets == stats.rx_packets
            &&& after.rx_bytes == stats.rx_bytes
            &&& after.last_rx_timestamp == stats.last_rx_timestamp
            &&& after.tx_packets == stats.tx_packets
            &&& after.tx_bytes == stats.tx_bytes
            &&& after.tx_errors == stats.tx_errors
            &&& after.last_tx_timestamp == stats.last_tx_timestamp
        }),
{
}

/// Sending counts one packet, its bytes and its time, and nothing that is received.
pub proof fn law_tx_is_counted(stats: TunnelStats, bytes: u64, now_ms: i64)
    ensures
        ({
            let after = stats_after_tx(stats, bytes, now_ms);
            &&& after.tx_packets == stats.tx_packets.wrapping_add(1)
            &&& after.tx_bytes == stats.tx_bytes.wrapping_add(bytes)
            &&& after.last_tx_timestamp == now_ms
            &&& after.tx_errors == stats.tx_errors
            &&& after.rx_packets == stats.rx_packets
            &&& after.rx_bytes == stats.rx_bytes
            &&& after.rx_errors == stats.rx_errors
            &&& after.last_rx_timestamp == stats.last_rx_timestamp
        }),
{
}

/// A tunnel that nothing went through has counted nothing.
pub proof fn law_zero_stats()
    ensures
        ({
            let stats = zero_stats();
            &&& stats.tx_packets == 0 && stats.tx_bytes == 0 && stats.tx_errors == 0
            &&& stats.rx_packets == 0 && stats.rx_bytes == 0 && stats.rx_errors == 0
            &&& stats.last_rx_timestamp == 0 && stats.last_tx_timestamp == 0
        }),
{
}

} // verus!
