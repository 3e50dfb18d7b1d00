//! RX packet path: IP packet, header offsets, demux, channel to the TAP writer.
//!
//! The sockets, the threads and the decoding of the tunnel header are the
//! caller's; what is done with a received packet and its decoded header is here.

use crate::addr::be_value;
use crate::addr::law_four_octets;
use crate::addr::law_key_code_injective;
use crate::addr::DemuxKey;
use crate::addr::IpAddr;
use crate::packet::buffer::frame_prefix;
use crate::packet::buffer::given_back;
use crate::packet::buffer::idle_after_get;
use crate::packet::buffer::BufferPool;
use crate::packet::buffer::PacketBuf;
use crate::packet::buffer::MAX_FRAME_SIZE;
use crate::text::decimal;
use crate::text::law_decimal_injective;
use crate::text::to_decimal;
use crate::tunnel::handle::channel_capacity;
use crate::tunnel::handle::delivered;
use crate::tunnel::handle::ends_tied;
use crate::tunnel::handle::offered;
use crate::tunnel::handle::TunnelHandle;
use crate::tunnel::registry::TunnelRegistry;
use crate::tunnel::stats::stats_after_rx;
use crate::tunnel::stats::stats_after_rx_error;
use vstd::prelude::*;
use vstd::string::*;

verus! {

/// Batch size for recvmmsg.
pub const RECV_BATCH: usize = 32;

/// Per-buffer size for recvmmsg. Max EoIP frame = 20 (IP) + 8 (GRE) + 1500 (MTU)
/// + 14 (ETH) + 4 (VLAN) = 1546, rounded up for alignment.
pub const RECV_BUF_SIZE: usize = 2048;

/// Length of an EoIP header.
pub const EOIP_HEADER_LEN: usize = 8;

/// Length of an EtherIP header.
pub const ETHERIP_HEADER_LEN: usize = 2;

/// Length of the Ethernet header that AF_PACKET puts in front of a packet.
pub const ETH_HLEN: usize = 14;

/// What became of a received packet.
#[derive(Debug, Clone, Copy, PartialEq, Eq, Structural)]
pub enum RxOutcome {
    /// Too short, or no tunnel header.
    Ignored,
    /// No tunnel with this ID and peer.
    Miss,
    /// Counted; it carries no frame.
    Keepalive,
    /// Counted; the tunnel has no TAP writer.
    NoChannel,
    /// Counted, and handed to the TAP writer.
    Delivered,
    /// Counted, and dropped because the TAP writer is behind or gone.
    Dropped,
}

/// A decoded EoIP header.
#[derive(Debug, Clone, Copy, PartialEq, Eq, Structural)]
pub struct EoipHeader {
    pub tunnel_id: u16,
    pub payload_len: u16,
    pub header_len: usize,
}

/// A decoded EtherIP header.
#[derive(Debug, Clone, Copy, PartialEq, Eq, Structural)]
pub struct EtherIpHeader {
    pub tunnel_id: u16,
    pub header_len: usize,
}

/// What a handle and a pool's idle buffers become when a packet's frame is
/// received and `outcome` is reported.
pub open spec fn frame_received(
    before: TunnelHandle,
    after: TunnelHandle,
    idle_before: Seq<PacketBuf>,
    idle_after: Seq<PacketBuf>,
    capacity: nat,
    frame: Seq<u8>,
    keepalive: bool,
    now_ms: i64,
    outcome: RxOutcome,
) -> bool {
    let counted = stats_after_rx(before.stats, frame.len() as u64, now_ms);
    &&& after.config == before.config
    &&& after.state == before.state
    &&& after.actual_mtu == before.actual_mtu
    &&& after.rx_receiver == before.rx_receiver
    &&& after.rx_channel is Some <==> before.rx_channel is Some
    &&& after.rx_channel is Some ==> channel_capacity(after.rx_channel->0) == channel_capacity(
        before.rx_channel->0,
    )
    &&& ends_tied(after) == ends_tied(before)
    &&& offered(after) == (if keepalive || before.rx_channel is None {
        offered(before)
    } else {
        offered(before).push(frame_prefix(frame))
    })
    &&& if keepalive {
        &&& outcome is Keepalive
        &&& after.stats == counted
        &&& delivered(after) == delivered(before)
        &&& idle_after == idle_before
    } else if before.rx_channel is None {
        &&& outcome is NoChannel
        &&& after.stats == counted
        &&& idle_after == idle_before
    } else {
        ||| {
            &&& outcome is Delivered
            &&& after.stats == counted
            &&& delivered(after) == delivered(before).push(frame_prefix(frame))
            &&& idle_after == idle_after_get(idle_before)
        }
        ||| {
            &&& outcome is Dropped
            &&& after.stats == stats_after_rx_error(counted)
            &&& delivered(after) == delivered(before)
            &&& refused_buffer_returned(idle_before, idle_after, capacity, frame)
        }
    }
}

/// The idle buffers after one was taken out, filled with `frame`, refused by
/// the channel and given back.
pub open spec fn refused_buffer_returned(
    before: Seq<PacketBuf>,
    after: Seq<PacketBuf>,
    capacity: nat,
    frame: Seq<u8>,
) -> bool {
    exists|buf: PacketBuf|
        {
            &&& buf.pooled() == (before.len() > 0)
            &&& buf@ == frame_prefix(frame)
            &&& #[trigger] given_back(idle_after_get(before), capacity, buf, after)
        }
}

/// Settle a delivery once the channel has answered: a buffer that came back
/// returns to the pool and counts as an error.
pub fn settle_delivery(
    handle: &mut TunnelHandle,
    pool: &mut BufferPool,
    refused: Option<PacketBuf>,
) -> (outcome: RxOutcome)
    requires
        old(pool).wf(),
    ensures
        final(pool).wf(),
        final(pool).bound() == old(pool).bound(),
        final(handle).config == old(handle).config,
        final(handle).state == old(handle).state,
        final(handle).actual_mtu == old(handle).actual_mtu,
        final(handle).rx_channel == old(handle).rx_channel,
        final(handle).rx_receiver == old(handle).rx_receiver,
        refused is None ==> outcome is Delivered && final(handle).stats == old(handle).stats
            && final(pool)@ == old(pool)@,
        refused matches Some(buf) ==> outcome is Dropped && final(handle).stats
            == stats_after_rx_error(old(handle).stats) && given_back(
            old(pool)@,
            old(pool).bound(),
            buf,
            final(pool)@,
        ),
{
    match refused {
        None => RxOutcome::Delivered,
        Some(buf) => {
            pool.put(buf);
            handle.stats.record_rx_error();
            RxOutcome::Dropped
        },
    }
}

/// Count a received packet, and hand its frame to the TAP writer unless it is
/// a keepalive.
pub fn receive_frame(
    handle: &mut TunnelHandle,
    pool: &mut BufferPool,
    frame: &[u8],
    keepalive: bool,
    now_ms: i64,
) -> (outcome: RxOutcome)
    requires
        old(pool).wf(),
    ensures
        final(pool).wf(),
        final(pool).bound() == old(pool).bound(),
        frame_received(
            *old(handle),
            *final(handle),
            old(pool)@,
            final(pool)@,
            old(pool).bound(),
            frame@,
            keepalive,
            now_ms,
            outcome,
        ),
{
    handle.stats.record_rx(frame.len() as u64, now_ms);
    // Keepalive: stats only
    if keepalive {
        return RxOutcome::Keepalive;
    }
    if handle.rx_channel.is_none() {
        return RxOutcome::NoChannel;
    }
    // Deliver frame to TAP writer
    let mut buf = pool.get();
    buf.fill(frame);
    let refused = handle.offer(buf);
    settle_delivery(handle, pool, refused)
}

/// What the registry and the pool become when a frame of the tunnel `key`
/// is received.
pub open spec fn demuxed(
    before: TunnelRegistry,
    after: TunnelRegistry,
    pool_before: BufferPool,
    pool_after: BufferPool,
    key: DemuxKey,
    frame: Seq<u8>,
    keepalive: bool,
    now_ms: i64,
    outcome: RxOutcome,
) -> bool {
    if before@.dom().contains(key@) {
        &&& after@ == before@.insert(key@, after@[key@])
        &&& frame_received(
            before@[key@],
            after@[key@],
            pool_before@,
            pool_after@,
            pool_before.bound(),
            frame,
            keepalive,
            now_ms,
            outcome,
        )
    } else {
        &&& outcome is Miss
        &&& after@ == before@
        &&& pool_after@ == pool_before@
    }
}

/// Receive a frame for the tunnel `key`, if there is one.
pub fn demux_frame(
    registry: &mut TunnelRegistry,
    pool: &mut BufferPool,
    key: DemuxKey,
    frame: &[u8],
    keepalive: bool,
    now_ms: i64,
) -> (outcome: RxOutcome)
    requires
        old(registry).wf(),
        old(pool).wf(),
    ensures
        final(registry).wf(),
        final(pool).wf(),
        final(pool).bound() == old(pool).bound(),
        demuxed(
            *old(registry),
            *final(registry),
            *old(pool),
            *final(pool),
            key,
            frame@,
            keepalive,
            now_ms,
            outcome,
        ),
{
    match registry.remove(&key) {
        Some((_, mut handle)) => {
            let outcome = receive_frame(&mut handle, pool, frame, keepalive, now_ms);
            let _ = registry.insert(key, handle);
            assert(registry@ =~= old(registry)@.insert(key@, registry@[key@]));
            outcome
        },
        None => {
            assert(registry@ =~= old(registry)@);
            RxOutcome::Miss
        },
    }
}

/// A timestamp that is refreshed once every 64 times it is asked for.
#[derive(Debug, Clone, Copy, PartialEq, Eq, Structural)]
pub struct CoarseClock {
    pub count: u64,
    pub cached_ms: i64,
}

/// How many times a timestamp is used.
pub const CLOCK_REFRESH: u64 = 64;

/// The timestamp that a clock gives, `reading` being the time at the moment.
pub open spec fn clock_timestamp(clock: CoarseClock, reading: i64) -> i64 {
    if clock.count % CLOCK_REFRESH == 0 {
        reading
    } else {
        clock.cached_ms
    }
}

/// The clock after it was asked once.
pub open spec fn clock_after(clock: CoarseClock, reading: i64) -> CoarseClock {
    CoarseClock {
        count: clock.count.wrapping_add(1),
        cached_ms: clock_timestamp(clock, reading),
    }
}

impl CoarseClock {
    pub fn new() -> (clock: Self)
        ensures
            clock.count == 0,
            clock.cached_ms == 0,
    {
        CoarseClock { count: 0, cached_ms: 0 }
    }

    /// Whether the next timestamp is a fresh reading.
    pub fn is_due(&self) -> (due: bool)
        ensures
            due == (self.count % CLOCK_REFRESH == 0),
    {
        self.count % CLOCK_REFRESH == 0
    }

    /// The timestamp in milliseconds; `reading` is the time at the moment, and
    /// only looked at when a fresh one is due.
    pub fn timestamp_ms(&mut self, reading: i64) -> (now_ms: i64)
        ensures
            now_ms == clock_timestamp(*old(self), reading),
            *final(self) == clock_after(*old(self), reading),
    {
        if self.is_due() {
            self.cached_ms = reading;
        }
        self.count = self.count.wrapping_add(1);
        self.cached_ms
    }
}

impl Default for CoarseClock {
    fn default() -> (clock: Self)
        ensures
            clock.count == 0,
            clock.cached_ms == 0,
    {
        CoarseClock::new()
    }
}

/// Milliseconds since the epoch of a `timespec`.
pub fn timespec_ms(secs: i64, nanos: i64) -> (ms: i64)
    requires
        0 <= nanos < 1_000_000_000,
        i64::MIN <= secs * 1000,
        secs * 1000 + 999 <= i64::MAX,
    ensures
        ms == secs * 1000 + nanos / 1_000_000,
{
    secs * 1000 + nanos / 1_000_000
}

/// Where the tunnel header of an IPv4 packet of `n` bytes starts, if the
/// packet is long enough to have one.
pub open spec fn v4_payload_offset(buf: Seq<u8>, n: int) -> Option<int> {
    let header_len = (buf[0] as int % 16) * 4;
    if n < 20 || n < header_len + EOIP_HEADER_LEN {
        None
    } else {
        Some(header_len)
    }
}

/// The source address of an IPv4 packet.
pub open spec fn v4_source(buf: Seq<u8>) -> IpAddr {
    IpAddr::V4(be_value(buf.subrange(12, 16)) as u32)
}

/// Where to find things in an IPv4 packet that carries EoIP.
#[derive(Debug, Clone, Copy, PartialEq, Eq, Structural)]
pub struct V4Layout {
    /// The sender.
    pub source: IpAddr,
    /// Where the tunnel header starts.
    pub offset: usize,
}

/// Find the tunnel header and the sender of an IPv4 packet, `n` being the
/// number of bytes received into `buf`.
pub fn locate_v4(buf: &[u8], n: usize) -> (layout: Option<V4Layout>)
    requires
        n <= buf@.len(),
    ensures
        layout is Some <==> v4_payload_offset(buf@, n as int) is Some,
        layout matches Some(l) ==> v4_payload_offset(buf@, n as int) == Some(l.offset as int)
            && l.source == v4_source(buf@),
{
    if n < 20 {
        return None;
    }
    let first: u8 = buf[0];
    assert(first & 0x0f == first % 16) by (bit_vector);
    let ihl: usize = (first & 0x0f) as usize;
    let ip_hdr_len: usize = ihl * 4;
    if n < ip_hdr_len + EOIP_HEADER_LEN {
        return None;
    }
    let source = IpAddr::from_v4_octets(buf[12], buf[13], buf[14], buf[15]);
    assert(buf@.subrange(12, 16) =~= seq![buf@[12], buf@[13], buf@[14], buf@[15]]);
    Some(V4Layout { source, offset: ip_hdr_len })
}

/// The tunnel header that was decoded from an IPv4 packet of `n` bytes, if there
/// was one, lies inside the packet.
pub open spec fn v4_header_fits(buf: Seq<u8>, n: int, decoded: Option<EoipHeader>) -> bool {
    let offset = v4_payload_offset(buf, n);
    offset is Some && decoded is Some ==> offset->0 + decoded->0.header_len <= n
}

/// What a received IPv4 packet does, given the tunnel header that was decoded
/// from it, if there was one.
pub open spec fn v4_packet_received(
    before: TunnelRegistry,
    after: TunnelRegistry,
    pool_before: BufferPool,
    pool_after: BufferPool,
    clock_before: CoarseClock,
    clock_after_it: CoarseClock,
    packet: Seq<u8>,
    decoded: Option<EoipHeader>,
    reading: i64,
    outcome: RxOutcome,
) -> bool {
    let offset = v4_payload_offset(packet, packet.len() as int);
    if offset is None || decoded is None {
        &&& outcome is Ignored
        &&& after@ == before@
        &&& pool_after@ == pool_before@
        &&& clock_after_it == clock_before
    } else {
        let header = decoded->0;
        let key = DemuxKey { tunnel_id: header.tunnel_id, peer_addr: v4_source(packet) };
        let frame = packet.subrange(offset->0 + header.header_len, packet.len() as int);
        &&& demuxed(
            before,
            after,
            pool_before,
            pool_after,
            key,
            frame,
            header.payload_len == 0 || frame.len() == 0,
            clock_timestamp(clock_before, reading),
            outcome,
        )
        &&& clock_after_it == (if before@.dom().contains(key@) {
            clock_after(clock_before, reading)
        } else {
            clock_before
        })
    }
}

/// Process a single received IPv4 packet containing EoIP.
///
/// `n` is the number of bytes received into `buf`, `decoded` what decoding the
/// bytes behind the IP header gave, and `reading` the time at the moment.
pub fn process_v4_packet(
    buf: &[u8],
    n: usize,
    decoded: Option<EoipHeader>,
    registry: &mut TunnelRegistry,
    pool: &mut BufferPool,
    clock: &mut CoarseClock,
    reading: i64,
) -> (outcome: RxOutcome)
    requires
        n <= buf@.len(),
        old(registry).wf(),
        old(pool).wf(),
        v4_header_fits(buf@, n as int, decoded),
    ensures
        final(registry).wf(),
        final(pool).wf(),
        final(pool).bound() == old(pool).bound(),
        v4_packet_received(
            *old(registry),
            *final(registry),
            *old(pool),
            *final(pool),
            *old(clock),
            *final(clock),
            buf@.subrange(0, n as int),
            decoded,
            reading,
            outcome,
        ),
{
    let ghost packet = buf@.subrange(0, n as int);
    assert(n >= 20 ==> packet.subrange(12, 16) =~= buf@.subrange(12, 16));
    let layout = match locate_v4(buf, n) {
        Some(layout) => layout,
        None => {
            return RxOutcome::Ignored;
        },
    };
    let header = match decoded {
        Some(header) => header,
        None => {
            return RxOutcome::Ignored;
        },
    };
    let key = DemuxKey { tunnel_id: header.tunnel_id, peer_addr: layout.source };
    let start: usize = layout.offset + header.header_len;
    let frame: &[u8] = &buf[start..n];
    assert(frame@ =~= packet.subrange(start as int, n as int));
    let keepalive: bool = header.payload_len == 0 || frame.len() == 0;
    if registry.get_ref(&key).is_none() {
        return RxOutcome::Miss;
    }
    let now_ms: i64 = clock.timestamp_ms(reading);
    demux_frame(registry, pool, key, frame, keepalive, now_ms)
}

/// The tunnel header that was decoded from a packet behind an Ethernet header,
/// if there was one, lies inside the packet.
pub open spec fn framed_header_fits(buf: Seq<u8>, n: int, decoded: Option<EoipHeader>) -> bool {
    n > ETH_HLEN ==> v4_header_fits(
        buf.subrange(ETH_HLEN as int, buf.len() as int),
        n - ETH_HLEN,
        decoded,
    )
}

/// What a received packet behind an Ethernet header does: nothing if nothing is
/// behind the header, else what the IPv4 packet there does.
pub open spec fn framed_packet_received(
    before: TunnelRegistry,
    after: TunnelRegistry,
    pool_before: BufferPool,
    pool_after: BufferPool,
    clock_before: CoarseClock,
    clock_after_it: CoarseClock,
    framed: Seq<u8>,
    decoded: Option<EoipHeader>,
    reading: i64,
    outcome: RxOutcome,
) -> bool {
    if framed.len() <= ETH_HLEN {
        &&& outcome is Ignored
        &&& after@ == before@
        &&& pool_after@ == pool_before@
        &&& clock_after_it == clock_before
    } else {
        v4_packet_received(
            before,
            after,
            pool_before,
            pool_after,
            clock_before,
            clock_after_it,
            framed.subrange(ETH_HLEN as int, framed.len() as int),
            decoded,
            reading,
            outcome,
        )
    }
}

/// Process a packet received on an AF_PACKET socket, which puts the Ethernet
/// header in front.
pub fn process_af_packet(
    buf: &[u8],
    n: usize,
    decoded: Option<EoipHeader>,
    registry: &mut TunnelRegistry,
    pool: &mut BufferPool,
    clock: &mut CoarseClock,
    reading: i64,
) -> (outcome: RxOutcome)
    requires
        n <= buf@.len(),
        old(registry).wf(),
        old(pool).wf(),
        framed_header_fits(buf@, n as int, decoded),
    ensures
        final(registry).wf(),
        final(pool).wf(),
        final(pool).bound() == old(pool).bound(),
        framed_packet_received(
            *old(registry),
            *final(registry),
            *old(pool),
            *final(pool),
            *old(clock),
            *final(clock),
            buf@.subrange(0, n as int),
            decoded,
            reading,
            outcome,
        ),
{
    if n <= ETH_HLEN {
        return RxOutcome::Ignored;
    }
    let ip: &[u8] = &buf[ETH_HLEN..buf.len()];
    assert(ip@.subrange(0, n - ETH_HLEN) =~= buf@.subrange(0, n as int).subrange(
        ETH_HLEN as int,
        n as int,
    ));
    process_v4_packet(ip, n - ETH_HLEN, decoded, registry, pool, clock, reading)
}

/// A batch of received IPv4 packets.
#[derive(Debug)]
pub struct RxBatch {
    /// The receive buffers.
    pub bufs: Vec<Vec<u8>>,
    /// How many bytes were received into each.
    pub lens: Vec<usize>,
    /// What decoding the tunnel header of each gave.
    pub decoded: Vec<Option<EoipHeader>>,
    /// Whether an Ethernet header stands in front of each.
    pub framed: bool,
}

/// The first `count` packets of a batch are complete, and their tunnel headers
/// lie inside them.
pub open spec fn batch_wf(batch: RxBatch, count: int) -> bool {
    &&& count <= batch.bufs@.len()
    &&& count <= batch.lens@.len()
    &&& count <= batch.decoded@.len()
    &&& forall|i: int|
        0 <= i < count ==> (#[trigger] batch.lens@[i]) <= batch.bufs@[i]@.len() && if batch.framed {
            framed_header_fits(batch.bufs@[i]@, batch.lens@[i] as int, batch.decoded@[i])
        } else {
            v4_header_fits(batch.bufs@[i]@, batch.lens@[i] as int, batch.decoded@[i])
        }
}

/// What the packet at `i` of a batch does.
pub open spec fn batch_packet_received(
    batch: RxBatch,
    i: int,
    before: (TunnelRegistry, BufferPool, CoarseClock),
    after: (TunnelRegistry, BufferPool, CoarseClock),
    reading: i64,
    outcome: RxOutcome,
) -> bool {
    let packet = batch.bufs@[i]@.subrange(0, batch.lens@[i] as int);
    if batch.framed {
        framed_packet_received(
            before.0,
            after.0,
            before.1,
            after.1,
            before.2,
            after.2,
            packet,
            batch.decoded@[i],
            reading,
            outcome,
        )
    } else {
        v4_packet_received(
            before.0,
            after.0,
            before.1,
            after.1,
            before.2,
            after.2,
            packet,
            batch.decoded@[i],
            reading,
            outcome,
        )
    }
}

/// `states` leads from before the first packet of a batch to after the last, one
/// packet at a time and in order.
pub open spec fn batch_steps(
    batch: RxBatch,
    states: Seq<(TunnelRegistry, BufferPool, CoarseClock)>,
    reading: i64,
    outcomes: Seq<RxOutcome>,
) -> bool {
    &&& states.len() == outcomes.len() + 1
    &&& forall|i: int|
        0 <= i < outcomes.len() ==> batch_packet_received(
            batch,
            i,
            states[i],
            states[i + 1],
            reading,
            #[trigger] outcomes[i],
        )
}

/// Process the first `count` packets of a batch, in the order in which they
/// were received.
pub fn process_batch(
    batch: &RxBatch,
    count: usize,
    registry: &mut TunnelRegistry,
    pool: &mut BufferPool,
    clock: &mut CoarseClock,
    reading: i64,
) -> (outcomes: Vec<RxOutcome>)
    requires
        batch_wf(*batch, count as int),
        old(registry).wf(),
        old(pool).wf(),
    ensures
        final(registry).wf(),
        final(pool).wf(),
        final(pool).bound() == old(pool).bound(),
        outcomes@.len() == count,
        exists|states: Seq<(TunnelRegistry, BufferPool, CoarseClock)>| #[trigger]
            batch_steps(*batch, states, reading, outcomes@) && states[0] == (
                *old(registry),
                *old(pool),
                *old(clock),
            ) && states[count as int] == (*final(registry), *final(pool), *final(clock)),
{
    let mut outcomes: Vec<RxOutcome> = Vec::new();
    let ghost mut states: Seq<(TunnelRegistry, BufferPool, CoarseClock)> = seq![
        (*old(registry), *old(pool), *old(clock)),
    ];
    let mut i: usize = 0;
    while i < count
        invariant
            i <= count,
            batch_wf(*batch, count as int),
            registry.wf(),
            pool.wf(),
            pool.bound() == old(pool).bound(),
            outcomes@.len() == i,
            batch_steps(*batch, states, reading, outcomes@),
            states[0] == (*old(registry), *old(pool), *old(clock)),
            states[i as int] == (*registry, *pool, *clock),
        decreases count - i,
    {
        let buf: &[u8] = batch.bufs[i].as_slice();
        let n: usize = batch.lens[i];
        let decoded: Option<EoipHeader> = batch.decoded[i];
        let outcome = if batch.framed {
            process_af_packet(buf, n, decoded, registry, pool, clock, reading)
        } else {
            process_v4_packet(buf, n, decoded, registry, pool, clock, reading)
        };
        let ghost before = states;
        let ghost earlier = outcomes@;
        proof {
            states = states.push((*registry, *pool, *clock));
        }
        outcomes.push(outcome);
        assert forall|j: int| 0 <= j < outcomes@.len() implies batch_packet_received(
            *batch,
            j,
            states[j],
            states[j + 1],
            reading,
            #[trigger] outcomes@[j],
        ) by {
            if j < i {
                assert(outcomes@[j] == earlier[j]);
                assert(states[j] == before[j] && states[j + 1] == before[j + 1]);
            }
        }
        i = i + 1;
    }
    outcomes
}

/// What a received IPv6 payload does, given the tunnel header that was decoded
/// from it, if there was one.
pub open spec fn v6_packet_received(
    before: TunnelRegistry,
    after: TunnelRegistry,
    pool_before: BufferPool,
    pool_after: BufferPool,
    clock_before: CoarseClock,
    clock_after_it: CoarseClock,
    source: IpAddr,
    payload: Seq<u8>,
    decoded: Option<EtherIpHeader>,
    reading: i64,
    outcome: RxOutcome,
) -> bool {
    if payload.len() < ETHERIP_HEADER_LEN || decoded is None {
        &&& outcome is Ignored
        &&& after@ == before@
        &&& pool_after@ == pool_before@
        &&& clock_after_it == clock_before
    } else {
        let header = decoded->0;
        let key = DemuxKey { tunnel_id: header.tunnel_id, peer_addr: source };
        let frame = payload.subrange(header.header_len as int, payload.len() as int);
        &&& demuxed(
            before,
            after,
            pool_before,
            pool_after,
            key,
            frame,
            frame.len() == 0,
            clock_timestamp(clock_before, reading),
            outcome,
        )
        &&& clock_after_it == (if before@.dom().contains(key@) {
            clock_after(clock_before, reading)
        } else {
            clock_before
        })
    }
}

/// Process a single received EoIPv6 payload. The kernel strips the IPv6 header
/// and gives the source address beside it.
pub fn process_v6_packet(
    buf: &[u8],
    n: usize,
    source: IpAddr,
    decoded: Option<EtherIpHeader>,
    registry: &mut TunnelRegistry,
    pool: &mut BufferPool,
    clock: &mut CoarseClock,
    reading: i64,
) -> (outcome: RxOutcome)
    requires
        n <= buf@.len(),
        old(registry).wf(),
        old(pool).wf(),
        n >= ETHERIP_HEADER_LEN && decoded is Some ==> decoded->0.header_len <= n,
    ensures
        final(registry).wf(),
        final(pool).wf(),
        final(pool).bound() == old(pool).bound(),
        v6_packet_received(
            *old(registry),
            *final(registry),
            *old(pool),
            *final(pool),
            *old(clock),
            *final(clock),
            source,
            buf@.subrange(0, n as int),
            decoded,
            reading,
            outcome,
        ),
{
    if n < ETHERIP_HEADER_LEN {
        return RxOutcome::Ignored;
    }
    let header = match decoded {
        Some(header) => header,
        None => {
            return RxOutcome::Ignored;
        },
    };
    let key = DemuxKey { tunnel_id: header.tunnel_id, peer_addr: source };
    let frame: &[u8] = &buf[header.header_len..n];
    assert(frame@ =~= buf@.subrange(0, n as int).subrange(header.header_len as int, n as int));
    if registry.get_ref(&key).is_none() {
        return RxOutcome::Miss;
    }
    let now_ms: i64 = clock.timestamp_ms(reading);
    demux_frame(registry, pool, key, frame, frame.len() == 0, now_ms)
}

/// The number that Internet packets carry for GRE.
pub const IP_PROTO_GRE: u8 = 47;

/// Whether a packet of `n` bytes is a GRE packet of the tunnel with this ID.
pub open spec fn meant_for(
    buf: Seq<u8>,
    n: int,
    decoded: Option<EoipHeader>,
    tunnel_id: u16,
) -> bool {
    &&& v4_payload_offset(buf, n) is Some
    &&& buf[9] == IP_PROTO_GRE
    &&& decoded is Some
    &&& decoded->0.tunnel_id == tunnel_id
}

/// Receive a packet on a host that runs a single tunnel and writes frames to
/// its TAP device itself. Counts a packet of this tunnel and returns where its
/// frame lies in `buf`, if it carries one.
pub fn receive_single(
    buf: &[u8],
    n: usize,
    decoded: Option<EoipHeader>,
    handle: &mut TunnelHandle,
    now_ms: i64,
) -> (frame: Option<(usize, usize)>)
    requires
        n <= buf@.len(),
        meant_for(buf@, n as int, decoded, old(handle).config.tunnel_id) && decoded->0.payload_len
            > 0 ==> v4_payload_offset(buf@, n as int)->0 + decoded->0.header_len
            + decoded->0.payload_len <= n,
    ensures
        ({
            let offset = v4_payload_offset(buf@, n as int);
            if !meant_for(buf@, n as int, decoded, old(handle).config.tunnel_id) {
                &&& frame is None
                &&& *final(handle) == *old(handle)
            } else {
                let start = offset->0 + decoded->0.header_len;
                let len = decoded->0.payload_len;
                &&& frame is Some <==> len > 0
                &&& frame matches Some(span) ==> span.0 == start && span.1 == start + len
                &&& *final(handle) == (TunnelHandle {
                    stats: stats_after_rx(old(handle).stats, len as u64, now_ms),
                    ..*old(handle)
                })
            }
        }),
{
    let layout = match locate_v4(buf, n) {
        Some(layout) => layout,
        None => {
            return None;
        },
    };
    if buf[9] != IP_PROTO_GRE {
        return None;
    }
    let header = match decoded {
        Some(header) => header,
        None => {
            return None;
        },
    };
    if header.tunnel_id != handle.config.tunnel_id {
        return None;
    }
    handle.stats.record_rx(header.payload_len as u64, now_ms);
    if header.payload_len > 0 {
        let start: usize = layout.offset + header.header_len;
        Some((start, start + header.payload_len as usize))
    } else {
        None
    }
}

/// Rate limiter for the log of packets that no tunnel matches.
#[derive(Debug, Clone, Copy, PartialEq, Eq, Structural)]
pub struct MissLog {
    /// When the last line was written, in milliseconds.
    pub last_log_ms: u64,
    /// How many packets missed since then.
    pub count: u64,
}

/// The least distance between two lines, in milliseconds.
pub const MISS_LOG_INTERVAL_MS: u64 = 1000;

/// Whether a miss at `now_ms` is due for a line.
pub open spec fn miss_log_due(log: MissLog, now_ms: u64) -> bool {
    now_ms.wrapping_sub(log.last_log_ms) > MISS_LOG_INTERVAL_MS
}

impl MissLog {
    pub fn new() -> (log: Self)
        ensures
            log.last_log_ms == 0,
            log.count == 0,
    {
        MissLog { last_log_ms: 0, count: 0 }
    }

    /// Count a miss. Returns how many were counted since the last line, this
    /// one not among them, if a line is due.
    pub fn record(&mut self, now_ms: u64) -> (line: Option<u64>)
        ensures
            line == (if miss_log_due(*old(self), now_ms) {
                Some(old(self).count)
            } else {
                None
            }),
            *final(self) == (if miss_log_due(*old(self), now_ms) {
                MissLog { last_log_ms: now_ms, count: 0 }
            } else {
                MissLog {
                    last_log_ms: old(self).last_log_ms,
                    count: old(self).count.wrapping_add(1),
                }
            }),
    {
        if now_ms.wrapping_sub(self.last_log_ms) > MISS_LOG_INTERVAL_MS {
            let count: u64 = self.count;
            self.last_log_ms = now_ms;
            self.count = 0;
            Some(count)
        } else {
            self.count = self.count.wrapping_add(1);
            None
        }
    }
}

impl Default for MissLog {
    fn default() -> (log: Self)
        ensures
            log.last_log_ms == 0,
            log.count == 0,
    {
        MissLog::new()
    }
}

/// Why a receive call failed.
#[derive(Debug, Clone, Copy, PartialEq, Eq, Structural)]
pub enum RecvFailure {
    WouldBlock,
    Interrupted,
    /// The kernel does not know the call.
    Unsupported,
    Other,
}

/// What a receive loop does after a failed call.
#[derive(Debug, Clone, Copy, PartialEq, Eq, Structural)]
pub enum RecvStep {
    /// Call again.
    Retry,
    /// Leave the loop.
    Stop,
    /// Report the error and leave the loop.
    ReportAndStop,
}

/// What a receive loop does after a failed call: nothing was there or a signal
/// came in between, then it tries again; otherwise it ends, without a word if
/// the daemon is shutting down.
pub fn after_recv_failure(failure: RecvFailure, cancelled: bool) -> (step: RecvStep)
    ensures
        step is Retry <==> failure is WouldBlock || failure is Interrupted,
        step is Stop <==> !(step is Retry) && cancelled,
{
    match failure {
        RecvFailure::WouldBlock => RecvStep::Retry,
        RecvFailure::Interrupted => RecvStep::Retry,
        _ => if cancelled {
            RecvStep::Stop
        } else {
            RecvStep::ReportAndStop
        },
    }
}

/// Whether batched receive can be used, given how a first call of it ended
/// (`None` if it succeeded). Only a kernel that does not know it rules it out.
pub fn batched_receive_usable(failure: Option<RecvFailure>) -> (usable: bool)
    ensures
        usable == (failure != Some(RecvFailure::Unsupported)),
{
    match failure {
        Some(RecvFailure::Unsupported) => false,
        _ => true,
    }
}

/// Where IPv4 packets are received.
#[derive(Debug, Clone, Copy, PartialEq, Eq, Structural)]
pub enum V4Source {
    /// One worker on the AF_PACKET socket.
    AfPacket,
    /// Workers on the raw GRE socket.
    RawSocket,
    /// Nowhere.
    Unavailable,
}

/// Which receive workers run.
#[derive(Debug, Clone, Copy, PartialEq, Eq, Structural)]
pub struct RxPlan {
    pub v4: V4Source,
    pub v4_workers: usize,
    pub v6_workers: usize,
}

/// Decide which receive workers run, given which sockets there are: the
/// AF_PACKET socket is preferred to the raw one, and only the raw one is
/// shared by several workers, at least one.
pub fn plan_rx(raw_v4: bool, raw_v6: bool, af_packet_v4: bool, rx_workers: usize) -> (plan: RxPlan)
    ensures
        plan.v4 == (if af_packet_v4 {
            V4Source::AfPacket
        } else if raw_v4 {
            V4Source::RawSocket
        } else {
            V4Source::Unavailable
        }),
        plan.v4_workers == (if af_packet_v4 {
            1usize
        } else if !raw_v4 {
            0usize
        } else if rx_workers == 0 {
            1usize
        } else {
            rx_workers
        }),
        plan.v6_workers == (if raw_v6 {
            1usize
        } else {
            0usize
        }),
{
    let at_least_one: usize = if rx_workers > 1 {
        rx_workers
    } else {
        1
    };
    let v6_workers: usize = if raw_v6 {
        1
    } else {
        0
    };
    if af_packet_v4 {
        RxPlan { v4: V4Source::AfPacket, v4_workers: 1, v6_workers }
    } else if raw_v4 {
        RxPlan { v4: V4Source::RawSocket, v4_workers: at_least_one, v6_workers }
    } else {
        RxPlan { v4: V4Source::Unavailable, v4_workers: 0, v6_workers }
    }
}

/// The name of an IPv4 receive worker's thread.
pub open spec fn v4_worker_name(source: V4Source, index: nat) -> Seq<char> {
    if source is AfPacket {
        "rx-v4-afp"@
    } else {
        "rx-v4-"@ + decimal(index)
    }
}

/// The name of an IPv4 receive worker's thread.
pub fn worker_name(source: V4Source, index: usize) -> (name: String)
    ensures
        name@ == v4_worker_name(source, index as nat),
{
    match source {
        V4Source::AfPacket => String::from_str("rx-v4-afp"),
        _ => {
            let mut name = String::from_str("rx-v4-");
            name.append(to_decimal(index as u64).as_str());
            name
        },
    }
}

/// Receiving a frame adds at most that frame to what the TAP writer gets, cut
/// to the largest frame size, and counts exactly one packet.
pub proof fn law_at_most_one_frame(
    before: TunnelHandle,
    after: TunnelHandle,
    idle_before: Seq<PacketBuf>,
    idle_after: Seq<PacketBuf>,
    capacity: nat,
    frame: Seq<u8>,
    keepalive: bool,
    now_ms: i64,
    outcome: RxOutcome,
)
    requires
        frame_received(
            before,
            after,
            idle_before,
            idle_after,
            capacity,
            frame,
            keepalive,
            now_ms,
            outcome,
        ),
    ensures
        after.stats.rx_packets == before.stats.rx_packets.wrapping_add(1),
        after.stats.last_rx_timestamp == now_ms,
        outcome is Delivered <==> delivered(after) == delivered(before).push(frame_prefix(frame)),
        !(outcome is Delivered) ==> delivered(after) == delivered(before),
        frame_prefix(frame).len() <= MAX_FRAME_SIZE,
        frame_prefix(frame).is_prefix_of(frame),
        outcome is Dropped <==> after.stats.rx_errors != before.stats.rx_errors,
{
    assert(delivered(before).push(frame_prefix(frame)).len() != delivered(before).len());
}

/// Every frame of a tunnel that has a TAP writer is offered to it once, cut to
/// the largest frame size, whether or not its channel has room; nothing else is
/// offered.
pub proof fn law_frame_is_offered(
    before: TunnelHandle,
    after: TunnelHandle,
    idle_before: Seq<PacketBuf>,
    idle_after: Seq<PacketBuf>,
    capacity: nat,
    frame: Seq<u8>,
    keepalive: bool,
    now_ms: i64,
    outcome: RxOutcome,
)
    requires
        frame_received(
            before,
            after,
            idle_before,
            idle_after,
            capacity,
            frame,
            keepalive,
            now_ms,
            outcome,
        ),
    ensures
        outcome is Delivered || outcome is Dropped <==> !keepalive && before.rx_channel is Some,
        outcome is Delivered || outcome is Dropped ==> offered(after) == offered(before).push(
            frame_prefix(frame),
        ),
        !(outcome is Delivered || outcome is Dropped) ==> offered(after) == offered(before),
        ends_tied(before) ==> ends_tied(after),
{
}

/// Whether a frame is delivered or refused, the pool ends up with as many idle
/// buffers as before, or with one less that the TAP writer will give back.
pub proof fn law_no_buffer_lost(
    before: TunnelHandle,
    after: TunnelHandle,
    idle_before: Seq<PacketBuf>,
    idle_after: Seq<PacketBuf>,
    capacity: nat,
    frame: Seq<u8>,
    keepalive: bool,
    now_ms: i64,
    outcome: RxOutcome,
)
    requires
        idle_before.len() <= capacity,
        frame_received(
            before,
            after,
            idle_before,
            idle_after,
            capacity,
            frame,
            keepalive,
            now_ms,
            outcome,
        ),
    ensures
        outcome is Delivered && idle_before.len() > 0 ==> idle_after.len() == idle_before.len() - 1,
        !(outcome is Delivered && idle_before.len() > 0) ==> idle_after.len() == idle_before.len(),
{
}

/// A frame arrives as it was sent: the receiver of an IPv4 packet made of an IP
/// header, a tunnel header and a frame takes the frame out of it, if its IP
/// header gives its own length and the tunnel header's length is decoded right.
pub proof fn law_sent_frame_is_received(ip: Seq<u8>, header: Seq<u8>, frame: Seq<u8>)
    requires
        ip.len() >= 20,
        ip.len() == (ip[0] as int % 16) * 4,
        header.len() == EOIP_HEADER_LEN,
    ensures
        ({
            let packet = ip + (header + frame);
            let offset = v4_payload_offset(packet, packet.len() as int);
            &&& offset == Some(ip.len() as int)
            &&& packet.subrange(offset->0 + header.len(), packet.len() as int) == frame
            &&& v4_source(packet) == v4_source(ip)
        }),
{
    let packet = ip + (header + frame);
    assert(packet[0] == ip[0]);
    assert(packet.subrange((ip.len() + header.len()) as int, packet.len() as int) =~= frame);
    assert(packet.subrange(12, 16) =~= ip.subrange(12, 16));
}

/// A packet of one tunnel leaves every other tunnel as it was.
pub proof fn law_other_tunnels_untouched(
    before: TunnelRegistry,
    after: TunnelRegistry,
    pool_before: BufferPool,
    pool_after: BufferPool,
    key: DemuxKey,
    frame: Seq<u8>,
    keepalive: bool,
    now_ms: i64,
    outcome: RxOutcome,
    other: DemuxKey,
)
    requires
        demuxed(
            before,
            after,
            pool_before,
            pool_after,
            key,
            frame,
            keepalive,
            now_ms,
            outcome,
        ),
        other != key,
    ensures
        after@.dom() == before@.dom(),
        before@.dom().contains(other@) ==> after@[other@] == before@[other@],
{
    if other@ == key@ {
        law_key_code_injective(other, key);
    }
    assert(after@.dom() =~= before@.dom());
}

/// A packet of a batch keeps the registered tunnels, and takes back nothing that
/// was handed to a TAP writer.
proof fn lemma_batch_packet_only_adds(
    batch: RxBatch,
    i: int,
    before: (TunnelRegistry, BufferPool, CoarseClock),
    after: (TunnelRegistry, BufferPool, CoarseClock),
    reading: i64,
    outcome: RxOutcome,
    code: (u16, u8, u128),
)
    requires
        batch_packet_received(batch, i, before, after, reading, outcome),
    ensures
        after.0@.dom() == before.0@.dom(),
        before.0@.dom().contains(code) ==> after.0@[code].config == before.0@[code].config
            && delivered(before.0@[code]).is_prefix_of(delivered(after.0@[code])) && offered(
            before.0@[code],
        ).is_prefix_of(offered(after.0@[code])) && ends_tied(after.0@[code]) == ends_tied(
            before.0@[code],
        ),
{
    assert(after.0@.dom() =~= before.0@.dom());
}

/// Processing a batch keeps the registered tunnels, their configurations and
/// their channels, and what each TAP writer is offered and gets follows what it
/// was offered and got before.
pub proof fn law_batch_only_adds(
    batch: RxBatch,
    states: Seq<(TunnelRegistry, BufferPool, CoarseClock)>,
    reading: i64,
    outcomes: Seq<RxOutcome>,
    code: (u16, u8, u128),
)
    requires
        batch_steps(batch, states, reading, outcomes),
    ensures
        states.last().0@.dom() == states[0].0@.dom(),
        states[0].0@.dom().contains(code) ==> states.last().0@[code].config
            == states[0].0@[code].config && delivered(states[0].0@[code]).is_prefix_of(
            delivered(states.last().0@[code]),
        ) && offered(states[0].0@[code]).is_prefix_of(offered(states.last().0@[code]))
            && ends_tied(states.last().0@[code]) == ends_tied(states[0].0@[code]),
    decreases outcomes.len(),
{
    if outcomes.len() > 0 {
        let last = outcomes.len() - 1;
        let earlier = outcomes.drop_last();
        assert forall|i: int| 0 <= i < earlier.len() implies batch_packet_received(
            batch,
            i,
            states.drop_last()[i],
            states.drop_last()[i + 1],
            reading,
            #[trigger] earlier[i],
        ) by {
            assert(earlier[i] == outcomes[i]);
        }
        law_batch_only_adds(batch, states.drop_last(), reading, earlier, code);
        lemma_batch_packet_only_adds(
            batch,
            last,
            states[last],
            states[last + 1],
            reading,
            outcomes[last],
            code,
        );
    }
}

/// What a frame for a tunnel does. Without a tunnel of this ID and peer nothing
/// changes. Else the packet is counted with the bytes of the frame and the time,
/// and the frame is offered to the tunnel's TAP writer, whole up to 1522 bytes,
/// unless it is a keepalive or there is no TAP writer; a frame that the writer's
/// channel refuses counts as an error, and its buffer goes back. No other tunnel,
/// and nothing else of this one, is touched.
pub proof fn law_frame_for_a_tunnel(
    before: TunnelRegistry,
    after: TunnelRegistry,
    pool_before: BufferPool,
    pool_after: BufferPool,
    key: DemuxKey,
    frame: Seq<u8>,
    keepalive: bool,
    now_ms: i64,
    outcome: RxOutcome,
)
    requires
        pool_before@.len() <= pool_before.bound(),
        demuxed(
            before,
            after,
            pool_before,
            pool_after,
            key,
            frame,
            keepalive,
            now_ms,
            outcome,
        ),
    ensures
        !before@.dom().contains(key@) ==> outcome is Miss && after@ == before@ && pool_after@
            == pool_before@,
        before@.dom().contains(key@) ==> ({
            let b = before@[key@];
            let a = after@[key@];
            let cut = if frame.len() <= 1522 {
                frame
            } else {
                frame.subrange(0, 1522)
            };
            &&& after@.dom() == before@.dom()
            &&& forall|code: (u16, u8, u128)|
                #[trigger] before@.dom().contains(code) && code != key@ ==> after@[code]
                    == before@[code]
            &&& a.config == b.config
            &&& a.state == b.state
            &&& a.actual_mtu == b.actual_mtu
            &&& a.rx_receiver == b.rx_receiver
            &&& a.rx_channel is Some <==> b.rx_channel is Some
            &&& ends_tied(a) == ends_tied(b)
            &&& a.stats.rx_packets == b.stats.rx_packets.wrapping_add(1)
            &&& a.stats.rx_bytes == b.stats.rx_bytes.wrapping_add(frame.len() as u64)
            &&& a.stats.last_rx_timestamp == now_ms
            &&& a.stats.rx_errors == (if outcome is Dropped {
                b.stats.rx_errors.wrapping_add(1)
            } else {
                b.stats.rx_errors
            })
            &&& a.stats.tx_packets == b.stats.tx_packets
            &&& a.stats.tx_bytes == b.stats.tx_bytes
            &&& a.stats.tx_errors == b.stats.tx_errors
            &&& a.stats.last_tx_timestamp == b.stats.last_tx_timestamp
            &&& outcome is Keepalive <==> keepalive
            &&& outcome is NoChannel <==> !keepalive && b.rx_channel is None
            &&& outcome is Delivered || outcome is Dropped <==> !keepalive && b.rx_channel is Some
            &&& !keepalive && b.rx_channel is Some ==> offered(a) == offered(b).push(cut)
            &&& keepalive || b.rx_channel is None ==> offered(a) == offered(b)
            &&& outcome is Delivered ==> delivered(a) == delivered(b).push(cut)
            &&& !(outcome is Delivered) ==> delivered(a) == delivered(b)
            &&& outcome is Delivered && pool_before@.len() > 0 ==> pool_after@
                == pool_before@.subrange(1, pool_before@.len() as int)
            &&& outcome is Delivered && pool_before@.len() == 0 ==> pool_after@ == pool_before@
            &&& outcome is Dropped ==> pool_after@.len() == pool_before@.len()
            &&& outcome is Keepalive || outcome is NoChannel ==> pool_after@ == pool_before@
        }),
{
    if before@.dom().contains(key@) {
        assert(after@.dom() =~= before@.dom());
    }
}

/// A packet that arrives is its frame for its tunnel: of an IPv4 packet made of an
/// IP header of the length that it gives, a tunnel header and a frame, the tunnel
/// is the one of the decoded ID and of the sender in bytes 12 to 15, the frame is
/// all that follows the tunnel header, and it is a keepalive exactly if the
/// tunnel header announces nothing or nothing follows it.
pub proof fn law_v4_packet_carries_its_frame(
    before: TunnelRegistry,
    after: TunnelRegistry,
    pool_before: BufferPool,
    pool_after: BufferPool,
    clock_before: CoarseClock,
    clock_after_it: CoarseClock,
    ip: Seq<u8>,
    header: Seq<u8>,
    frame: Seq<u8>,
    decoded: EoipHeader,
    reading: i64,
    outcome: RxOutcome,
)
    requires
        ip.len() >= 20,
        ip.len() == (ip[0] as int % 16) * 4,
        header.len() == decoded.header_len,
        header.len() + frame.len() >= 8,
        pool_before@.len() <= pool_before.bound(),
        v4_packet_received(
            before,
            after,
            pool_before,
            pool_after,
            clock_before,
            clock_after_it,
            ip + (header + frame),
            Some(decoded),
            reading,
            outcome,
        ),
    ensures
        ({
            let sender = (ip[12] * 0x100_0000 + ip[13] * 0x1_0000 + ip[14] * 0x100 + ip[15]) as u32;
            let key = DemuxKey { tunnel_id: decoded.tunnel_id, peer_addr: IpAddr::V4(sender) };
            let now_ms = if clock_before.count % 64 == 0 {
                reading
            } else {
                clock_before.cached_ms
            };
            &&& outcome is Miss <==> !before@.dom().contains(key@)
            &&& outcome !is Ignored
            &&& before@.dom().contains(key@) ==> {
                &&& outcome is Keepalive <==> decoded.payload_len == 0 || frame.len() == 0
                &&& decoded.payload_len > 0 && frame.len() > 0 && before@[key@].rx_channel is Some
                    ==> (outcome is Delivered || outcome is Dropped) && offered(after@[key@])
                    == offered(before@[key@]).push(
                    if frame.len() <= 1522 {
                        frame
                    } else {
                        frame.subrange(0, 1522)
                    },
                )
                &&& after@[key@].stats.rx_packets == before@[key@].stats.rx_packets.wrapping_add(1)
                &&& after@[key@].stats.rx_bytes == before@[key@].stats.rx_bytes.wrapping_add(
                    frame.len() as u64,
                )
                &&& after@[key@].stats.last_rx_timestamp == now_ms
                &&& clock_after_it.cached_ms == now_ms
                &&& clock_after_it.count == clock_before.count.wrapping_add(1)
            }
            &&& demuxed(
                before,
                after,
                pool_before,
                pool_after,
                key,
                frame,
                decoded.payload_len == 0 || frame.len() == 0,
                now_ms,
                outcome,
            )
            &&& !before@.dom().contains(key@) ==> clock_after_it == clock_before
        }),
{
    let packet = ip + (header + frame);
    law_sent_frame_is_received_behind(ip, header, frame);
    law_four_octets(ip[12], ip[13], ip[14], ip[15]);
    assert(packet.subrange(12, 16) =~= seq![ip[12], ip[13], ip[14], ip[15]]);
    let key = DemuxKey { tunnel_id: decoded.tunnel_id, peer_addr: v4_source(packet) };
    law_frame_for_a_tunnel(
        before,
        after,
        pool_before,
        pool_after,
        key,
        frame,
        decoded.payload_len == 0 || frame.len() == 0,
        clock_timestamp(clock_before, reading),
        outcome,
    );
}

/// A frame is found behind a tunnel header of any length, as long as the two
/// together have the eight bytes that a packet needs behind its IP header.
pub proof fn law_sent_frame_is_received_behind(ip: Seq<u8>, header: Seq<u8>, frame: Seq<u8>)
    requires
        ip.len() >= 20,
        ip.len() == (ip[0] as int % 16) * 4,
        header.len() + frame.len() >= 8,
    ensures
        ({
            let packet = ip + (header + frame);
            let offset = v4_payload_offset(packet, packet.len() as int);
            &&& offset == Some(ip.len() as int)
            &&& packet.subrange(offset->0 + header.len(), packet.len() as int) == frame
        }),
{
    let packet = ip + (header + frame);
    assert(packet[0] == ip[0]);
    assert(packet.subrange((ip.len() + header.len()) as int, packet.len() as int) =~= frame);
}

/// A packet is passed over exactly if it has no whole IP header, if fewer than
/// eight bytes follow the header that it gives the length of, or if no tunnel
/// header was decoded; then nothing changes.
pub proof fn law_v4_packet_passed_over(
    before: TunnelRegistry,
    after: TunnelRegistry,
    pool_before: BufferPool,
    pool_after: BufferPool,
    clock_before: CoarseClock,
    clock_after_it: CoarseClock,
    packet: Seq<u8>,
    decoded: Option<EoipHeader>,
    reading: i64,
    outcome: RxOutcome,
)
    requires
        v4_packet_received(
            before,
            after,
            pool_before,
            pool_after,
            clock_before,
            clock_after_it,
            packet,
            decoded,
            reading,
            outcome,
        ),
    ensures
        outcome is Ignored <==> packet.len() < 20 || packet.len() < (packet[0] as int % 16) * 4 + 8
            || decoded is None,
        outcome is Ignored ==> after@ == before@ && pool_after@ == pool_before@ && clock_after_it
            == clock_before,
{
}

/// An EoIPv6 payload is its frame for its tunnel: of a payload made of a tunnel
/// header and a frame, the tunnel is the one of the decoded ID and of the sender,
/// the frame is all that follows the header, and it is a keepalive exactly if
/// nothing does. A payload of less than two bytes, or without a tunnel header, is
/// passed over.
pub proof fn law_v6_packet_carries_its_frame(
    before: TunnelRegistry,
    after: TunnelRegistry,
    pool_before: BufferPool,
    pool_after: BufferPool,
    clock_before: CoarseClock,
    clock_after_it: CoarseClock,
    source: IpAddr,
    header: Seq<u8>,
    frame: Seq<u8>,
    decoded: Option<EtherIpHeader>,
    reading: i64,
    outcome: RxOutcome,
)
    requires
        decoded is Some ==> header.len() == decoded->0.header_len,
        pool_before@.len() <= pool_before.bound(),
        v6_packet_received(
            before,
            after,
            pool_before,
            pool_after,
            clock_before,
            clock_after_it,
            source,
            header + frame,
            decoded,
            reading,
            outcome,
        ),
    ensures
        outcome is Ignored <==> header.len() + frame.len() < 2 || decoded is None,
        outcome is Ignored ==> after@ == before@ && pool_after@ == pool_before@ && clock_after_it
            == clock_before,
        !(outcome is Ignored) ==> ({
            let key = DemuxKey { tunnel_id: decoded->0.tunnel_id, peer_addr: source };
            let now_ms = if clock_before.count % 64 == 0 {
                reading
            } else {
                clock_before.cached_ms
            };
            &&& outcome is Miss <==> !before@.dom().contains(key@)
            &&& before@.dom().contains(key@) ==> {
                &&& outcome is Keepalive <==> frame.len() == 0
                &&& frame.len() > 0 && before@[key@].rx_channel is Some ==> (outcome is Delivered
                    || outcome is Dropped) && offered(after@[key@]) == offered(before@[key@]).push(
                    if frame.len() <= 1522 {
                        frame
                    } else {
                        frame.subrange(0, 1522)
                    },
                )
                &&& after@[key@].stats.last_rx_timestamp == now_ms
                &&& clock_after_it.cached_ms == now_ms
                &&& clock_after_it.count == clock_before.count.wrapping_add(1)
            }
            &&& demuxed(
                before,
                after,
                pool_before,
                pool_after,
                key,
                frame,
                frame.len() == 0,
                now_ms,
                outcome,
            )
            &&& !before@.dom().contains(key@) ==> clock_after_it == clock_before
        }),
{
    if !(outcome is Ignored) {
        let payload = header + frame;
        assert(payload.subrange(header.len() as int, payload.len() as int) =~= frame);
        let key = DemuxKey { tunnel_id: decoded->0.tunnel_id, peer_addr: source };
        law_frame_for_a_tunnel(
            before,
            after,
            pool_before,
            pool_after,
            key,
            frame,
            frame.len() == 0,
            clock_timestamp(clock_before, reading),
            outcome,
        );
    } else if header.len() + frame.len() >= 2 && decoded is Some {
        let key = DemuxKey { tunnel_id: decoded->0.tunnel_id, peer_addr: source };
        let payload = header + frame;
        assert(payload.subrange(header.len() as int, payload.len() as int) =~= frame);
        law_frame_for_a_tunnel(
            before,
            after,
            pool_before,
            pool_after,
            key,
            frame,
            frame.len() == 0,
            clock_timestamp(clock_before, reading),
            outcome,
        );
    }
}

/// The fourteen bytes of an Ethernet header in front of a packet make no
/// difference; a packet that is no longer than they are is passed over.
pub proof fn law_link_header_is_skipped(
    before: TunnelRegistry,
    after: TunnelRegistry,
    pool_before: BufferPool,
    pool_after: BufferPool,
    clock_before: CoarseClock,
    clock_after_it: CoarseClock,
    link: Seq<u8>,
    packet: Seq<u8>,
    decoded: Option<EoipHeader>,
    reading: i64,
    outcome: RxOutcome,
)
    requires
        framed_packet_received(
            before,
            after,
            pool_before,
            pool_after,
            clock_before,
            clock_after_it,
            link + packet,
            decoded,
            reading,
            outcome,
        ),
    ensures
        link.len() == 14 && packet.len() > 0 ==> v4_packet_received(
            before,
            after,
            pool_before,
            pool_after,
            clock_before,
            clock_after_it,
            packet,
            decoded,
            reading,
            outcome,
        ),
        link.len() + packet.len() <= 14 ==> outcome is Ignored && after@ == before@ && pool_after@
            == pool_before@ && clock_after_it == clock_before,
{
    if link.len() == 14 && packet.len() > 0 {
        let framed = link + packet;
        assert(framed.subrange(14, framed.len() as int) =~= packet);
    }
}

/// Each packet of a batch is received as if it had come alone, with the bytes that
/// were received of it and its own header, in the state that the one before it
/// left.
pub proof fn law_batch_is_packet_after_packet(
    batch: RxBatch,
    states: Seq<(TunnelRegistry, BufferPool, CoarseClock)>,
    reading: i64,
    outcomes: Seq<RxOutcome>,
    i: int,
)
    requires
        batch_steps(batch, states, reading, outcomes),
        0 <= i < outcomes.len(),
    ensures
        states.len() == outcomes.len() + 1,
        !batch.framed ==> v4_packet_received(
            states[i].0,
            states[i + 1].0,
            states[i].1,
            states[i + 1].1,
            states[i].2,
            states[i + 1].2,
            batch.bufs@[i]@.subrange(0, batch.lens@[i] as int),
            batch.decoded@[i],
            reading,
            outcomes[i],
        ),
        batch.framed ==> framed_packet_received(
            states[i].0,
            states[i + 1].0,
            states[i].1,
            states[i + 1].1,
            states[i].2,
            states[i + 1].2,
            batch.bufs@[i]@.subrange(0, batch.lens@[i] as int),
            batch.decoded@[i],
            reading,
            outcomes[i],
        ),
{
    assert(batch_packet_received(batch, i, states[i], states[i + 1], reading, outcomes[i]));
}

/// A clock gives the time at the moment on the first of every 64 times that it is
/// asked, and the same time on the others.
pub proof fn law_clock(clock: CoarseClock, reading: i64)
    ensures
        clock.count % 64 == 0 ==> clock_timestamp(clock, reading) == reading,
        clock.count % 64 != 0 ==> clock_timestamp(clock, reading) == clock.cached_ms,
        clock_after(clock, reading).cached_ms == clock_timestamp(clock, reading),
        clock_after(clock, reading).count == clock.count.wrapping_add(1),
{
}

/// A line is due for a miss exactly if more than a second has passed since the
/// last one, as long as time does not go back.
pub proof fn law_miss_log(log: MissLog, now_ms: u64)
    ensures
        now_ms >= log.last_log_ms ==> (miss_log_due(log, now_ms) <==> now_ms - log.last_log_ms
            > 1000),
{
}

/// A packet is meant for a single tunnel exactly if it is long enough for both
/// headers, its protocol is GRE, number 47, and its decoded ID is the tunnel's.
pub proof fn law_meant_for(
    packet: Seq<u8>,
    decoded: Option<EoipHeader>,
    tunnel_id: u16,
)
    ensures
        meant_for(packet, packet.len() as int, decoded, tunnel_id) <==> packet.len() >= 20
            && packet.len() >= (packet[0] as int % 16) * 4 + 8 && packet[9] == 47 && decoded is Some
            && decoded->0.tunnel_id == tunnel_id,
{
}

/// Workers on the raw socket have different names.
pub proof fn law_worker_names(i: nat, j: nat)
    ensures
        v4_worker_name(V4Source::AfPacket, i) == "rx-v4-afp"@,
        v4_worker_name(V4Source::RawSocket, i) == "rx-v4-"@ + decimal(i),
        i != j ==> v4_worker_name(V4Source::RawSocket, i) != v4_worker_name(V4Source::RawSocket, j),
{
    let head = "rx-v4-"@;
    if v4_worker_name(V4Source::RawSocket, i) == v4_worker_name(V4Source::RawSocket, j) {
        let a = head + decimal(i);
        let b = head + decimal(j);
        assert(a.subrange(head.len() as int, a.len() as int) =~= decimal(i));
        assert(b.subrange(head.len() as int, b.len() as int) =~= decimal(j));
        law_decimal_injective(i, j);
    }
}

} // verus!
