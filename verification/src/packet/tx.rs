//! TX packet path: frame from the TAP, tunnel header, adaptive batch.
//!
//! Reading the TAP device, encoding the header's bytes and sending are the
//! caller's. Which header a frame gets, how it is put in front of the frame,
//! and when a batch is flushed is here.

use crate::addr::DemuxKey;
use crate::addr::IpAddr;
use crate::config::TunnelConfig;
use crate::packet::buffer::PacketBuf;
use crate::packet::buffer::HEADER_HEADROOM;
use crate::packet::buffer::MAX_FRAME_SIZE;
use crate::packet::rx::EOIP_HEADER_LEN;
use crate::packet::rx::ETHERIP_HEADER_LEN;
use crate::tunnel::handle::TunnelHandle;
use crate::tunnel::lifecycle::TunnelState;
use crate::tunnel::registry::TunnelRegistry;
use crate::tunnel::stats::stats_after_tx;
use crate::tunnel::stats::TunnelStats;
use vstd::prelude::*;

verus! {

/// Where a packet is sent: an address, and the port that raw sockets ignore.
#[derive(Debug, Clone, Copy, PartialEq, Eq, Structural)]
pub struct Destination {
    pub addr: IpAddr,
    pub port: u16,
}

/// A packet ready to be sent on the raw socket.
#[derive(Debug)]
pub struct TxPacket {
    pub buf: PacketBuf,
    pub dest: Destination,
}

/// The tunnel header that a packet gets.
#[derive(Debug, Clone, Copy, PartialEq, Eq, Structural)]
pub enum TxHeader {
    /// GRE header of an IPv4 tunnel.
    Eoip { tunnel_id: u16, payload_len: u16 },
    /// EtherIP header of an IPv6 tunnel.
    EtherIp { tunnel_id: u16 },
}

/// The header of a packet that carries `payload_len` bytes to the peer of a
/// tunnel: EtherIP if the peer is reached over IPv6, else EoIP.
pub open spec fn header_for(config: TunnelConfig, payload_len: u16) -> TxHeader {
    if config.remote is V6 {
        TxHeader::EtherIp { tunnel_id: config.tunnel_id }
    } else {
        TxHeader::Eoip { tunnel_id: config.tunnel_id, payload_len }
    }
}

/// How many bytes a header takes.
pub open spec fn header_size(header: TxHeader) -> nat {
    match header {
        TxHeader::Eoip { .. } => EOIP_HEADER_LEN as nat,
        TxHeader::EtherIp { .. } => ETHERIP_HEADER_LEN as nat,
    }
}

impl TxHeader {
    /// The header of a packet that carries `payload_len` bytes.
    pub fn for_payload(config: &TunnelConfig, payload_len: u16) -> (header: TxHeader)
        ensures
            header == header_for(*config, payload_len),
    {
        if config.remote.is_ipv6() {
            TxHeader::EtherIp { tunnel_id: config.tunnel_id }
        } else {
            TxHeader::Eoip { tunnel_id: config.tunnel_id, payload_len }
        }
    }

    /// The header of a keepalive: a packet that carries nothing.
    pub fn for_keepalive(config: &TunnelConfig) -> (header: TxHeader)
        ensures
            header == header_for(*config, 0),
    {
        TxHeader::for_payload(config, 0)
    }

    /// How many bytes the header takes.
    pub fn len(&self) -> (len: usize)
        ensures
            len == header_size(*self),
            len <= HEADER_HEADROOM,
    {
        match self {
            TxHeader::Eoip { .. } => EOIP_HEADER_LEN,
            TxHeader::EtherIp { .. } => ETHERIP_HEADER_LEN,
        }
    }
}

/// Where packets for an address are sent.
pub fn destination(addr: IpAddr) -> (dest: Destination)
    ensures
        dest.addr == addr,
        dest.port == 0,
{
    Destination { addr, port: 0 }
}

/// What is kept for the family of an address: one thing for IPv4, one for IPv6.
pub fn by_family<T>(addr: IpAddr, v4: T, v6: T) -> (picked: T)
    ensures
        picked == (if addr is V6 {
            v6
        } else {
            v4
        }),
{
    if addr.is_ipv6() {
        v6
    } else {
        v4
    }
}

/// Account for a frame of `n` bytes that was read into the payload area of
/// `buf`, and say which header it gets.
pub fn accept_frame(handle: &mut TunnelHandle, buf: &mut PacketBuf, n: usize, now_ms: i64) -> (header:
    TxHeader)
    requires
        old(buf).wf(),
        n <= MAX_FRAME_SIZE,
    ensures
        header == header_for(old(handle).config, n as u16),
        *final(handle) == (TunnelHandle {
            stats: stats_after_tx(old(handle).stats, n as u64, now_ms),
            ..*old(handle)
        }),
        final(buf).wf(),
        final(buf).head() == HEADER_HEADROOM,
        final(buf)@ == old(buf).storage().subrange(HEADER_HEADROOM as int, HEADER_HEADROOM + n),
        final(buf).pooled() == old(buf).pooled(),
{
    buf.set_len(n);
    handle.stats.record_tx(n as u64, now_ms);
    TxHeader::for_payload(&handle.config, n as u16)
}

/// What is done with a frame that was read from a tunnel's TAP device.
#[derive(Debug, Clone, Copy, PartialEq, Eq, Structural)]
pub enum TxDecision {
    /// It is counted, gets this header and goes to this peer.
    Send { header: TxHeader, remote: IpAddr },
    /// It is dropped: the tunnel is stale.
    Suspended,
    /// It is dropped: there is no such tunnel.
    Gone,
}

/// Decide on a frame of `n` bytes that was read from the TAP device of a
/// registered tunnel into the payload area of `buf`, and account for it if it
/// is sent. A stale tunnel sends no frames.
pub fn accept_tunnel_frame(
    registry: &mut TunnelRegistry,
    key: &DemuxKey,
    buf: &mut PacketBuf,
    n: usize,
    now_ms: i64,
) -> (decision: TxDecision)
    requires
        old(registry).wf(),
        old(buf).wf(),
        n <= MAX_FRAME_SIZE,
    ensures
        final(registry).wf(),
        final(buf).wf(),
        final(buf).pooled() == old(buf).pooled(),
        decision is Gone <==> !old(registry)@.dom().contains(key@),
        decision is Suspended <==> old(registry)@.dom().contains(key@)
            && old(registry)@[key@].state@ is Stale,
        decision matches TxDecision::Send { header, remote } ==> {
            let before = old(registry)@[key@];
            &&& header == header_for(before.config, n as u16)
            &&& remote == before.config.remote
            &&& final(registry)@ == old(registry)@.insert(
                key@,
                TunnelHandle {
                    stats: stats_after_tx(before.stats, n as u64, now_ms),
                    ..before
                },
            )
            &&& final(buf).head() == HEADER_HEADROOM
            &&& final(buf)@ == old(buf).storage().subrange(
                HEADER_HEADROOM as int,
                HEADER_HEADROOM + n,
            )
        },
        !(decision is Send) ==> final(registry)@ == old(registry)@ && *final(buf) == *old(buf),
{
    match registry.remove(key) {
        Some((_, mut handle)) => {
            let stale: bool = handle.state.load() == TunnelState::Stale;
            let decision = if stale {
                TxDecision::Suspended
            } else {
                let header = accept_frame(&mut handle, buf, n, now_ms);
                TxDecision::Send { header, remote: handle.config.remote }
            };
            let _ = registry.insert(*key, handle);
            assert(registry@ =~= old(registry)@.insert(key@, registry@[key@]));
            assert(stale ==> registry@ =~= old(registry)@);
            decision
        },
        None => {
            assert(registry@ =~= old(registry)@);
            TxDecision::Gone
        },
    }
}

/// Account for a frame of `n` bytes on a host that runs a single tunnel over
/// IPv4, and say where it is sent. Nothing is counted and nothing sent if the
/// frame is empty or the peer is reached over IPv6.
pub fn account_single(handle: &mut TunnelHandle, n: usize) -> (dest: Option<Destination>)
    ensures
        dest is Some <==> n > 0 && old(handle).config.remote is V4,
        dest matches Some(d) ==> {
            &&& d.addr == old(handle).config.remote
            &&& d.port == 0
            &&& *final(handle) == (TunnelHandle {
                stats: TunnelStats {
                    tx_packets: old(handle).stats.tx_packets.wrapping_add(1),
                    tx_bytes: old(handle).stats.tx_bytes.wrapping_add(n as u64),
                    ..old(handle).stats
                },
                ..*old(handle)
            })
        },
        dest is None ==> *final(handle) == *old(handle),
{
    if n == 0 || handle.config.remote.is_ipv6() {
        return None;
    }
    handle.stats.tx_packets = handle.stats.tx_packets.wrapping_add(1);
    handle.stats.tx_bytes = handle.stats.tx_bytes.wrapping_add(n as u64);
    Some(destination(handle.config.remote))
}

/// Put a header in front of a frame.
pub fn encapsulate(remote: IpAddr, frame: PacketBuf, header: &[u8]) -> (packet: TxPacket)
    requires
        frame.wf(),
        header@.len() <= frame.head(),
    ensures
        packet.buf.wf(),
        packet.buf@ == header@ + frame@,
        packet.buf.pooled() == frame.pooled(),
        packet.dest.addr == remote,
        packet.dest.port == 0,
{
    let mut buf = frame;
    let ghost before = buf@;
    let area: &mut [u8] = buf.prepend_header(header.len());
    copy_into(area, header);
    assert(buf@ =~= header@ + before);
    TxPacket { buf, dest: destination(remote) }
}

/// Overwrite a slice with another of the same length.
fn copy_into(to: &mut [u8], from: &[u8])
    requires
        old(to)@.len() == from@.len(),
    ensures
        final(to)@ == from@,
{
    let mut i: usize = 0;
    while i < from.len()
        invariant
            to@.len() == from@.len(),
            i <= from@.len(),
            forall|j: int| 0 <= j < i ==> to@[j] == from@[j],
        decreases from@.len() - i,
    {
        to[i] = from[i];
        i = i + 1;
    }
    assert(to@ =~= from@);
}

/// Why the TAP reader got no frame.
#[derive(Debug, Clone, Copy, PartialEq, Eq, Structural)]
pub enum ReadFailure {
    WouldBlock,
    Other,
}

/// Whether the TAP reader goes on after a failed read.
pub fn reader_continues(failure: ReadFailure) -> (continues: bool)
    ensures
        continues == (failure is WouldBlock),
{
    match failure {
        ReadFailure::WouldBlock => true,
        ReadFailure::Other => false,
    }
}

/// Why a packet could not be sent.
#[derive(Debug, Clone, Copy, PartialEq, Eq, Structural)]
pub enum SendFailure {
    WouldBlock,
    NoBuffers,
    Other,
}

/// Whether a failed send is reported: packets that are dropped under
/// backpressure are not.
pub fn send_failure_reported(failure: SendFailure) -> (reported: bool)
    ensures
        reported == (failure is Other),
{
    match failure {
        SendFailure::WouldBlock => false,
        SendFailure::NoBuffers => false,
        SendFailure::Other => true,
    }
}

/// What the batcher waits for.
#[derive(Debug, Clone, Copy, PartialEq, Eq, Structural)]
pub enum BatchMode {
    /// A packet, the end of the queue, or shutdown.
    Idle,
    /// More packets for the batch, the end of the queue, or the deadline.
    Collecting,
    /// Nothing: it has ended.
    Stopped,
}

/// What happens to the batcher.
pub enum BatchEvent<T> {
    Packet(T),
    /// The batch has waited as long as it may.
    Deadline,
    /// The queue of packets has ended.
    Closed,
    Shutdown,
}

/// The mathematical state of a batcher.
pub struct BatchState<T> {
    pub mode: BatchMode,
    pub batch: Seq<T>,
}

/// What an event makes of a batcher, and what it flushes.
///
/// A packet that comes while the batch would stay below the low water mark is
/// sent at once. Otherwise packets are collected until there are as many as the
/// high water mark, the deadline passes, or the queue ends.
pub open spec fn batch_step<T>(
    state: BatchState<T>,
    low_water: nat,
    high_water: nat,
    event: BatchEvent<T>,
) -> (BatchState<T>, Seq<T>) {
    let flush_all = (BatchState { mode: BatchMode::Idle, batch: Seq::<T>::empty() }, state.batch);
    match (state.mode, event) {
        (BatchMode::Stopped, _) => (state, Seq::empty()),
        (BatchMode::Idle, BatchEvent::Packet(packet)) => {
            let batch = state.batch.push(packet);
            if batch.len() < low_water || batch.len() >= high_water {
                (BatchState { mode: BatchMode::Idle, batch: Seq::empty() }, batch)
            } else {
                (BatchState { mode: BatchMode::Collecting, batch }, Seq::empty())
            }
        },
        (BatchMode::Idle, BatchEvent::Deadline) => (state, Seq::empty()),
        (BatchMode::Idle, _) => (
            BatchState { mode: BatchMode::Stopped, batch: Seq::empty() },
            state.batch,
        ),
        (BatchMode::Collecting, BatchEvent::Packet(packet)) => {
            let batch = state.batch.push(packet);
            if batch.len() >= high_water {
                (BatchState { mode: BatchMode::Idle, batch: Seq::empty() }, batch)
            } else {
                (BatchState { mode: BatchMode::Collecting, batch }, Seq::empty())
            }
        },
        (BatchMode::Collecting, BatchEvent::Shutdown) => (state, Seq::empty()),
        (BatchMode::Collecting, _) => flush_all,
    }
}

/// Aggregates packets to be sent.
pub struct TxBatcher<T> {
    batch: Vec<T>,
    mode: BatchMode,
    low_water: usize,
    high_water: usize,
}

impl<T> View for TxBatcher<T> {
    type V = BatchState<T>;

    closed spec fn view(&self) -> BatchState<T> {
        BatchState { mode: self.mode, batch: self.batch@ }
    }
}

impl<T> TxBatcher<T> {
    pub closed spec fn low(self) -> nat {
        self.low_water as nat
    }

    pub closed spec fn high(self) -> nat {
        self.high_water as nat
    }

    pub fn new(low_water: usize, high_water: usize) -> (batcher: Self)
        ensures
            batcher@.mode is Idle,
            batcher@.batch == Seq::<T>::empty(),
            batcher.low() == low_water,
            batcher.high() == high_water,
    {
        TxBatcher { batch: Vec::new(), mode: BatchMode::Idle, low_water, high_water }
    }

    /// What the batcher waits for.
    pub fn mode(&self) -> (mode: BatchMode)
        ensures
            mode == self@.mode,
    {
        self.mode
    }

    /// Take an event, and return the packets that are to be sent now, in order.
    pub fn handle(&mut self, event: BatchEvent<T>) -> (flush: Vec<T>)
        ensures
            (final(self)@, flush@) == batch_step(
                old(self)@,
                old(self).low(),
                old(self).high(),
                event,
            ),
            final(self).low() == old(self).low(),
            final(self).high() == old(self).high(),
    {
        match self.mode {
            BatchMode::Stopped => Vec::new(),
            BatchMode::Idle => match event {
                BatchEvent::Packet(packet) => {
                    self.batch.push(packet);
                    if self.batch.len() < self.low_water || self.batch.len() >= self.high_water {
                        self.flush(BatchMode::Idle)
                    } else {
                        self.mode = BatchMode::Collecting;
                        Vec::new()
                    }
                },
                BatchEvent::Deadline => Vec::new(),
                BatchEvent::Closed => self.flush(BatchMode::Stopped),
                BatchEvent::Shutdown => self.flush(BatchMode::Stopped),
            },
            BatchMode::Collecting => match event {
                BatchEvent::Packet(packet) => {
                    self.batch.push(packet);
                    if self.batch.len() >= self.high_water {
                        self.flush(BatchMode::Idle)
                    } else {
                        Vec::new()
                    }
                },
                BatchEvent::Deadline => self.flush(BatchMode::Idle),
                BatchEvent::Closed => self.flush(BatchMode::Idle),
                BatchEvent::Shutdown => Vec::new(),
            },
        }
    }

    /// Empty the batch, and go over to waiting for something else.
    fn flush(&mut self, mode: BatchMode) -> (flush: Vec<T>)
        ensures
            flush@ == old(self)@.batch,
            final(self)@.batch == Seq::<T>::empty(),
            final(self)@.mode == mode,
            final(self).low() == old(self).low(),
            final(self).high() == old(self).high(),
    {
        let mut flush: Vec<T> = Vec::new();
        std::mem::swap(&mut flush, &mut self.batch);
        self.mode = mode;
        flush
    }
}

/// The state of a batcher after a number of events, and all that it flushed.
pub open spec fn batch_run<T>(
    state: BatchState<T>,
    low_water: nat,
    high_water: nat,
    events: Seq<BatchEvent<T>>,
) -> (BatchState<T>, Seq<T>)
    decreases events.len(),
{
    if events.len() == 0 {
        (state, Seq::empty())
    } else {
        let before = batch_run(state, low_water, high_water, events.drop_last());
        let last = batch_step(before.0, low_water, high_water, events.last());
        (last.0, before.1 + last.1)
    }
}

/// The packets that came to a batcher before it stopped, in order.
pub open spec fn batch_arrivals<T>(
    state: BatchState<T>,
    low_water: nat,
    high_water: nat,
    events: Seq<BatchEvent<T>>,
) -> Seq<T>
    decreases events.len(),
{
    if events.len() == 0 {
        Seq::empty()
    } else {
        let before = batch_arrivals(state, low_water, high_water, events.drop_last());
        let mode = batch_run(state, low_water, high_water, events.drop_last()).0.mode;
        match events.last() {
            BatchEvent::Packet(packet) if mode != BatchMode::Stopped => before.push(packet),
            _ => before,
        }
    }
}

/// No packet is lost, doubled or reordered: what was flushed, followed by what
/// still waits, is what came.
pub proof fn law_batcher_keeps_order<T>(
    state: BatchState<T>,
    low_water: nat,
    high_water: nat,
    events: Seq<BatchEvent<T>>,
)
    requires
        state.batch.len() == 0,
    ensures
        ({
            let (after, flushed) = batch_run(state, low_water, high_water, events);
            flushed + after.batch == batch_arrivals(state, low_water, high_water, events)
        }),
    decreases events.len(),
{
    let (after, flushed) = batch_run(state, low_water, high_water, events);
    let arrivals = batch_arrivals(state, low_water, high_water, events);
    if events.len() > 0 {
        law_batcher_keeps_order(state, low_water, high_water, events.drop_last());
    }
    assert(flushed + after.batch =~= arrivals);
}

/// A batch that waits is below the high water mark, at or above the low one,
/// and waits for its deadline; otherwise nothing waits.
pub proof fn law_batch_bounded<T>(
    state: BatchState<T>,
    low_water: nat,
    high_water: nat,
    events: Seq<BatchEvent<T>>,
)
    requires
        state.batch.len() == 0,
        state.mode is Idle,
    ensures
        ({
            let after = batch_run(state, low_water, high_water, events).0;
            if after.mode is Collecting {
                0 < after.batch.len() < high_water && low_water <= after.batch.len()
            } else {
                after.batch.len() == 0
            }
        }),
    decreases events.len(),
{
    if events.len() > 0 {
        law_batch_bounded(state, low_water, high_water, events.drop_last());
    }
}

/// With a low water mark of two or more the batcher works in immediate mode:
/// every packet is flushed as it comes.
pub proof fn law_immediate_mode<T>(
    state: BatchState<T>,
    low_water: nat,
    high_water: nat,
    packet: T,
)
    requires
        low_water >= 2,
        state.batch.len() == 0,
        state.mode is Idle,
    ensures
        batch_step(state, low_water, high_water, BatchEvent::Packet(packet)) == (
            state,
            seq![packet],
        ),
{
    let (after, flushed) = batch_step(state, low_water, high_water, BatchEvent::Packet(packet));
    assert(after.batch =~= state.batch);
    assert(flushed =~= seq![packet]);
}

/// The header that a frame of `n` bytes gets tells its tunnel, and over IPv4 its
/// length, for every frame that a buffer holds; it is that of a keepalive only if
/// the frame is empty. It takes eight bytes over IPv4 and two over IPv6.
pub proof fn law_header_tells_the_frame(config: TunnelConfig, n: nat)
    requires
        n <= 1522,
    ensures
        config.remote is V4 ==> ({
            let header = header_for(config, n as u16);
            &&& header is Eoip
            &&& header->Eoip_tunnel_id == config.tunnel_id
            &&& header->payload_len == n
            &&& header_size(header) == 8
        }),
        config.remote is V6 ==> ({
            let header = header_for(config, n as u16);
            &&& header is EtherIp
            &&& header->EtherIp_tunnel_id == config.tunnel_id
            &&& header_size(header) == 2
        }),
{
}

/// Headers of different lengths differ over IPv4, those of different tunnels do
/// over either family, and the length of a header does not depend on the frame.
pub proof fn law_headers_tell_frames_apart(a: TunnelConfig, b: TunnelConfig, m: u16, n: u16)
    ensures
        a.remote is V4 && m != n ==> header_for(a, m) != header_for(a, n),
        a.tunnel_id != b.tunnel_id ==> header_for(a, m) != header_for(b, n),
        header_size(header_for(a, m)) == header_size(header_for(a, n)),
{
}

/// A batcher that waits for packets sends one at once if the low water mark is two
/// or more, or the high one at most one; else the packet starts a batch. A batch
/// that is being collected takes packets until it has as many as the high water
/// mark, and is then sent whole.
pub proof fn law_packet_joins_the_batch<T>(
    state: BatchState<T>,
    low_water: nat,
    high_water: nat,
    packet: T,
)
    ensures
        ({
            let (after, flushed) = batch_step(
                state,
                low_water,
                high_water,
                BatchEvent::Packet(packet),
            );
            let all = state.batch.push(packet);
            &&& state.mode is Idle && state.batch.len() == 0 && (low_water >= 2 || high_water <= 1)
                ==> after.mode is Idle && after.batch.len() == 0 && flushed == all
            &&& state.mode is Idle && state.batch.len() == 0 && low_water < 2 && high_water > 1
                ==> after.mode is Collecting && after.batch == all && flushed.len() == 0
            &&& state.mode is Collecting && all.len() >= high_water ==> after.mode is Idle
                && after.batch.len() == 0 && flushed == all
            &&& state.mode is Collecting && all.len() < high_water ==> after.mode is Collecting
                && after.batch == all && flushed.len() == 0
            &&& state.mode is Stopped ==> after == state && flushed.len() == 0
        }),
{
}

/// A batch does not wait beyond its deadline or the end of the queue: all of it is
/// sent then. A batcher that waits for packets stops at the end of the queue and
/// at shutdown, with nothing left behind; one that collects a batch finishes it
/// first.
pub proof fn law_batch_is_not_kept<T>(state: BatchState<T>, low_water: nat, high_water: nat)
    ensures
        state.mode is Collecting ==> {
            let deadline = batch_step(state, low_water, high_water, BatchEvent::<T>::Deadline);
            let closed = batch_step(state, low_water, high_water, BatchEvent::<T>::Closed);
            let shutdown = batch_step(state, low_water, high_water, BatchEvent::<T>::Shutdown);
            &&& deadline.0.mode is Idle && deadline.0.batch.len() == 0 && deadline.1 == state.batch
            &&& closed.0.mode is Idle && closed.0.batch.len() == 0 && closed.1 == state.batch
            &&& shutdown.0 == state && shutdown.1.len() == 0
        },
        state.mode is Idle ==> {
            let deadline = batch_step(state, low_water, high_water, BatchEvent::<T>::Deadline);
            let closed = batch_step(state, low_water, high_water, BatchEvent::<T>::Closed);
            let shutdown = batch_step(state, low_water, high_water, BatchEvent::<T>::Shutdown);
            &&& deadline.0 == state && deadline.1.len() == 0
            &&& closed.0.mode is Stopped && closed.0.batch.len() == 0 && closed.1 == state.batch
            &&& shutdown.0.mode is Stopped && shutdown.0.batch.len() == 0 && shutdown.1
                == state.batch
        },
{
}

/// A packet is its header followed by its frame, and goes to the tunnel's peer.
pub proof fn law_packet_is_header_and_frame(
    remote: IpAddr,
    frame: PacketBuf,
    header: &[u8],
    packet: TxPacket,
)
    requires
        call_ensures(encapsulate, (remote, frame, header), packet),
    ensures
        packet.buf@ == header@ + frame@,
        packet.dest.addr == remote,
        packet.dest.port == 0,
{
}

} // verus!
