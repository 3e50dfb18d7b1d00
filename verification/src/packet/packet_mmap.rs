//! AF_PACKET + TPACKET_V3 RX ring buffer: geometry, and the walk over the
//! packets of one block.
//!
//! Ring layout (TPACKET_V3):
//!   Ring = N blocks, each block = M frames (variable-size packets).
//!   Kernel fills blocks and marks them `TP_STATUS_USER`.
//!   Userspace processes all packets in a block, then marks `TP_STATUS_KERNEL`.

use vstd::prelude::*;

verus! {

/// Block size: 256 KB (must be power-of-2, page-aligned).
pub const BLOCK_SIZE: u32 = 262144;

/// Number of blocks: 16 blocks x 256 KB = 4 MB total ring.
pub const BLOCK_NR: u32 = 16;

/// Frame alignment within blocks.
pub const FRAME_SIZE: u32 = 2048;

/// Block retire timeout in ms: how long the kernel waits before delivering a
/// partially-full block. 1 ms for low latency.
pub const BLOCK_TIMEOUT_MS: u32 = 1;

pub const TP_STATUS_KERNEL: u32 = 0;

pub const TP_STATUS_USER: u32 = 1;

/// Length of the descriptor at the start of a block.
pub const BLOCK_DESC_LEN: usize = 48;

/// Where a block descriptor holds the number of packets.
pub const NUM_PKTS_AT: usize = 12;

/// Where a block descriptor holds the offset of the first packet.
pub const FIRST_PKT_AT: usize = 16;

/// Length of the header in front of each packet.
pub const PKT_HDR_LEN: usize = 48;

/// Where a packet header holds the distance to the next one, 0 in the last.
pub const NEXT_OFFSET_AT: usize = 0;

/// Where a packet header holds the number of bytes captured from the link
/// header on.
pub const SNAPLEN_AT: usize = 12;

/// Where a packet header holds the offset of the link header.
pub const MAC_AT: usize = 24;

/// Where a packet header holds the offset of the network header.
pub const NET_AT: usize = 26;

/// What is asked of the kernel for a ring.
#[derive(Debug, Clone, Copy, PartialEq, Eq, Structural)]
pub struct RingRequest {
    pub block_size: u32,
    pub block_nr: u32,
    pub frame_size: u32,
    pub frame_nr: u32,
    pub retire_blk_tov: u32,
    pub sizeof_priv: u32,
    pub feature_req_word: u32,
}

/// The ring that is asked of the kernel: as many frames as fit into its blocks.
pub fn ring_request() -> (request: RingRequest)
    ensures
        request.block_size == BLOCK_SIZE,
        request.block_nr == BLOCK_NR,
        request.frame_size == FRAME_SIZE,
        request.frame_nr * FRAME_SIZE == BLOCK_SIZE * BLOCK_NR,
        request.retire_blk_tov == BLOCK_TIMEOUT_MS,
        request.sizeof_priv == 0,
        request.feature_req_word == 0,
{
    RingRequest {
        block_size: BLOCK_SIZE,
        block_nr: BLOCK_NR,
        frame_size: FRAME_SIZE,
        frame_nr: (BLOCK_SIZE / FRAME_SIZE) * BLOCK_NR,
        retire_blk_tov: BLOCK_TIMEOUT_MS,
        sizeof_priv: 0,
        feature_req_word: 0,
    }
}

/// The size of the ring in bytes.
pub fn ring_size() -> (size: usize)
    ensures
        size == BLOCK_SIZE * BLOCK_NR,
{
    (BLOCK_SIZE as usize) * (BLOCK_NR as usize)
}

/// Where a block starts in the ring.
pub fn block_offset(index: u32) -> (offset: usize)
    requires
        index < BLOCK_NR,
    ensures
        offset == index * BLOCK_SIZE,
        offset + BLOCK_SIZE <= BLOCK_SIZE * BLOCK_NR,
{
    assert(index * 262144 + 262144 <= 262144 * 16) by (nonlinear_arith)
        requires
            index < 16,
    ;
    (index as usize) * (BLOCK_SIZE as usize)
}

/// Whether a block with this status is the reader's.
pub fn block_ready(status: u32) -> (ready: bool)
    ensures
        ready == (status % 2 == 1),
{
    assert((status & 1 != 0) == (status % 2 == 1)) by (bit_vector);
    (status & TP_STATUS_USER) != 0
}

/// The block that is read after this one.
pub fn next_block(current: u32) -> (next: u32)
    requires
        current < BLOCK_NR,
    ensures
        next < BLOCK_NR,
        next as int == (current + 1) % (BLOCK_NR as int),
{
    (current + 1) % BLOCK_NR
}

/// What a reader of the ring does with the current block.
#[derive(Debug, Clone, Copy, PartialEq, Eq, Structural)]
pub enum RingStep {
    /// The block is the kernel's: wait for it.
    Wait,
    /// Walk the block, hand it back to the kernel, and go on with this one.
    Walk { next: u32 },
}

/// What a reader of the ring does, given the status of the current block.
pub fn ring_step(current: u32, status: u32) -> (step: RingStep)
    requires
        current < BLOCK_NR,
    ensures
        step == (if status % 2 == 1 {
            RingStep::Walk { next: ((current + 1) % (BLOCK_NR as int)) as u32 }
        } else {
            RingStep::Wait
        }),
{
    if block_ready(status) {
        RingStep::Walk { next: next_block(current) }
    } else {
        RingStep::Wait
    }
}

/// The number that bytes stand for, in the machine's byte order.
pub open spec fn field_value(bytes: Seq<u8>, big_endian: bool) -> nat
    decreases bytes.len(),
{
    if bytes.len() == 0 {
        0
    } else if big_endian {
        field_value(bytes.drop_last(), big_endian) * 256 + bytes.last() as nat
    } else {
        field_value(bytes.drop_first(), big_endian) * 256 + bytes.first() as nat
    }
}

/// The field of `len` bytes at `at`.
pub open spec fn field(block: Seq<u8>, at: int, len: int, big_endian: bool) -> nat {
    field_value(block.subrange(at, at + len), big_endian)
}

fn read_u16(block: &[u8], at: usize, big_endian: bool) -> (value: u16)
    requires
        at + 2 <= block@.len(),
    ensures
        value == field(block@, at as int, 2, big_endian),
{
    proof {
        reveal_with_fuel(field_value, 3);
        let s = block@.subrange(at as int, at + 2);
        assert(s.drop_last().drop_last() =~= Seq::<u8>::empty());
        assert(s.drop_first().drop_first() =~= Seq::<u8>::empty());
    }
    let a: u16 = block[at] as u16;
    let b: u16 = block[at + 1] as u16;
    if big_endian {
        a * 256 + b
    } else {
        b * 256 + a
    }
}

fn read_u32(block: &[u8], at: usize, big_endian: bool) -> (value: u32)
    requires
        at + 4 <= block@.len(),
    ensures
        value == field(block@, at as int, 4, big_endian),
{
    proof {
        reveal_with_fuel(field_value, 5);
        let s = block@.subrange(at as int, at + 4);
        assert(s.drop_last().drop_last().drop_last().drop_last() =~= Seq::<u8>::empty());
        assert(s.drop_first().drop_first().drop_first().drop_first() =~= Seq::<u8>::empty());
    }
    let a: u32 = block[at] as u32;
    let b: u32 = block[at + 1] as u32;
    let c: u32 = block[at + 2] as u32;
    let d: u32 = block[at + 3] as u32;
    if big_endian {
        ((a * 256 + b) * 256 + c) * 256 + d
    } else {
        ((d * 256 + c) * 256 + b) * 256 + a
    }
}

/// How many bytes of the packet at `offset` are IP data: what was captured,
/// less the link header.
pub open spec fn ip_len(block: Seq<u8>, offset: int, big_endian: bool) -> int {
    let snaplen = field(block, offset + SNAPLEN_AT, 4, big_endian) as int;
    let mac = field(block, offset + MAC_AT, 2, big_endian) as int;
    let net = field(block, offset + NET_AT, 2, big_endian) as int;
    if snaplen < net - mac {
        0
    } else {
        snaplen - (net - mac)
    }
}

/// Where the IP data of the packet at `offset` starts in the block.
pub open spec fn ip_start(block: Seq<u8>, offset: int, big_endian: bool) -> int {
    offset + field(block, offset + NET_AT, 2, big_endian)
}

/// The packet at `offset` and its header lie inside the block, the link header
/// in front of the IP data.
pub open spec fn packet_fits(block: Seq<u8>, offset: int, big_endian: bool) -> bool {
    &&& offset + PKT_HDR_LEN <= block.len()
    &&& field(block, offset + MAC_AT, 2, big_endian) <= field(
        block,
        offset + NET_AT,
        2,
        big_endian,
    )
    &&& ip_len(block, offset, big_endian) > 0 ==> ip_start(block, offset, big_endian) + ip_len(
        block,
        offset,
        big_endian,
    ) <= block.len()
}

/// The IP data of up to `remaining` packets from the one at `offset` on, each
/// as start and length: packets without IP data are passed over, and a header
/// without a successor ends the walk. `None` if a packet leaves the block.
pub open spec fn walk(
    block: Seq<u8>,
    offset: int,
    remaining: nat,
    big_endian: bool,
) -> Option<Seq<(int, int)>>
    decreases remaining,
{
    if remaining == 0 {
        Some(Seq::empty())
    } else if !packet_fits(block, offset, big_endian) {
        None
    } else {
        let len = ip_len(block, offset, big_endian);
        let here = if len > 0 {
            seq![(ip_start(block, offset, big_endian), len)]
        } else {
            Seq::empty()
        };
        let next = field(block, offset + NEXT_OFFSET_AT, 4, big_endian);
        if next == 0 {
            Some(here)
        } else {
            match walk(block, offset + next, (remaining - 1) as nat, big_endian) {
                Some(rest) => Some(here + rest),
                None => None,
            }
        }
    }
}

/// Where the headers of up to `remaining` linked packets stand, from the one at
/// `offset` on: a header without a successor is the last.
pub open spec fn linked_from(
    block: Seq<u8>,
    offset: int,
    remaining: nat,
    big_endian: bool,
) -> Seq<int>
    decreases remaining,
{
    let next = field(block, offset + NEXT_OFFSET_AT, 4, big_endian);
    if remaining == 0 {
        Seq::empty()
    } else if next == 0 {
        seq![offset]
    } else {
        seq![offset] + linked_from(block, offset + next, (remaining - 1) as nat, big_endian)
    }
}

/// Where the headers of the linked packets of a block stand.
pub open spec fn linked_packets(block: Seq<u8>, big_endian: bool) -> Seq<int> {
    linked_from(
        block,
        field(block, FIRST_PKT_AT as int, 4, big_endian) as int,
        field(block, NUM_PKTS_AT as int, 4, big_endian),
        big_endian,
    )
}

/// The headers of those packets that have IP data.
pub open spec fn with_ip_data(block: Seq<u8>, headers: Seq<int>, big_endian: bool) -> Seq<int> {
    headers.filter(|at: int| ip_len(block, at, big_endian) > 0)
}

/// The IP data of the packets of a block.
pub open spec fn packets_of(block: Seq<u8>, big_endian: bool) -> Option<Seq<(int, int)>> {
    walk(
        block,
        field(block, FIRST_PKT_AT as int, 4, big_endian) as int,
        field(block, NUM_PKTS_AT as int, 4, big_endian),
        big_endian,
    )
}

/// The spans as mathematical integers.
pub open spec fn span_values(spans: Seq<(usize, usize)>) -> Seq<(int, int)> {
    spans.map_values(|span: (usize, usize)| (span.0 as int, span.1 as int))
}

/// Find the IP data of every packet in a block, each as start and length.
/// `None` if the block's headers lead out of it.
pub fn process_block(block: &[u8], big_endian: bool) -> (packets: Option<Vec<(usize, usize)>>)
    requires
        block@.len() >= BLOCK_DESC_LEN,
    ensures
        packets is Some <==> packets_of(block@, big_endian) is Some,
        packets matches Some(spans) ==> Some(span_values(spans@)) == packets_of(
            block@,
            big_endian,
        ),
{
    let mut offset: usize = read_u32(block, FIRST_PKT_AT, big_endian) as usize;
    let mut spans: Vec<(usize, usize)> = Vec::new();
    let mut remaining: usize = read_u32(block, NUM_PKTS_AT, big_endian) as usize;
    let ghost all = packets_of(block@, big_endian);
    proof {
        assert(span_values(spans@) =~= Seq::<(int, int)>::empty());
        if all is Some {
            assert(Seq::<(int, int)>::empty() + all->0 =~= all->0);
        }
    }
    while remaining > 0
        invariant
            all == packets_of(block@, big_endian),
            all is Some <==> walk(block@, offset as int, remaining as nat, big_endian) is Some,
            all is Some ==> all->0 == span_values(spans@) + walk(
                block@,
                offset as int,
                remaining as nat,
                big_endian,
            )->0,
        decreases remaining,
    {
        let ghost before = span_values(spans@);
        if block.len() < PKT_HDR_LEN || offset > block.len() - PKT_HDR_LEN {
            return None;
        }
        // tp_mac points to the link header, tp_net to the IP header; tp_snaplen
        // counts the bytes captured from tp_mac on.
        let mac: usize = read_u16(block, offset + MAC_AT, big_endian) as usize;
        let net: usize = read_u16(block, offset + NET_AT, big_endian) as usize;
        let snaplen: usize = read_u32(block, offset + SNAPLEN_AT, big_endian) as usize;
        let next: usize = read_u32(block, offset + NEXT_OFFSET_AT, big_endian) as usize;
        if net < mac {
            return None;
        }
        let len: usize = snaplen.saturating_sub(net - mac);
        if len > 0 {
            if net > block.len() - offset || len > block.len() - offset - net {
                return None;
            }
            spans.push((offset + net, len));
            assert(span_values(spans@) =~= before.push(((offset + net) as int, len as int)));
        }
        let ghost here: Seq<(int, int)> = if len > 0 {
            seq![((offset + net) as int, len as int)]
        } else {
            Seq::empty()
        };
        assert(span_values(spans@) =~= before + here);
        if next == 0 {
            return Some(spans);
        }
        proof {
            let rest = walk(block@, offset + next, (remaining - 1) as nat, big_endian);
            if rest is Some {
                assert(before + (here + rest->0) =~= (before + here) + rest->0);
            }
        }
        if next > block.len() - offset {
            // The next header would start behind the block.
            if remaining == 1 {
                assert(walk(block@, offset + next, 0, big_endian)->0 =~= Seq::empty());
                assert(span_values(spans@) + Seq::empty() =~= span_values(spans@));
                return Some(spans);
            }
            return None;
        }
        offset = offset + next;
        remaining = remaining - 1;
    }
    assert(span_values(spans@) + Seq::empty() =~= span_values(spans@));
    Some(spans)
}

/// Every packet that is found in a block lies inside it and is not empty, and
/// no more are found than the descriptor counts.
pub proof fn law_packets_inside_block(block: Seq<u8>, big_endian: bool)
    requires
        packets_of(block, big_endian) is Some,
    ensures
        packets_of(block, big_endian)->0.len() <= field(block, NUM_PKTS_AT as int, 4, big_endian),
        forall|i: int|
            0 <= i < packets_of(block, big_endian)->0.len() ==> {
                let span = #[trigger] packets_of(block, big_endian)->0[i];
                0 <= span.0 && 0 < span.1 && span.0 + span.1 <= block.len()
            },
{
    lemma_walk_inside_block(
        block,
        field(block, FIRST_PKT_AT as int, 4, big_endian) as int,
        field(block, NUM_PKTS_AT as int, 4, big_endian),
        big_endian,
    );
}

proof fn lemma_walk_inside_block(block: Seq<u8>, offset: int, remaining: nat, big_endian: bool)
    requires
        0 <= offset,
        walk(block, offset, remaining, big_endian) is Some,
    ensures
        walk(block, offset, remaining, big_endian)->0.len() <= remaining,
        forall|i: int|
            0 <= i < walk(block, offset, remaining, big_endian)->0.len() ==> {
                let span = #[trigger] walk(block, offset, remaining, big_endian)->0[i];
                0 <= span.0 && 0 < span.1 && span.0 + span.1 <= block.len()
            },
    decreases remaining,
{
    if remaining > 0 {
        let next = field(block, offset + NEXT_OFFSET_AT, 4, big_endian);
        if next != 0 {
            lemma_walk_inside_block(block, offset + next, (remaining - 1) as nat, big_endian);
        }
    }
}

/// What is found in a block is the IP data of its linked packets, each once and
/// in order, where they have any: as many spans as linked packets if each of them
/// has.
pub proof fn law_every_linked_packet_is_found(block: Seq<u8>, big_endian: bool)
    requires
        packets_of(block, big_endian) is Some,
    ensures
        packets_of(block, big_endian)->0 == with_ip_data(
            block,
            linked_packets(block, big_endian),
            big_endian,
        ).map_values(
            |at: int| (ip_start(block, at, big_endian), ip_len(block, at, big_endian)),
        ),
        linked_packets(block, big_endian).len() <= field(
            block,
            NUM_PKTS_AT as int,
            4,
            big_endian,
        ),
        (forall|i: int|
            0 <= i < linked_packets(block, big_endian).len() ==> ip_len(
                block,
                #[trigger] linked_packets(block, big_endian)[i],
                big_endian,
            ) > 0) ==> packets_of(block, big_endian)->0.len() == linked_packets(
            block,
            big_endian,
        ).len(),
{
    let headers = linked_packets(block, big_endian);
    lemma_walk_finds_linked(
        block,
        field(block, FIRST_PKT_AT as int, 4, big_endian) as int,
        field(block, NUM_PKTS_AT as int, 4, big_endian),
        big_endian,
    );
    if forall|i: int|
        0 <= i < headers.len() ==> ip_len(block, #[trigger] headers[i], big_endian) > 0 {
        lemma_filter_all(headers, |at: int| ip_len(block, at, big_endian) > 0);
    }
}

/// A filter that everything passes changes nothing.
proof fn lemma_filter_all(s: Seq<int>, keep: spec_fn(int) -> bool)
    requires
        forall|i: int| 0 <= i < s.len() ==> keep(#[trigger] s[i]),
    ensures
        s.filter(keep) == s,
    decreases s.len(),
{
    reveal(Seq::filter);
    if s.len() > 0 {
        lemma_filter_all(s.drop_last(), keep);
        assert(s.drop_last().push(s.last()) =~= s);
    }
}

proof fn lemma_walk_finds_linked(block: Seq<u8>, offset: int, remaining: nat, big_endian: bool)
    requires
        walk(block, offset, remaining, big_endian) is Some,
    ensures
        walk(block, offset, remaining, big_endian)->0 == with_ip_data(
            block,
            linked_from(block, offset, remaining, big_endian),
            big_endian,
        ).map_values(
            |at: int| (ip_start(block, at, big_endian), ip_len(block, at, big_endian)),
        ),
        linked_from(block, offset, remaining, big_endian).len() <= remaining,
    decreases remaining,
{
    reveal(Seq::filter);
    let keep = |at: int| ip_len(block, at, big_endian) > 0;
    let span = |at: int| (ip_start(block, at, big_endian), ip_len(block, at, big_endian));
    let all = linked_from(block, offset, remaining, big_endian);
    if remaining > 0 {
        let next = field(block, offset + NEXT_OFFSET_AT, 4, big_endian);
        let rest = if next == 0 {
            Seq::<int>::empty()
        } else {
            linked_from(block, offset + next, (remaining - 1) as nat, big_endian)
        };
        if next != 0 {
            lemma_walk_finds_linked(block, offset + next, (remaining - 1) as nat, big_endian);
        }
        assert(all =~= seq![offset] + rest);
        Seq::filter_distributes_over_add(seq![offset], rest, keep);
        assert(Seq::<int>::empty().filter(keep) =~= Seq::<int>::empty());
        assert(seq![offset].drop_last() =~= Seq::<int>::empty());
        assert(seq![offset].last() == offset);
        assert(seq![offset].filter(keep) =~= if keep(offset) {
            seq![offset]
        } else {
            Seq::empty()
        });
        assert(all.filter(keep).map_values(span) =~= seq![offset].filter(keep).map_values(span)
            + rest.filter(keep).map_values(span));
        assert(walk(block, offset, remaining, big_endian)->0 =~= all.filter(keep).map_values(span));
    } else {
        assert(all.filter(keep).map_values(span) =~= Seq::<(int, int)>::empty());
    }
}

/// Reading block after block comes back to the first one after as many steps
/// as there are blocks, and not before.
pub proof fn law_blocks_in_turn(start: int, steps: int)
    requires
        0 <= start < BLOCK_NR,
        0 < steps <= BLOCK_NR,
    ensures
        (start + steps) % (BLOCK_NR as int) == start <==> steps == BLOCK_NR,
{
}

/// A field of two or four bytes is the number that its bytes spell in base 256, the
/// least significant first on a little-endian machine and last on a big-endian one.
pub proof fn law_fields(block: Seq<u8>, at: int)
    requires
        0 <= at,
        at + 4 <= block.len(),
    ensures
        field(block, at, 2, false) == block[at] + block[at + 1] * 0x100,
        field(block, at, 2, true) == block[at] * 0x100 + block[at + 1],
        field(block, at, 4, false) == block[at] + block[at + 1] * 0x100 + block[at + 2] * 0x1_0000
            + block[at + 3] * 0x100_0000,
        field(block, at, 4, true) == block[at] * 0x100_0000 + block[at + 1] * 0x1_0000 + block[at
            + 2] * 0x100 + block[at + 3],
{
    reveal_with_fuel(field_value, 5);
    let two = block.subrange(at, at + 2);
    let four = block.subrange(at, at + 4);
    assert(two.drop_last().drop_last() =~= Seq::<u8>::empty());
    assert(two.drop_first().drop_first() =~= Seq::<u8>::empty());
    assert(four.drop_last().drop_last().drop_last().drop_last() =~= Seq::<u8>::empty());
    assert(four.drop_first().drop_first().drop_first().drop_first() =~= Seq::<u8>::empty());
}

/// The IP data of a packet starts where its header says that the network header
/// is, and is as long as what was captured from the link header on, less the link
/// header.
pub proof fn law_ip_data(block: Seq<u8>, offset: int, big_endian: bool)
    ensures
        ({
            let captured = field(block, offset + 12, 4, big_endian);
            let link = field(block, offset + 24, 2, big_endian);
            let network = field(block, offset + 26, 2, big_endian);
            &&& ip_start(block, offset, big_endian) == offset + network
            &&& link <= network <= link + captured ==> ip_len(block, offset, big_endian) + (network
                - link) == captured
            &&& captured < network - link ==> ip_len(block, offset, big_endian) == 0
        }),
{
}

/// A block is refused exactly if one of its linked packets does not fit: its header
/// of 48 bytes or its IP data leaves the block, or its link header stands behind
/// its network header.
pub proof fn law_block_is_refused(block: Seq<u8>, big_endian: bool)
    ensures
        packets_of(block, big_endian) is None <==> exists|i: int|
            0 <= i < linked_packets(block, big_endian).len() && ({
                let at = #[trigger] linked_packets(block, big_endian)[i];
                ||| at + 48 > block.len()
                ||| field(block, at + 24, 2, big_endian) > field(block, at + 26, 2, big_endian)
                ||| ip_len(block, at, big_endian) > 0 && ip_start(block, at, big_endian) + ip_len(
                    block,
                    at,
                    big_endian,
                ) > block.len()
            }),
{
    let headers = linked_packets(block, big_endian);
    lemma_walk_refused(
        block,
        field(block, FIRST_PKT_AT as int, 4, big_endian) as int,
        field(block, NUM_PKTS_AT as int, 4, big_endian),
        big_endian,
    );
    assert forall|at: int| !#[trigger] packet_fits(block, at, big_endian) <==> ({
        ||| at + 48 > block.len()
        ||| field(block, at + 24, 2, big_endian) > field(block, at + 26, 2, big_endian)
        ||| ip_len(block, at, big_endian) > 0 && ip_start(block, at, big_endian) + ip_len(
            block,
            at,
            big_endian,
        ) > block.len()
    }) by {}
    if packets_of(block, big_endian) is None {
        let i = choose|i: int|
            0 <= i < headers.len() && !packet_fits(block, #[trigger] headers[i], big_endian);
        assert(!packet_fits(block, linked_packets(block, big_endian)[i], big_endian));
    } else {
        assert forall|i: int| 0 <= i < headers.len() implies packet_fits(
            block,
            #[trigger] linked_packets(block, big_endian)[i],
            big_endian,
        ) by {
            assert(packet_fits(block, headers[i], big_endian));
        }
    }
}

proof fn lemma_walk_refused(block: Seq<u8>, offset: int, remaining: nat, big_endian: bool)
    ensures
        walk(block, offset, remaining, big_endian) is None <==> exists|i: int|
            0 <= i < linked_from(block, offset, remaining, big_endian).len() && !packet_fits(
                block,
                #[trigger] linked_from(block, offset, remaining, big_endian)[i],
                big_endian,
            ),
    decreases remaining,
{
    if remaining > 0 {
        let next = field(block, offset + NEXT_OFFSET_AT, 4, big_endian);
        let all = linked_from(block, offset, remaining, big_endian);
        assert(all[0] == offset);
        if next != 0 {
            let rest = linked_from(block, offset + next, (remaining - 1) as nat, big_endian);
            lemma_walk_refused(block, offset + next, (remaining - 1) as nat, big_endian);
            assert(all =~= seq![offset] + rest);
            if exists|i: int|
                0 <= i < rest.len() && !packet_fits(block, #[trigger] rest[i], big_endian) {
                let i = choose|i: int|
                    0 <= i < rest.len() && !packet_fits(block, #[trigger] rest[i], big_endian);
                assert(all[i + 1] == rest[i]);
            }
            if exists|i: int|
                0 <= i < all.len() && !packet_fits(block, #[trigger] all[i], big_endian) {
                let i = choose|i: int|
                    0 <= i < all.len() && !packet_fits(block, #[trigger] all[i], big_endian);
                if i > 0 {
                    assert(rest[i - 1] == all[i]);
                }
            }
        }
    }
}

/// The first linked packet of a block is the one that its descriptor names, each
/// other one is as far behind the one before as that one's header says, and there
/// are as many as the descriptor counts, unless a header has no successor before.
pub proof fn law_packets_are_linked(block: Seq<u8>, big_endian: bool, i: int)
    ensures
        ({
            let headers = linked_packets(block, big_endian);
            let count = field(block, 12, 4, big_endian);
            &&& headers.len() <= count
            &&& count > 0 ==> headers.len() > 0 && headers[0] == field(block, 16, 4, big_endian)
            &&& 0 <= i < headers.len() - 1 ==> headers[i + 1] == headers[i] + field(
                block,
                headers[i],
                4,
                big_endian,
            ) && field(block, headers[i], 4, big_endian) != 0
            &&& 0 < headers.len() < count ==> field(block, headers.last(), 4, big_endian) == 0
        }),
{
    lemma_linked(
        block,
        field(block, FIRST_PKT_AT as int, 4, big_endian) as int,
        field(block, NUM_PKTS_AT as int, 4, big_endian),
        big_endian,
        i,
    );
}

proof fn lemma_linked(block: Seq<u8>, offset: int, remaining: nat, big_endian: bool, i: int)
    ensures
        ({
            let headers = linked_from(block, offset, remaining, big_endian);
            &&& headers.len() <= remaining
            &&& remaining > 0 ==> headers.len() > 0 && headers[0] == offset
            &&& 0 <= i < headers.len() - 1 ==> headers[i + 1] == headers[i] + field(
                block,
                headers[i],
                4,
                big_endian,
            ) && field(block, headers[i], 4, big_endian) != 0
            &&& 0 < headers.len() < remaining ==> field(block, headers.last(), 4, big_endian) == 0
        }),
    decreases remaining,
{
    if remaining > 0 {
        let next = field(block, offset + NEXT_OFFSET_AT, 4, big_endian);
        if next != 0 {
            let rest = linked_from(block, offset + next, (remaining - 1) as nat, big_endian);
            let all = linked_from(block, offset, remaining, big_endian);
            lemma_linked(block, offset + next, (remaining - 1) as nat, big_endian, i - 1);
            assert(all =~= seq![offset] + rest);
            if rest.len() > 0 {
                assert(all[1] == rest[0]);
                assert(all.last() == rest.last());
            }
            if 1 <= i < all.len() - 1 {
                assert(all[i] == rest[i - 1] && all[i + 1] == rest[i]);
            }
        }
    }
}

} // verus!
