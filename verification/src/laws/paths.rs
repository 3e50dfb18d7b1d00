//! Laws of the operations on paths, sockets and batches.

use crate::addr::law_four_octets;
use crate::addr::IpAddr;
use crate::config::TunnelConfig;
use crate::net::mtu::after_bound_device;
use crate::net::mtu::after_index;
use crate::net::mtu::after_index_name;
use crate::net::mtu::auto_overlay_mtu;
use crate::net::mtu::clamp_mtu;
use crate::net::mtu::detect_interface_mtu;
use crate::net::mtu::law_name_ends_at_nul;
use crate::net::mtu::law_sys_mtu_reads_back;
use crate::net::mtu::overlay_mtu;
use crate::net::mtu::parse_sys_mtu;
use crate::net::mtu::sockaddr_to_ip;
use crate::net::mtu::MtuStep;
use crate::net::pmtud::apply_fallback;
use crate::net::pmtud::apply_path_mtu;
use crate::net::pmtud::law_probe_bytes;
use crate::net::pmtud::law_search_finds_limit;
use crate::net::pmtud::probe_packet;
use crate::net::pmtud::probe_payload;
use crate::net::pmtud::probe_step;
use crate::net::pmtud::search_end;
use crate::net::pmtud::search_result;
use crate::net::pmtud::search_start;
use crate::net::pmtud::PmtudError;
use crate::net::pmtud::PmtudSearch;
use crate::net::pmtud::ProbeEvent;
use crate::net::pmtud::ProbeStep;
use crate::net::pmtud::ProbeVerdict;
use crate::net::tap_windows::adapter_matches;
use crate::net::tap_windows::is_tap_component;
use crate::packet::packet_mmap::block_offset;
use crate::packet::packet_mmap::block_ready;
use crate::packet::packet_mmap::next_block;
use crate::packet::packet_mmap::ring_step;
use crate::packet::packet_mmap::RingStep;
use crate::packet::rx::after_recv_failure;
use crate::packet::rx::plan_rx;
use crate::packet::rx::timespec_ms;
use crate::packet::rx::RecvFailure;
use crate::packet::rx::RecvStep;
use crate::packet::rx::RxPlan;
use crate::packet::tx::account_single;
use crate::packet::tx::by_family;
use crate::packet::tx::BatchEvent;
use crate::packet::tx::Destination;
use crate::packet::tx::TxBatcher;
use crate::packet::tx::TxHeader;
use crate::text::decimal;
use crate::text::utf8_lossy;
use crate::tunnel::handle::TunnelHandle;
use vstd::prelude::*;

verus! {

/// The automatic overlay MTU is the overlay MTU of the interface's path MTU, which is
/// the MTU that was detected, or 1500.
pub proof fn law_automatic_mtu(detected: Option<u16>, path_mtu: u16, overlay: u16, automatic: u16)
    requires
        call_ensures(detect_interface_mtu, (detected,), path_mtu),
        call_ensures(overlay_mtu, (path_mtu,), overlay),
        call_ensures(auto_overlay_mtu, (detected,), automatic),
    ensures
        automatic == overlay,
        path_mtu >= 576 ==> overlay + 42 == path_mtu,
        path_mtu < 576 ==> overlay == 534,
        detected matches Some(mtu) ==> path_mtu == mtu,
        detected is None ==> path_mtu == 1500,
{
}

/// A path MTU puts the overlay MTU that belongs to it in force, and is reported if
/// another one was.
pub proof fn law_apply_path_mtu(path_mtu: u16)
    ensures
        forall|handle: &mut TunnelHandle, changed: Option<u16>| #[trigger]
            call_ensures(apply_path_mtu, (handle, path_mtu), changed) ==> ({
                let (before, after) = (*handle, *final(handle));
                &&& path_mtu >= 576 ==> after.actual_mtu + 42 == path_mtu
                &&& path_mtu < 576 ==> after.actual_mtu == 534
                &&& changed is Some <==> after.actual_mtu != before.actual_mtu
                &&& changed is Some ==> changed->0 == after.actual_mtu
                &&& after.config == before.config && after.state == before.state && after.stats
                    == before.stats && after.rx_channel == before.rx_channel && after.rx_receiver
                    == before.rx_receiver
            }),
{
}

/// The fallback comes into force only where no MTU is: the overlay MTU of the
/// detected path MTU, or 1458.
pub proof fn law_apply_fallback(detected: Option<u16>)
    ensures
        forall|handle: &mut TunnelHandle, changed: Option<u16>| #[trigger]
            call_ensures(apply_fallback, (handle, detected), changed) ==> ({
                let (before, after) = (*handle, *final(handle));
                &&& before.actual_mtu != 0 ==> after == before && changed is None
                &&& before.actual_mtu == 0 ==> changed == Some(after.actual_mtu)
                &&& before.actual_mtu == 0 && detected is None ==> after.actual_mtu == 1458
                &&& before.actual_mtu == 0 && detected is Some && detected->0 >= 576
                    ==> after.actual_mtu + 42 == detected->0
                &&& before.actual_mtu == 0 && detected is Some && detected->0 < 576
                    ==> after.actual_mtu == 534
                &&& after.config == before.config && after.state == before.state && after.stats
                    == before.stats
            }),
{
}

/// An MTU that a path MTU can be is taken as it is, and a larger one as the largest.
pub proof fn law_clamp_mtu(mtu: u32, path_mtu: u16)
    requires
        call_ensures(clamp_mtu, (mtu,), path_mtu),
    ensures
        mtu <= 65535 ==> path_mtu == mtu,
        mtu > 65535 ==> path_mtu == 65535,
{
}

/// The MTU that the kernel writes out as a line is read back, if it fits.
pub proof fn law_parse_sys_mtu(contents: &str, written: nat, mtu: Option<u16>)
    requires
        contents@ == decimal(written).push('\n'),
        call_ensures(parse_sys_mtu, (contents,), mtu),
    ensures
        written <= 65535 ==> mtu == Some(written as u16),
        written > 65535 ==> mtu is None,
{
    law_sys_mtu_reads_back(written);
}

/// A bound device, or an interface of an index, whose name comes with a NUL behind it
/// is the one whose MTU is read; a device without a name is no bound device.
pub proof fn law_interface_steps(name: Seq<u8>, rest: Seq<u8>, field: &[u8], index: u32)
    requires
        field@ == name.push(0) + rest,
        forall|i: int| 0 <= i < name.len() ==> name[i] != 0,
    ensures
        forall|step: MtuStep| #[trigger] call_ensures(after_bound_device, (Some(field),), step)
            ==> if field@.len() > 1 && utf8_lossy(name).len() > 0 {
            step is ReadMtuOf && step->ReadMtuOf_0@ == utf8_lossy(name)
        } else {
            step is FindIndex
        },
        forall|step: MtuStep| #[trigger] call_ensures(after_index_name, (Some(field),), step)
            ==> if utf8_lossy(name).len() > 0 {
            step is ReadMtuOf && step->ReadMtuOf_0@ == utf8_lossy(name)
        } else {
            step is UseDefault
        },
        forall|step: MtuStep| #[trigger] call_ensures(after_bound_device, (None::<&[u8]>,), step)
            ==> step is FindIndex,
        forall|step: MtuStep| #[trigger] call_ensures(after_index_name, (None::<&[u8]>,), step)
            ==> step is UseDefault,
        forall|step: MtuStep| #[trigger] call_ensures(after_index, (index,), step) ==> step == if index
            == 0 {
            MtuStep::UseDefault
        } else {
            MtuStep::FindName(index)
        },
{
    law_name_ends_at_nul(name, rest);
}

/// An IPv4 socket address has its four octets, the first one being the highest.
pub proof fn law_sockaddr(
    family: i32,
    v4: &[u8],
    v6: &[u8],
    a: u8,
    b: u8,
    c: u8,
    d: u8,
    addr: Option<IpAddr>,
)
    requires
        v4@ == seq![a, b, c, d],
        call_ensures(sockaddr_to_ip, (family, v4, v6), addr),
    ensures
        family == 2 ==> addr is Some && addr->0 is V4 && addr->0->V4_0 == a * 0x100_0000 + b
            * 0x1_0000 + c * 0x100 + d,
        family == 10 ==> addr is Some && addr->0 is V6,
        family != 2 && family != 10 ==> addr is None,
{
    law_four_octets(a, b, c, d);
}

/// A probe of a size has a payload that with the overhead of 28 bytes makes the size,
/// and its packet is the payload behind four bytes.
pub proof fn law_probe(size: u16, payload: u16, attempt: u32, bytes: Vec<u8>)
    requires
        call_ensures(probe_payload, (size,), payload),
        call_ensures(probe_packet, (payload, attempt), bytes),
    ensures
        size >= 28 ==> payload + 28 == size,
        size < 28 ==> payload == 0,
        bytes@.len() == payload + 4,
        attempt < 0x1_0000 ==> bytes@[2] * 256 + bytes@[3] == attempt,
{
    law_probe_bytes(payload, attempt, attempt);
}

/// An attempt that is answered settles the size; one that is not is repeated, and the
/// third one is the last.
pub proof fn law_probe_step(attempt: u32, event: ProbeEvent, step: ProbeStep)
    requires
        attempt < 3,
        call_ensures(probe_step, (attempt, event), step),
    ensures
        event is Reply ==> step == ProbeStep::Verdict(ProbeVerdict::Passes),
        event is SendTooLong || event is RecvTooLong ==> step == ProbeStep::Verdict(
            ProbeVerdict::TooLong,
        ),
        (event is SendFailed || event is NoReply) && attempt < 2 ==> step == ProbeStep::Retry(
            (attempt + 1) as u32,
        ),
        (event is SendFailed || event is NoReply) && attempt == 2 ==> step == ProbeStep::Verdict(
            ProbeVerdict::Unanswered,
        ),
{
}

/// A report on the size that was probed leaves in question only the larger sizes if
/// that size was not too long, and only the smaller ones if it was; the size that
/// passed last is the best one. Without such sizes the search ends.
pub proof fn law_report(verdict: ProbeVerdict)
    ensures
        forall|search: &mut PmtudSearch, nothing: ()| #[trigger]
            call_ensures(PmtudSearch::report, (search, verdict), nothing) && !(*search).done
                && (*search).lo <= (*search).hi ==> ({
                let (before, after) = (*search, *final(search));
                let size = before.lo + (before.hi - before.lo) / 2;
                &&& after.answered <==> before.answered || !(verdict is Unanswered)
                &&& verdict is TooLong ==> {
                    &&& after.best == before.best
                    &&& after.done <==> size == before.lo
                    &&& !after.done ==> after.lo == before.lo && after.hi == size - 1
                }
                &&& !(verdict is TooLong) ==> {
                    &&& after.best == Some(size as u16)
                    &&& after.done <==> size == before.hi
                    &&& !after.done ==> after.lo == size + 1 && after.hi == before.hi
                }
            }),
{
}

/// A search begins with the sizes from 576 to 1500 in question, probes the one in the
/// middle, and on a path that refuses what is longer than its MTU ends with that MTU.
pub proof fn law_search(limit: u16, verdicts: spec_fn(u16) -> ProbeVerdict)
    requires
        576 <= limit < 1500,
        forall|size: u16| (#[trigger] verdicts(size) is TooLong) <==> size > limit,
    ensures
        search_result(search_end(search_start(), verdicts)) == Ok::<
            u16,
            PmtudError,
        >(limit),
        forall|search: PmtudSearch| #[trigger]
            call_ensures(PmtudSearch::new, (), search) ==> search.lo == 576 && search.hi == 1500
                && search.best is None && !search.answered && !search.done,
        forall|search: PmtudSearch, size: Option<u16>| #[trigger]
            call_ensures(PmtudSearch::next_probe, (&search,), size) && search.lo <= search.hi
                ==> if search.done {
                size is None
            } else {
                size is Some && (size->0 - search.lo == search.hi - size->0 || size->0 - search.lo
                    + 1 == search.hi - size->0)
            },
{
    law_search_finds_limit(limit as int, verdicts);
}

/// Blocks of the ring follow each other in memory, the first one behind the last; one
/// is walked as soon as it is handed over.
pub proof fn law_ring(current: u32, offset: usize, next: u32, next_offset: usize, status: u32)
    requires
        current < 16,
        call_ensures(block_offset, (current,), offset),
        call_ensures(next_block, (current,), next),
        call_ensures(block_offset, (next,), next_offset),
    ensures
        current < 15 ==> next == current + 1 && next_offset == offset + 262144,
        current == 15 ==> next == 0 && next_offset == 0,
        forall|ready: bool| #[trigger] call_ensures(block_ready, (status,), ready) ==> (ready
            <==> status % 2 == 1),
        forall|step: RingStep| #[trigger] call_ensures(ring_step, (current, status), step)
            ==> if status % 2 == 1 {
            step == (RingStep::Walk { next })
        } else {
            step is Wait
        },
{
}

/// A time in seconds and nanoseconds lies in the millisecond that it is turned into.
pub proof fn law_timespec(secs: i64, nanos: i64, ms: i64)
    requires
        0 <= nanos < 1_000_000_000,
        call_ensures(timespec_ms, (secs, nanos), ms),
    ensures
        ms * 1_000_000 <= secs * 1_000_000_000 + nanos < (ms + 1) * 1_000_000,
{
}

/// A frame that is sent through a raw socket alone is counted with its bytes if it
/// goes to an IPv4 peer and is not empty; else nothing is sent or counted.
pub proof fn law_account_single(n: usize)
    ensures
        forall|handle: &mut TunnelHandle, dest: Option<Destination>| #[trigger]
            call_ensures(account_single, (handle, n), dest) ==> ({
                let (before, after) = (*handle, *final(handle));
                &&& n == 0 || before.config.remote is V6 ==> dest is None && after == before
                &&& n > 0 && before.config.remote is V4 ==> {
                    &&& dest is Some && dest->0.addr == before.config.remote
                    &&& after.stats.tx_packets == before.stats.tx_packets.wrapping_add(1)
                    &&& after.stats.tx_bytes == before.stats.tx_bytes.wrapping_add(n as u64)
                    &&& after.stats.rx_packets == before.stats.rx_packets
                    &&& after.stats.rx_bytes == before.stats.rx_bytes
                    &&& after.stats.last_rx_timestamp == before.stats.last_rx_timestamp
                    &&& after.config == before.config && after.state == before.state
                }
            }),
{
}

/// The header of a keepalive is that of an empty frame.
pub proof fn law_keepalive_header(config: TunnelConfig, header: TxHeader)
    requires
        call_ensures(TxHeader::for_keepalive, (&config,), header),
    ensures
        config.remote is V4 ==> header == (TxHeader::Eoip {
            tunnel_id: config.tunnel_id,
            payload_len: 0,
        }),
        config.remote is V6 ==> header == (TxHeader::EtherIp { tunnel_id: config.tunnel_id }),
{
}

/// Each socket there is gets a worker; AF_PACKET goes before the raw IPv4 socket, and
/// only the latter is shared by as many workers as are asked for.
pub proof fn law_plan(
    raw_v4: bool,
    raw_v6: bool,
    af_packet_v4: bool,
    rx_workers: usize,
    plan: RxPlan,
)
    requires
        call_ensures(plan_rx, (raw_v4, raw_v6, af_packet_v4, rx_workers), plan),
    ensures
        plan.v4 is AfPacket <==> af_packet_v4,
        plan.v4 is RawSocket <==> raw_v4 && !af_packet_v4,
        plan.v4_workers > 0 <==> raw_v4 || af_packet_v4,
        plan.v4 is AfPacket ==> plan.v4_workers == 1,
        plan.v4 is RawSocket && rx_workers > 0 ==> plan.v4_workers == rx_workers,
        plan.v4 is RawSocket && rx_workers == 0 ==> plan.v4_workers == 1,
        plan.v6_workers == 1 <==> raw_v6,
        plan.v6_workers <= 1,
{
}

/// An event makes a batcher neither lose nor repeat a packet: what it flushes and what
/// it keeps are what it held, and behind that the packet that came.
pub proof fn law_batcher<T>(event: BatchEvent<T>)
    ensures
        forall|batcher: &mut TxBatcher<T>, flush: Vec<T>| #[trigger]
            call_ensures(TxBatcher::<T>::handle, (batcher, event), flush) && !(
            (*batcher)@.mode is Stopped) ==> ({
                let (before, after) = ((*batcher)@, (*final(batcher))@);
                let held = match event {
                    BatchEvent::Packet(packet) => before.batch.push(packet),
                    _ => before.batch,
                };
                &&& flush@ + after.batch == held
                &&& flush@.len() == 0 || after.batch.len() == 0
                &&& event is Packet && held.len() >= (*batcher).high() ==> flush@ == held
                &&& event is Packet && before.mode is Idle && held.len() < (*batcher).low()
                    ==> flush@ == held
                &&& event is Packet && before.mode is Idle && (*batcher).low() <= held.len() < (
                *batcher).high() ==> after.mode is Collecting && flush@.len() == 0
                &&& event is Packet && before.mode is Collecting && held.len() < (
                *batcher).high() ==> after.mode is Collecting && flush@.len() == 0
                &&& event is Deadline && before.mode is Collecting ==> flush@ == held
            }),
{
    assert forall|batcher: &mut TxBatcher<T>, flush: Vec<T>| #[trigger]
        call_ensures(TxBatcher::<T>::handle, (batcher, event), flush) && !(
        (*batcher)@.mode is Stopped) implies ({
        let (before, after) = ((*batcher)@, (*final(batcher))@);
        let held = match event {
            BatchEvent::Packet(packet) => before.batch.push(packet),
            _ => before.batch,
        };
        flush@ + after.batch == held
    }) by {
        let (before, after) = ((*batcher)@, (*final(batcher))@);
        let held = match event {
            BatchEvent::Packet(packet) => before.batch.push(packet),
            _ => before.batch,
        };
        assert(flush@ + after.batch =~= held);
    }
}

/// Of two sockets a peer is sent to through the one of its family.
pub proof fn law_by_family<T>(addr: IpAddr, v4: T, v6: T, picked: T)
    requires
        call_ensures(by_family::<T>, (addr, v4, v6), picked),
    ensures
        addr is V4 ==> picked == v4,
        addr is V6 ==> picked == v6,
{
}

/// A receive that would block or was interrupted is tried again; any other failure ends
/// the worker, and is reported unless it is to stop anyway.
pub proof fn law_receive_failure(failure: RecvFailure, cancelled: bool, step: RecvStep)
    requires
        call_ensures(after_recv_failure, (failure, cancelled), step),
    ensures
        failure is WouldBlock || failure is Interrupted ==> step is Retry,
        !(failure is WouldBlock) && !(failure is Interrupted) && cancelled ==> step is Stop,
        !(failure is WouldBlock) && !(failure is Interrupted) && !cancelled
            ==> step is ReportAndStop,
{
}

/// The adapter that is looked for is one of the TAP driver's, and has the name that is
/// asked for, if one is.
pub proof fn law_adapter(
    component_id: &str,
    wanted: Option<&str>,
    connection: Option<&str>,
    tap: bool,
    matching: bool,
)
    requires
        call_ensures(is_tap_component, (component_id,), tap),
        call_ensures(adapter_matches, (wanted, connection), matching),
    ensures
        tap <==> component_id@ == "tap0901"@ || component_id@ == "root\\tap0901"@,
        wanted is None ==> matching,
        wanted is Some && connection is None ==> !matching,
        wanted is Some && connection is Some ==> (matching <==> connection->0@ == wanted->0@),
{
}

} // verus!
