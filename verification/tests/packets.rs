use eoip_rs::addr::{DemuxKey, IpAddr};
use eoip_rs::config::TunnelConfig;
use eoip_rs::packet::buffer::{BufferPool, PacketBuf, MAX_FRAME_SIZE};
use eoip_rs::packet::packet_mmap::{
    block_offset, block_ready, next_block, process_block, ring_request, ring_size, ring_step,
    RingStep, BLOCK_NR, BLOCK_SIZE,
};
use eoip_rs::packet::rx::{
    after_recv_failure, batched_receive_usable, locate_v4, plan_rx, process_af_packet,
    process_batch, process_v4_packet, process_v6_packet, receive_single, settle_delivery,
    timespec_ms, worker_name, CoarseClock, EoipHeader, EtherIpHeader, MissLog, RecvFailure,
    RecvStep, RxBatch, RxOutcome, V4Source,
};
use eoip_rs::packet::tx::{
    accept_frame, account_single, by_family, encapsulate, reader_continues, send_failure_reported,
    BatchEvent, BatchMode, ReadFailure, SendFailure, TxBatcher, TxHeader,
};
use eoip_rs::tunnel::handle::TunnelHandle;
use eoip_rs::tunnel::registry::TunnelRegistry;

fn config(remote: IpAddr) -> TunnelConfig {
    TunnelConfig {
        tunnel_id: 100,
        local: IpAddr::from_v4_octets(10, 0, 0, 1),
        remote,
        iface_name: None,
        mtu: 1458,
        enabled: true,
        keepalive_interval_secs: 10,
        keepalive_timeout_secs: 100,
    }
}

fn v4_peer() -> IpAddr {
    IpAddr::from_v4_octets(192, 168, 1, 2)
}

/// An IPv4 packet from the peer with a header of 20 bytes, 8 bytes of tunnel
/// header and a frame.
fn v4_packet(frame: &[u8]) -> Vec<u8> {
    let mut packet = vec![0u8; 20];
    packet[0] = 0x45;
    packet[9] = 47;
    packet[12..16].copy_from_slice(&[192, 168, 1, 2]);
    packet.extend_from_slice(&[0x20, 0x01, 0x64, 0x00, 0x00, frame.len() as u8, 100, 0]);
    packet.extend_from_slice(frame);
    packet
}

fn header(payload_len: u16) -> Option<EoipHeader> {
    Some(EoipHeader { tunnel_id: 100, payload_len, header_len: 8 })
}

fn registry_with(remote: IpAddr, capacity: usize) -> (TunnelRegistry, DemuxKey) {
    let mut registry = TunnelRegistry::new();
    let key = DemuxKey { tunnel_id: 100, peer_addr: remote };
    registry.insert(key, TunnelHandle::with_channel_cap(config(remote), capacity));
    (registry, key)
}

fn received(registry: &TunnelRegistry, key: &DemuxKey) -> Option<Vec<u8>> {
    let guard = registry.get_ref(key).unwrap();
    let receiver = guard.value().rx_receiver.as_ref().unwrap().clone();
    receiver.try_recv().ok().map(|buf| buf.as_slice().to_vec())
}

#[test]
fn v4_frame_reaches_the_tap_writer() {
    let (mut registry, key) = registry_with(v4_peer(), 4);
    let mut pool = BufferPool::new(4);
    let mut clock = CoarseClock::new();
    let packet = v4_packet(&[1, 2, 3, 4, 5]);
    let outcome = process_v4_packet(
        &packet, packet.len(), header(5), &mut registry, &mut pool, &mut clock, 777,
    );
    assert_eq!(outcome, RxOutcome::Delivered);
    assert_eq!(received(&registry, &key), Some(vec![1, 2, 3, 4, 5]));
    assert_eq!(received(&registry, &key), None);
    assert_eq!(pool.available(), 3);
    let stats = registry.get(&key).unwrap().stats;
    assert_eq!(stats.rx_packets, 1);
    assert_eq!(stats.rx_bytes, 5);
    assert_eq!(stats.rx_errors, 0);
    assert_eq!(stats.last_rx_timestamp, 777);
    assert_eq!(clock, CoarseClock { count: 1, cached_ms: 777 });
}

#[test]
fn v4_packets_that_are_ignored() {
    let (mut registry, key) = registry_with(v4_peer(), 4);
    let mut pool = BufferPool::new(4);
    let mut clock = CoarseClock::new();
    let packet = v4_packet(&[]);
    // Too short for an IP header, too short for a tunnel header, not decoded.
    for (n, decoded) in [(19, header(0)), (27, header(0)), (28, None)] {
        let outcome = process_v4_packet(
            &packet, n, decoded, &mut registry, &mut pool, &mut clock, 1,
        );
        assert_eq!(outcome, RxOutcome::Ignored);
    }
    assert_eq!(registry.get(&key).unwrap().stats.rx_packets, 0);
    assert_eq!(clock.count, 0);
}

#[test]
fn v4_keepalive_counts_only() {
    let (mut registry, key) = registry_with(v4_peer(), 4);
    let mut pool = BufferPool::new(4);
    let mut clock = CoarseClock::new();
    let packet = v4_packet(&[]);
    let outcome = process_v4_packet(
        &packet, packet.len(), header(0), &mut registry, &mut pool, &mut clock, 5,
    );
    assert_eq!(outcome, RxOutcome::Keepalive);
    // A header that announces nothing is a keepalive even with bytes behind it.
    let packet = v4_packet(&[9, 9]);
    let outcome = process_v4_packet(
        &packet, packet.len(), header(0), &mut registry, &mut pool, &mut clock, 6,
    );
    assert_eq!(outcome, RxOutcome::Keepalive);
    assert_eq!(received(&registry, &key), None);
    let stats = registry.get(&key).unwrap().stats;
    assert_eq!((stats.rx_packets, stats.rx_bytes), (2, 2));
    assert_eq!(stats.last_rx_timestamp, 5);
    assert_eq!(pool.available(), 4);
}

#[test]
fn v4_miss_changes_nothing() {
    let (mut registry, key) = registry_with(v4_peer(), 4);
    let mut pool = BufferPool::new(4);
    let mut clock = CoarseClock::new();
    let packet = v4_packet(&[1]);
    let other = Some(EoipHeader { tunnel_id: 101, payload_len: 1, header_len: 8 });
    let outcome = process_v4_packet(
        &packet, packet.len(), other, &mut registry, &mut pool, &mut clock, 5,
    );
    assert_eq!(outcome, RxOutcome::Miss);
    let mut packet = packet;
    packet[15] = 3;
    let outcome = process_v4_packet(
        &packet, packet.len(), header(1), &mut registry, &mut pool, &mut clock, 5,
    );
    assert_eq!(outcome, RxOutcome::Miss);
    assert_eq!(registry.get(&key).unwrap().stats.rx_packets, 0);
    assert_eq!(clock.count, 0);
    assert_eq!(pool.available(), 4);
}

#[test]
fn full_channel_drops_and_counts() {
    let (mut registry, key) = registry_with(v4_peer(), 1);
    let mut pool = BufferPool::new(2);
    let mut clock = CoarseClock::new();
    let packet = v4_packet(&[1]);
    let mut outcomes = Vec::new();
    for _ in 0..2 {
        outcomes.push(process_v4_packet(
            &packet, packet.len(), header(1), &mut registry, &mut pool, &mut clock, 5,
        ));
    }
    assert_eq!(outcomes, vec![RxOutcome::Delivered, RxOutcome::Dropped]);
    let stats = registry.get(&key).unwrap().stats;
    assert_eq!((stats.rx_packets, stats.rx_errors), (2, 1));
    assert_eq!(pool.available(), 1);
}

#[test]
fn vanished_tap_writer_drops() {
    let mut handle = TunnelHandle::new(config(v4_peer()));
    handle.rx_receiver = None;
    let mut registry = TunnelRegistry::new();
    let key = DemuxKey { tunnel_id: 100, peer_addr: v4_peer() };
    registry.insert(key, handle);
    let mut pool = BufferPool::new(2);
    let mut clock = CoarseClock::new();
    let packet = v4_packet(&[1]);
    let outcome = process_v4_packet(
        &packet, packet.len(), header(1), &mut registry, &mut pool, &mut clock, 5,
    );
    assert_eq!(outcome, RxOutcome::Dropped);
    assert_eq!(pool.available(), 2);
}

#[test]
fn tunnel_without_channel_counts_only() {
    let mut handle = TunnelHandle::new(config(v4_peer()));
    handle.rx_channel = None;
    let mut registry = TunnelRegistry::new();
    let key = DemuxKey { tunnel_id: 100, peer_addr: v4_peer() };
    registry.insert(key, handle);
    let mut pool = BufferPool::new(2);
    let mut clock = CoarseClock::new();
    let packet = v4_packet(&[1]);
    let outcome = process_v4_packet(
        &packet, packet.len(), header(1), &mut registry, &mut pool, &mut clock, 5,
    );
    assert_eq!(outcome, RxOutcome::NoChannel);
    assert_eq!(registry.get(&key).unwrap().stats.rx_packets, 1);
    assert_eq!(pool.available(), 2);
}

#[test]
fn long_frames_are_cut() {
    let (mut registry, key) = registry_with(v4_peer(), 4);
    let mut pool = BufferPool::new(4);
    let mut clock = CoarseClock::new();
    let frame: Vec<u8> = (0..1600usize).map(|i| (i % 256) as u8).collect();
    let packet = v4_packet(&frame);
    let outcome = process_v4_packet(
        &packet, packet.len(), header(1600), &mut registry, &mut pool, &mut clock, 5,
    );
    assert_eq!(outcome, RxOutcome::Delivered);
    assert_eq!(received(&registry, &key).unwrap(), &frame[..MAX_FRAME_SIZE]);
    assert_eq!(registry.get(&key).unwrap().stats.rx_bytes, 1600);
}

#[test]
fn ip_options_move_the_header() {
    let mut packet = v4_packet(&[]);
    let layout = locate_v4(&packet, packet.len()).unwrap();
    assert_eq!(layout.offset, 20);
    assert_eq!(layout.source, v4_peer());
    packet[0] = 0x46;
    assert!(locate_v4(&packet, packet.len()).is_none());
    packet.extend_from_slice(&[0; 4]);
    assert_eq!(locate_v4(&packet, packet.len()).unwrap().offset, 24);
}

#[test]
fn af_packet_header_is_skipped() {
    let (mut registry, key) = registry_with(v4_peer(), 4);
    let mut pool = BufferPool::new(4);
    let mut clock = CoarseClock::new();
    let mut framed = vec![0xEEu8; 14];
    framed.extend_from_slice(&v4_packet(&[7, 8]));
    let outcome = process_af_packet(
        &framed, framed.len(), header(2), &mut registry, &mut pool, &mut clock, 5,
    );
    assert_eq!(outcome, RxOutcome::Delivered);
    assert_eq!(received(&registry, &key), Some(vec![7, 8]));
    let outcome = process_af_packet(
        &framed, 14, header(2), &mut registry, &mut pool, &mut clock, 5,
    );
    assert_eq!(outcome, RxOutcome::Ignored);
}

#[test]
fn batch_is_processed_in_order() {
    let (mut registry, key) = registry_with(v4_peer(), 4);
    let mut pool = BufferPool::new(4);
    let mut clock = CoarseClock::new();
    let mut stray = v4_packet(&[9]);
    stray[15] = 3;
    let bufs = vec![v4_packet(&[1]), stray, v4_packet(&[2, 3]), v4_packet(&[]), v4_packet(&[4])];
    let lens = bufs.iter().map(|buf| buf.len()).collect();
    let decoded = vec![header(1), header(1), header(2), header(0), header(1)];
    let batch = RxBatch { bufs, lens, decoded, framed: false };
    // The last buffer is not part of the batch.
    let outcomes = process_batch(&batch, 4, &mut registry, &mut pool, &mut clock, 5);
    assert_eq!(
        outcomes,
        vec![RxOutcome::Delivered, RxOutcome::Miss, RxOutcome::Delivered, RxOutcome::Keepalive]
    );
    assert_eq!(received(&registry, &key), Some(vec![1]));
    assert_eq!(received(&registry, &key), Some(vec![2, 3]));
    assert_eq!(received(&registry, &key), None);
    let stats = registry.get(&key).unwrap().stats;
    assert_eq!((stats.rx_packets, stats.rx_bytes), (3, 3));
    assert_eq!(clock, CoarseClock { count: 3, cached_ms: 5 });
    assert_eq!(pool.available(), 2);
}

#[test]
fn framed_batch_skips_the_link_header() {
    let (mut registry, key) = registry_with(v4_peer(), 4);
    let mut pool = BufferPool::new(4);
    let mut clock = CoarseClock::new();
    let mut framed = vec![0xEEu8; 14];
    framed.extend_from_slice(&v4_packet(&[7, 8]));
    let lens = vec![framed.len(), 14];
    let bufs = vec![framed.clone(), framed];
    let batch = RxBatch { bufs, lens, decoded: vec![header(2), None], framed: true };
    let outcomes = process_batch(&batch, 2, &mut registry, &mut pool, &mut clock, 5);
    assert_eq!(outcomes, vec![RxOutcome::Delivered, RxOutcome::Ignored]);
    assert_eq!(received(&registry, &key), Some(vec![7, 8]));
    let empty = process_batch(&batch, 0, &mut registry, &mut pool, &mut clock, 5);
    assert!(empty.is_empty());
}

#[test]
fn v6_frames() {
    let peer = IpAddr::V6(2);
    let (mut registry, key) = registry_with(peer, 4);
    let mut pool = BufferPool::new(4);
    let mut clock = CoarseClock::new();
    let payload = [0x30, 0x64, 5, 6, 7];
    let decoded = Some(EtherIpHeader { tunnel_id: 100, header_len: 2 });
    let mut run = |n: usize, source: IpAddr, decoded: Option<EtherIpHeader>| {
        process_v6_packet(
            &payload, n, source, decoded, &mut registry, &mut pool, &mut clock, 9,
        )
    };
    assert_eq!(run(1, peer, decoded), RxOutcome::Ignored);
    assert_eq!(run(5, peer, None), RxOutcome::Ignored);
    assert_eq!(run(5, IpAddr::V6(3), decoded), RxOutcome::Miss);
    assert_eq!(run(2, peer, decoded), RxOutcome::Keepalive);
    assert_eq!(run(5, peer, decoded), RxOutcome::Delivered);
    assert_eq!(received(&registry, &key), Some(vec![5, 6, 7]));
    let stats = registry.get(&key).unwrap().stats;
    assert_eq!((stats.rx_packets, stats.rx_bytes), (2, 3));
}

#[test]
fn delivery_is_settled_by_the_answer() {
    let mut handle = TunnelHandle::new(config(v4_peer()));
    let mut pool = BufferPool::new(1);
    let buf = pool.get();
    assert_eq!(settle_delivery(&mut handle, &mut pool, None), RxOutcome::Delivered);
    assert_eq!(handle.stats.rx_errors, 0);
    assert_eq!(settle_delivery(&mut handle, &mut pool, Some(buf)), RxOutcome::Dropped);
    assert_eq!(handle.stats.rx_errors, 1);
    assert_eq!(pool.available(), 1);
}

#[test]
fn single_tunnel_receive() {
    let mut handle = TunnelHandle::new(config(v4_peer()));
    let packet = v4_packet(&[1, 2, 3]);
    assert_eq!(receive_single(&packet, packet.len(), header(3), &mut handle, 4), Some((28, 31)));
    assert_eq!(handle.stats.rx_bytes, 3);
    assert_eq!(handle.stats.last_rx_timestamp, 4);
    assert_eq!(receive_single(&packet, packet.len(), header(0), &mut handle, 5), None);
    assert_eq!(handle.stats.rx_packets, 2);
    let other = Some(EoipHeader { tunnel_id: 1, payload_len: 3, header_len: 8 });
    assert_eq!(receive_single(&packet, packet.len(), other, &mut handle, 6), None);
    let mut udp = packet.clone();
    udp[9] = 17;
    assert_eq!(receive_single(&udp, udp.len(), header(3), &mut handle, 6), None);
    assert_eq!(receive_single(&packet, 19, header(3), &mut handle, 6), None);
    // A length that does not fit is no matter in a packet that is skipped.
    assert_eq!(receive_single(&udp, udp.len(), header(900), &mut handle, 6), None);
    let other = Some(EoipHeader { tunnel_id: 1, payload_len: 900, header_len: 8 });
    assert_eq!(receive_single(&packet, packet.len(), other, &mut handle, 6), None);
    assert_eq!(handle.stats.rx_packets, 2);
}

#[test]
fn coarse_clock_refreshes_every_64_times() {
    let mut clock = CoarseClock::default();
    let readings: Vec<i64> = (0..130).map(|i| clock.timestamp_ms(1000 + i)).collect();
    assert!(readings[..64].iter().all(|t| *t == 1000));
    assert!(readings[64..128].iter().all(|t| *t == 1064));
    assert_eq!(readings[128], 1128);
    assert!(!clock.is_due());
    let mut wrapping = CoarseClock { count: u64::MAX, cached_ms: 3 };
    assert_eq!(wrapping.timestamp_ms(9), 3);
    assert!(wrapping.is_due());
    assert_eq!(timespec_ms(12, 345_999_999), 12_345);
}

#[test]
fn misses_are_logged_once_a_second() {
    let mut log = MissLog::new();
    assert_eq!(log.record(500), None);
    assert_eq!(log.record(1000), None);
    assert_eq!(log.record(1001), Some(2));
    assert_eq!(log.record(1002), None);
    assert_eq!(log, MissLog { last_log_ms: 1001, count: 1 });
    // A clock that went back counts as far ahead.
    assert_eq!(log.record(1000), Some(1));
}

#[test]
fn receive_loop_decisions() {
    assert_eq!(after_recv_failure(RecvFailure::WouldBlock, true), RecvStep::Retry);
    assert_eq!(after_recv_failure(RecvFailure::Interrupted, false), RecvStep::Retry);
    assert_eq!(after_recv_failure(RecvFailure::Other, true), RecvStep::Stop);
    assert_eq!(after_recv_failure(RecvFailure::Other, false), RecvStep::ReportAndStop);
    assert_eq!(after_recv_failure(RecvFailure::Unsupported, false), RecvStep::ReportAndStop);
    assert!(batched_receive_usable(None));
    assert!(batched_receive_usable(Some(RecvFailure::WouldBlock)));
    assert!(!batched_receive_usable(Some(RecvFailure::Unsupported)));
}

#[test]
fn receive_plans() {
    let plan = plan_rx(true, true, true, 4);
    assert_eq!((plan.v4, plan.v4_workers, plan.v6_workers), (V4Source::AfPacket, 1, 1));
    let plan = plan_rx(true, false, false, 4);
    assert_eq!((plan.v4, plan.v4_workers, plan.v6_workers), (V4Source::RawSocket, 4, 0));
    let plan = plan_rx(true, false, false, 0);
    assert_eq!(plan.v4_workers, 1);
    let plan = plan_rx(false, true, false, 4);
    assert_eq!((plan.v4, plan.v4_workers, plan.v6_workers), (V4Source::Unavailable, 0, 1));
    assert_eq!(worker_name(V4Source::AfPacket, 0), "rx-v4-afp");
    assert_eq!(worker_name(V4Source::RawSocket, 12), "rx-v4-12");
}

#[test]
fn sending_a_frame() {
    let mut handle = TunnelHandle::new(config(v4_peer()));
    let mut buf = PacketBuf::new();
    buf.payload_mut()[..3].copy_from_slice(&[1, 2, 3]);
    let header = accept_frame(&mut handle, &mut buf, 3, 55);
    assert_eq!(header, TxHeader::Eoip { tunnel_id: 100, payload_len: 3 });
    assert_eq!(header.len(), 8);
    assert_eq!(handle.stats.tx_packets, 1);
    assert_eq!(handle.stats.tx_bytes, 3);
    assert_eq!(handle.stats.last_tx_timestamp, 55);
    let bytes = [0x20, 0x01, 0x64, 0x00, 0x00, 0x03, 100, 0];
    let packet = encapsulate(handle.config.remote, buf, &bytes);
    assert_eq!(packet.buf.as_slice(), &[0x20, 0x01, 0x64, 0x00, 0x00, 0x03, 100, 0, 1, 2, 3]);
    assert_eq!(packet.dest.addr, v4_peer());
    assert_eq!(packet.dest.port, 0);
}

#[test]
fn headers_by_family() {
    let v6 = config(IpAddr::V6(1));
    assert_eq!(TxHeader::for_payload(&v6, 9), TxHeader::EtherIp { tunnel_id: 100 });
    assert_eq!(TxHeader::for_keepalive(&v6).len(), 2);
    let v4 = config(v4_peer());
    assert_eq!(
        TxHeader::for_keepalive(&v4),
        TxHeader::Eoip { tunnel_id: 100, payload_len: 0 }
    );
    assert_eq!(by_family(v4.remote, 4, 6), 4);
    assert_eq!(by_family(v6.remote, 4, 6), 6);
}

#[test]
fn single_tunnel_send() {
    let mut handle = TunnelHandle::new(config(v4_peer()));
    assert_eq!(account_single(&mut handle, 0), None);
    assert_eq!(account_single(&mut handle, 60).unwrap().addr, v4_peer());
    assert_eq!((handle.stats.tx_packets, handle.stats.tx_bytes), (1, 60));
    assert_eq!(handle.stats.last_tx_timestamp, 0);
    let mut v6 = TunnelHandle::new(config(IpAddr::V6(1)));
    assert_eq!(account_single(&mut v6, 60), None);
    assert_eq!(v6.stats.tx_packets, 0);
}

#[test]
fn failures_on_the_send_path() {
    assert!(reader_continues(ReadFailure::WouldBlock));
    assert!(!reader_continues(ReadFailure::Other));
    assert!(!send_failure_reported(SendFailure::WouldBlock));
    assert!(!send_failure_reported(SendFailure::NoBuffers));
    assert!(send_failure_reported(SendFailure::Other));
}

#[test]
fn immediate_mode_flushes_each_packet() {
    let mut batcher: TxBatcher<u32> = TxBatcher::new(8, 256);
    assert_eq!(batcher.handle(BatchEvent::Packet(1)), vec![1]);
    assert_eq!(batcher.handle(BatchEvent::Packet(2)), vec![2]);
    assert_eq!(batcher.mode(), BatchMode::Idle);
    assert!(batcher.handle(BatchEvent::Deadline).is_empty());
    assert!(batcher.handle(BatchEvent::Shutdown).is_empty());
    assert_eq!(batcher.mode(), BatchMode::Stopped);
    assert!(batcher.handle(BatchEvent::Packet(3)).is_empty());
}

#[test]
fn batching_mode_collects() {
    let mut batcher: TxBatcher<u32> = TxBatcher::new(1, 3);
    assert!(batcher.handle(BatchEvent::Packet(1)).is_empty());
    assert_eq!(batcher.mode(), BatchMode::Collecting);
    assert!(batcher.handle(BatchEvent::Packet(2)).is_empty());
    assert_eq!(batcher.handle(BatchEvent::Packet(3)), vec![1, 2, 3]);
    assert_eq!(batcher.mode(), BatchMode::Idle);
    assert!(batcher.handle(BatchEvent::Packet(4)).is_empty());
    assert_eq!(batcher.handle(BatchEvent::Deadline), vec![4]);
    assert!(batcher.handle(BatchEvent::Packet(5)).is_empty());
    // Shutdown waits for the batch that is being collected.
    assert!(batcher.handle(BatchEvent::Shutdown).is_empty());
    assert_eq!(batcher.mode(), BatchMode::Collecting);
    assert_eq!(batcher.handle(BatchEvent::Closed), vec![5]);
    assert_eq!(batcher.mode(), BatchMode::Idle);
    assert!(batcher.handle(BatchEvent::Closed).is_empty());
    assert_eq!(batcher.mode(), BatchMode::Stopped);
}

#[test]
fn batcher_never_loses_or_reorders() {
    for (low, high) in [(0, 0), (0, 1), (1, 1), (1, 4), (2, 4), (8, 256)] {
        let mut batcher: TxBatcher<u32> = TxBatcher::new(low, high);
        let mut flushed = Vec::new();
        for i in 0..50u32 {
            flushed.extend(batcher.handle(BatchEvent::Packet(i)));
            if i % 7 == 3 {
                flushed.extend(batcher.handle(BatchEvent::Deadline));
            }
        }
        flushed.extend(batcher.handle(BatchEvent::Closed));
        flushed.extend(batcher.handle(BatchEvent::Closed));
        assert_eq!(batcher.mode(), BatchMode::Stopped);
        assert_eq!(flushed, (0..50).collect::<Vec<u32>>());
    }
}

/// Writes a packet header and its data into a little-endian block.
fn put_packet(block: &mut [u8], at: usize, next: u32, snaplen: u32, mac: u16, net: u16) {
    block[at..at + 4].copy_from_slice(&next.to_le_bytes());
    block[at + 12..at + 16].copy_from_slice(&snaplen.to_le_bytes());
    block[at + 24..at + 26].copy_from_slice(&mac.to_le_bytes());
    block[at + 26..at + 28].copy_from_slice(&net.to_le_bytes());
}

fn put_desc(block: &mut [u8], num_pkts: u32, first: u32) {
    block[12..16].copy_from_slice(&num_pkts.to_le_bytes());
    block[16..20].copy_from_slice(&first.to_le_bytes());
}

#[test]
fn block_walk_finds_ip_data() {
    let mut block = vec![0u8; 1024];
    put_desc(&mut block, 3, 48);
    put_packet(&mut block, 48, 200, 54, 66, 80);
    // Nothing behind the link header: passed over.
    put_packet(&mut block, 248, 200, 14, 66, 80);
    put_packet(&mut block, 448, 0, 24, 66, 80);
    let packets = process_block(&block, false).unwrap();
    assert_eq!(packets, vec![(128, 40), (528, 10)]);
}

#[test]
fn block_walk_stops_at_the_last_header() {
    let mut block = vec![0u8; 1024];
    put_desc(&mut block, 9, 48);
    put_packet(&mut block, 48, 0, 54, 66, 80);
    let packets = process_block(&block, false).unwrap();
    assert_eq!(packets, vec![(128, 40)]);
    put_desc(&mut block, 0, 5000);
    assert!(process_block(&block, false).unwrap().is_empty());
}

#[test]
fn block_walk_rejects_what_leaves_the_block() {
    let mut block = vec![0u8; 256];
    put_desc(&mut block, 1, 240);
    assert!(process_block(&block, false).is_none());
    put_desc(&mut block, 1, 48);
    put_packet(&mut block, 48, 0, 1000, 66, 80);
    assert!(process_block(&block, false).is_none());
    put_packet(&mut block, 48, 0, 54, 80, 66);
    assert!(process_block(&block, false).is_none());
    put_packet(&mut block, 48, 5000, 54, 66, 80);
    assert_eq!(process_block(&block, false).unwrap(), vec![(128, 40)]);
    put_desc(&mut block, 2, 48);
    assert!(process_block(&block, false).is_none());
}

#[test]
fn block_walk_in_big_endian() {
    let mut block = vec![0u8; 256];
    block[12..16].copy_from_slice(&1u32.to_be_bytes());
    block[16..20].copy_from_slice(&48u32.to_be_bytes());
    block[48 + 12..48 + 16].copy_from_slice(&54u32.to_be_bytes());
    block[48 + 24..48 + 26].copy_from_slice(&66u16.to_be_bytes());
    block[48 + 26..48 + 28].copy_from_slice(&80u16.to_be_bytes());
    assert_eq!(process_block(&block, true).unwrap(), vec![(128, 40)]);
}

#[test]
fn ring_geometry() {
    let request = ring_request();
    assert_eq!(request.block_size, 262144);
    assert_eq!(request.block_nr, 16);
    assert_eq!(request.frame_size, 2048);
    assert_eq!(request.frame_nr, 2048);
    assert_eq!(request.retire_blk_tov, 1);
    assert_eq!(ring_size(), 4 * 1024 * 1024);
    assert_eq!(block_offset(15), 15 * 262144);
    assert_eq!(block_offset(BLOCK_NR - 1) + BLOCK_SIZE as usize, ring_size());
    assert!(block_ready(1) && block_ready(3) && !block_ready(0) && !block_ready(2));
    assert_eq!(next_block(0), 1);
    assert_eq!(next_block(15), 0);
}

#[test]
fn ring_reader_steps() {
    assert_eq!(ring_step(3, 0), RingStep::Wait);
    assert_eq!(ring_step(3, 2), RingStep::Wait);
    assert_eq!(ring_step(3, 1), RingStep::Walk { next: 4 });
    assert_eq!(ring_step(15, 5), RingStep::Walk { next: 0 });
}

#[test]
fn every_linked_packet_is_found() {
    let mut block = vec![0u8; 1024];
    put_desc(&mut block, 3, 48);
    put_packet(&mut block, 48, 200, 54, 66, 80);
    put_packet(&mut block, 248, 200, 15, 66, 80);
    put_packet(&mut block, 448, 200, 24, 66, 80);
    let packets = process_block(&block, false).unwrap();
    assert_eq!(packets, vec![(128, 40), (328, 1), (528, 10)]);
}
