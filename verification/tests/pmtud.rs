use eoip_rs::addr::{DemuxKey, IpAddr};
use eoip_rs::config::TunnelConfig;
use eoip_rs::net::pmtud::{
    apply_fallback, apply_path_mtu, finish_discovery, needs_fallback, probe_packet, probe_payload,
    probe_step, probe_target, PmtudError, PmtudSearch, ProbeEvent, ProbeStep, ProbeVerdict,
    MAX_PROBE, MIN_PROBE,
};
use eoip_rs::tunnel::handle::TunnelHandle;
use eoip_rs::tunnel::registry::TunnelRegistry;

fn config() -> TunnelConfig {
    TunnelConfig {
        tunnel_id: 1,
        local: IpAddr::V4(1),
        remote: IpAddr::V4(2),
        iface_name: None,
        mtu: 1458,
        enabled: true,
        keepalive_interval_secs: 10,
        keepalive_timeout_secs: 100,
    }
}

fn search(verdict: impl Fn(u16) -> ProbeVerdict) -> (Result<u16, PmtudError>, usize) {
    let mut search = PmtudSearch::new();
    let mut probes = 0;
    while let Some(size) = search.next_probe() {
        probes += 1;
        search.report(verdict(size));
    }
    (search.result(), probes)
}

fn up_to(limit: u16, size: u16) -> ProbeVerdict {
    if size <= limit {
        ProbeVerdict::Passes
    } else {
        ProbeVerdict::TooLong
    }
}

#[test]
fn search_finds_every_limit() {
    for limit in 0..1700u16 {
        let (found, probes) = search(|size| up_to(limit, size));
        let expected = if limit < MIN_PROBE {
            Err(PmtudError::AllTimedOut)
        } else {
            Ok(limit.min(MAX_PROBE))
        };
        assert_eq!(found, expected, "limit {limit}");
        assert!(probes <= 10);
    }
}

#[test]
fn minimum_probe_alone_is_enough() {
    assert_eq!(search(|size| up_to(576, size)).0, Ok(576));
    assert_eq!(search(|size| up_to(575, size)).0, Err(PmtudError::AllTimedOut));
}

#[test]
fn filtered_replies_still_find_the_limit() {
    for limit in MIN_PROBE..MAX_PROBE {
        let (found, _) = search(|size| match up_to(limit, size) {
            ProbeVerdict::Passes => ProbeVerdict::Unanswered,
            other => other,
        });
        assert_eq!(found, Ok(limit));
    }
}

#[test]
fn first_probe_is_the_middle() {
    let mut search = PmtudSearch::default();
    assert_eq!(search.next_probe(), Some(1038));
    search.report(ProbeVerdict::Passes);
    assert_eq!(search.next_probe(), Some(1269));
    search.report(ProbeVerdict::TooLong);
    assert_eq!(search.next_probe(), Some(1153));
}

#[test]
fn open_path_gives_the_maximum() {
    assert_eq!(search(|_| ProbeVerdict::Passes).0, Ok(1500));
    assert_eq!(search(|_| ProbeVerdict::TooLong).0, Err(PmtudError::AllTimedOut));
}

#[test]
fn odd_replies_still_give_a_size_that_passed() {
    let (found, _) = search(|size| up_to(0, size % 3));
    let size = found.unwrap();
    assert_eq!(size % 3, 0);
}

#[test]
fn blocked_path_falls_back() {
    let (found, _) = search(|_| ProbeVerdict::Unanswered);
    assert_eq!(found, Err(PmtudError::AllTimedOut));
    let key = DemuxKey { tunnel_id: 1, peer_addr: IpAddr::V4(2) };
    let mut registry = TunnelRegistry::new();
    registry.insert(key, TunnelHandle::new(config()));
    assert_eq!(finish_discovery(&mut registry, &key, found.ok(), Some(1420)), Some(1378));
    assert_eq!(registry.get(&key).unwrap().actual_mtu, 1378);
    // A later silence keeps what is in force.
    assert_eq!(finish_discovery(&mut registry, &key, found.ok(), Some(1500)), None);
    assert_eq!(registry.get(&key).unwrap().actual_mtu, 1378);
    assert_eq!(finish_discovery(&mut registry, &key, Some(1500), None), Some(1458));
    let other = DemuxKey { tunnel_id: 2, peer_addr: IpAddr::V4(2) };
    assert_eq!(finish_discovery(&mut registry, &other, Some(1500), None), None);
}

#[test]
fn probe_bytes_and_sizes() {
    assert_eq!(probe_payload(1500), 1472);
    assert_eq!(probe_payload(20), 0);
    let packet = probe_packet(1472, 2);
    assert_eq!(packet.len(), 1476);
    assert_eq!(&packet[..4], &[0x45, 0x00, 0x00, 0x02]);
    assert!(packet[4..].iter().all(|b| *b == 0));
    assert_eq!(&probe_packet(0, 0x1234)[..], &[0x45, 0x00, 0x12, 0x34]);
}

#[test]
fn probe_verdicts() {
    assert_eq!(probe_step(0, ProbeEvent::Reply), ProbeStep::Verdict(ProbeVerdict::Passes));
    assert_eq!(probe_step(0, ProbeEvent::SendTooLong), ProbeStep::Verdict(ProbeVerdict::TooLong));
    assert_eq!(probe_step(2, ProbeEvent::RecvTooLong), ProbeStep::Verdict(ProbeVerdict::TooLong));
    assert_eq!(probe_step(0, ProbeEvent::NoReply), ProbeStep::Retry(1));
    assert_eq!(probe_step(1, ProbeEvent::SendFailed), ProbeStep::Retry(2));
    assert_eq!(probe_step(2, ProbeEvent::NoReply), ProbeStep::Verdict(ProbeVerdict::Unanswered));
    assert_eq!(probe_step(2, ProbeEvent::SendFailed), ProbeStep::Verdict(ProbeVerdict::Unanswered));
}

#[test]
fn attempts_of_one_size() {
    let run = |events: [ProbeEvent; 3]| {
        let (mut attempt, mut packets) = (0, 0);
        loop {
            packets += 1;
            match probe_step(attempt, events[attempt as usize]) {
                ProbeStep::Verdict(verdict) => return (verdict, packets),
                ProbeStep::Retry(next) => attempt = next,
            }
        }
    };
    let (silent, failed) = (ProbeEvent::NoReply, ProbeEvent::SendFailed);
    assert_eq!(run([silent, failed, silent]), (ProbeVerdict::Unanswered, 3));
    assert_eq!(run([silent, ProbeEvent::Reply, ProbeEvent::RecvTooLong]), (ProbeVerdict::Passes, 2));
    assert_eq!(run([failed, silent, ProbeEvent::RecvTooLong]), (ProbeVerdict::TooLong, 3));
    assert_eq!(run([ProbeEvent::SendTooLong, silent, silent]), (ProbeVerdict::TooLong, 1));
}

#[test]
fn one_answer_is_enough() {
    let answered = |size: u16, at: u16| {
        if size == at {
            ProbeVerdict::Passes
        } else {
            ProbeVerdict::Unanswered
        }
    };
    assert_eq!(search(|size| answered(size, 1038)).0, Ok(1500));
    assert_eq!(search(|size| answered(size, 1500)).0, Ok(1500));
    // A size that is not probed answers nothing.
    assert_eq!(search(|size| answered(size, 600)).0, Err(PmtudError::AllTimedOut));
}

#[test]
fn only_ipv4_is_probed() {
    assert_eq!(probe_target(IpAddr::V4(7)), Ok(7));
    assert_eq!(probe_target(IpAddr::V6(7)), Err(PmtudError::Ipv6));
    assert_eq!(PmtudError::AllTimedOut.message(), "all probes timed out");
    assert_eq!(
        PmtudError::Ipv6.message(),
        "internal error: IPv6 PMTUD not yet implemented"
    );
}

#[test]
fn discovered_mtu_comes_into_force() {
    let mut handle = TunnelHandle::new(config());
    assert!(needs_fallback(&handle));
    assert_eq!(apply_path_mtu(&mut handle, 1500), Some(1458));
    assert_eq!(handle.actual_mtu, 1458);
    assert_eq!(apply_path_mtu(&mut handle, 1500), None);
    assert_eq!(apply_fallback(&mut handle, Some(1400)), None);
    assert_eq!(handle.actual_mtu, 1458);
    assert_eq!(apply_path_mtu(&mut handle, 600), Some(558));
    handle.actual_mtu = 0;
    assert_eq!(apply_fallback(&mut handle, Some(1420)), Some(1378));
    assert_eq!(handle.actual_mtu, 1378);
    handle.actual_mtu = 0;
    assert_eq!(apply_fallback(&mut handle, None), Some(1458));
}
