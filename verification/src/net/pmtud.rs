//! Path MTU Discovery (PMTUD) via ICMP probing.
//!
//! ICMP Echo Request packets with DF=1 (Don't Fragment) at varying sizes find
//! the maximum non-fragmenting packet size on the path to a remote peer, by
//! binary search. Sending them and waiting for the replies is the caller's;
//! which size is probed next, what a reply means and what follows from the
//! result is here.

use crate::addr::DemuxKey;
use crate::addr::IpAddr;
use crate::net::mtu::auto_overlay_mtu;
use crate::net::mtu::overlay_mtu;
use crate::net::mtu::overlay_of;
use crate::net::mtu::DEFAULT_OVERLAY_MTU;
use crate::net::mtu::MIN_OVERLAY_MTU;
use crate::tunnel::handle::TunnelHandle;
use crate::tunnel::registry::TunnelRegistry;
use vstd::prelude::*;
use vstd::string::*;

verus! {

/// Minimum probe size (IPv4 minimum MTU).
pub const MIN_PROBE: u16 = 576;

/// Maximum probe size (standard Ethernet MTU).
pub const MAX_PROBE: u16 = 1500;

/// Timeout per probe attempt, in seconds.
pub const PROBE_TIMEOUT_SECS: u64 = 2;

/// Number of retries per probe size.
pub const PROBE_RETRIES: u32 = 3;

/// Re-probe interval, in seconds (10 minutes).
pub const REPROBE_INTERVAL_SECS: u64 = 600;

/// IP and ICMP header in front of a probe's payload.
pub const PROBE_OVERHEAD: u16 = 28;

/// Why no path MTU was discovered.
#[derive(Debug, Clone, Copy, PartialEq, Eq, Structural)]
pub enum PmtudError {
    /// No probe was ever answered, so that ICMP is likely blocked, or even the
    /// minimum size is too long for the path.
    AllTimedOut,
    /// ICMPv6 is different and not probed.
    Ipv6,
}

impl PmtudError {
    /// The text of the error.
    pub fn message(&self) -> (text: String)
        ensures
            text@ == (match *self {
                PmtudError::AllTimedOut => "all probes timed out"@,
                PmtudError::Ipv6 => "internal error: IPv6 PMTUD not yet implemented"@,
            }),
    {
        match self {
            PmtudError::AllTimedOut => String::from_str("all probes timed out"),
            PmtudError::Ipv6 => String::from_str(
                "internal error: IPv6 PMTUD not yet implemented",
            ),
        }
    }
}

/// The address that probes go to. Only IPv4 for now.
pub fn probe_target(remote: IpAddr) -> (target: Result<u32, PmtudError>)
    ensures
        target == (match remote {
            IpAddr::V4(addr) => Ok::<u32, PmtudError>(addr),
            IpAddr::V6(_) => Err(PmtudError::Ipv6),
        }),
{
    match remote {
        IpAddr::V4(addr) => Ok(addr),
        IpAddr::V6(_) => Err(PmtudError::Ipv6),
    }
}

/// What the probes of one size told.
#[derive(Debug, Clone, Copy, PartialEq, Eq, Structural)]
pub enum ProbeVerdict {
    /// A reply came: the size passes.
    Passes,
    /// Word came that the size is too long for the path.
    TooLong,
    /// Nothing came. The size is taken to pass: the host may not respond to
    /// ICMP, and the search narrows down from above if larger sizes fail.
    Unanswered,
}

/// A binary search for the largest size that passes.
#[derive(Debug, Clone, Copy, PartialEq, Eq, Structural)]
pub struct PmtudSearch {
    /// Smallest size that is still in question.
    pub lo: u16,
    /// Largest size that is still in question.
    pub hi: u16,
    /// Largest size that passed or is taken to, `None` as long as there is none.
    pub best: Option<u16>,
    /// Some probe was answered, by a reply or by word that it is too long.
    pub answered: bool,
    /// No size is in question any more.
    pub done: bool,
}

/// The sizes in question, and the best one so far, are those that can be probed.
pub open spec fn search_wf(search: PmtudSearch) -> bool {
    &&& search.best matches Some(size) ==> MIN_PROBE <= size <= MAX_PROBE
    &&& search.done || MIN_PROBE <= search.lo <= search.hi <= MAX_PROBE
}

/// The search before the first probe.
pub open spec fn search_start() -> PmtudSearch {
    PmtudSearch { lo: MIN_PROBE, hi: MAX_PROBE, best: None, answered: false, done: false }
}

/// The size that is probed next: the middle of those in question.
pub open spec fn search_mid(search: PmtudSearch) -> u16 {
    (search.lo + (search.hi - search.lo) / 2) as u16
}

/// The search once the probes of the size in the middle have told something.
pub open spec fn search_step(search: PmtudSearch, verdict: ProbeVerdict) -> PmtudSearch {
    let mid = search_mid(search);
    let answered = search.answered || !(verdict is Unanswered);
    if search.done {
        search
    } else if verdict is TooLong {
        if mid == search.lo {
            PmtudSearch { answered, done: true, ..search }
        } else {
            PmtudSearch { answered, hi: (mid - 1) as u16, ..search }
        }
    } else if mid == search.hi {
        PmtudSearch { best: Some(mid), answered, done: true, ..search }
    } else {
        PmtudSearch { best: Some(mid), answered, lo: (mid + 1) as u16, ..search }
    }
}

/// What a search that has ended found: the largest size that passed, unless no
/// probe was ever answered or no size passed.
pub open spec fn search_result(search: PmtudSearch) -> Result<u16, PmtudError> {
    match search.best {
        Some(size) if search.answered => Ok(size),
        _ => Err(PmtudError::AllTimedOut),
    }
}

impl PmtudSearch {
    pub fn new() -> (search: Self)
        ensures
            search == search_start(),
            search_wf(search),
    {
        PmtudSearch { lo: MIN_PROBE, hi: MAX_PROBE, best: None, answered: false, done: false }
    }

    /// The size to probe next, `None` if the search has ended.
    pub fn next_probe(&self) -> (size: Option<u16>)
        requires
            search_wf(*self),
        ensures
            size == (if self.done {
                None
            } else {
                Some(search_mid(*self))
            }),
            size matches Some(s) ==> self.lo <= s <= self.hi,
    {
        if self.done {
            None
        } else {
            Some(self.lo + (self.hi - self.lo) / 2)
        }
    }

    /// Take note of what the probes of the size told.
    pub fn report(&mut self, verdict: ProbeVerdict)
        requires
            search_wf(*old(self)),
        ensures
            *final(self) == search_step(*old(self), verdict),
            search_wf(*final(self)),
    {
        if let Some(mid) = self.next_probe() {
            if verdict != ProbeVerdict::Unanswered {
                self.answered = true;
            }
            if verdict == ProbeVerdict::TooLong {
                if mid == self.lo {
                    self.done = true;
                } else {
                    self.hi = mid - 1;
                }
            } else {
                self.best = Some(mid);
                if mid == self.hi {
                    self.done = true;
                } else {
                    self.lo = mid + 1;
                }
            }
        }
    }

    /// The path MTU that the search found.
    pub fn result(&self) -> (path_mtu: Result<u16, PmtudError>)
        ensures
            path_mtu == search_result(*self),
    {
        match self.best {
            Some(size) => if self.answered {
                Ok(size)
            } else {
                Err(PmtudError::AllTimedOut)
            },
            None => Err(PmtudError::AllTimedOut),
        }
    }
}

impl Default for PmtudSearch {
    fn default() -> (search: Self)
        ensures
            search == search_start(),
            search_wf(search),
    {
        PmtudSearch::new()
    }
}

/// How a search ends if `verdicts` says what the probes of each size tell.
pub open spec fn search_end(
    search: PmtudSearch,
    verdicts: spec_fn(u16) -> ProbeVerdict,
) -> PmtudSearch
    decreases search_measure(search),
    when search_wf(search)
{
    if search.done {
        search
    } else {
        search_end(search_step(search, verdicts(search_mid(search))), verdicts)
    }
}

/// How many sizes are in question.
pub open spec fn search_measure(search: PmtudSearch) -> nat {
    if search.done {
        0
    } else {
        (search.hi - search.lo + 1) as nat
    }
}

/// The sizes that a search probes, in order, if `verdicts` says what the probes of
/// each tell.
pub open spec fn search_sizes(
    search: PmtudSearch,
    verdicts: spec_fn(u16) -> ProbeVerdict,
) -> Seq<u16>
    decreases search_measure(search),
    when search_wf(search)
{
    if search.done {
        Seq::empty()
    } else {
        seq![search_mid(search)] + search_sizes(
            search_step(search, verdicts(search_mid(search))),
            verdicts,
        )
    }
}

/// Whether a search probes a size for which an answer comes.
pub open spec fn gets_answer(search: PmtudSearch, verdicts: spec_fn(u16) -> ProbeVerdict) -> bool {
    exists|i: int|
        0 <= i < search_sizes(search, verdicts).len() && !(verdicts(
            #[trigger] search_sizes(search, verdicts)[i],
        ) is Unanswered)
}

/// On a path that refuses the sizes above a limit and no others, the search
/// finds the limit, be it the minimum, whether or not replies to the smaller
/// probes come back. A path that refuses even the minimum counts as unknown. One
/// that lets every size pass has the maximum if any probe is answered, and counts
/// as unknown if none is.
pub proof fn law_search_finds_limit(limit: int, verdicts: spec_fn(u16) -> ProbeVerdict)
    requires
        forall|size: u16| (#[trigger] verdicts(size) is TooLong) <==> size > limit,
    ensures
        limit < MIN_PROBE ==> search_result(search_end(search_start(), verdicts)) == Err::<
            u16,
            PmtudError,
        >(PmtudError::AllTimedOut),
        MIN_PROBE <= limit < MAX_PROBE ==> search_result(search_end(search_start(), verdicts))
            == Ok::<u16, PmtudError>(limit as u16),
        limit >= MAX_PROBE ==> search_result(search_end(search_start(), verdicts)) == (
        if search_end(search_start(), verdicts).answered {
            Ok::<u16, PmtudError>(MAX_PROBE)
        } else {
            Err(PmtudError::AllTimedOut)
        }),
        search_end(search_start(), verdicts).answered <==> gets_answer(search_start(), verdicts),
{
    lemma_search_finds_limit(search_start(), limit, verdicts);
    law_search_knows_of_answers(verdicts);
}

proof fn lemma_search_finds_limit(
    search: PmtudSearch,
    limit: int,
    verdicts: spec_fn(u16) -> ProbeVerdict,
)
    requires
        forall|size: u16| (#[trigger] verdicts(size) is TooLong) <==> size > limit,
        search_wf(search),
        !search.done,
        search.best is None && search.lo == MIN_PROBE || search.best == Some(
            (search.lo - 1) as u16,
        ) && search.lo - 1 <= limit,
        search.hi == MAX_PROBE || limit <= search.hi && search.answered,
    ensures
        ({
            let end = search_end(search, verdicts);
            &&& limit < MIN_PROBE ==> end.best is None
            &&& MIN_PROBE <= limit < MAX_PROBE ==> end.best == Some(limit as u16) && end.answered
            &&& limit >= MAX_PROBE ==> end.best == Some(MAX_PROBE)
        }),
    decreases search_measure(search),
{
    let next = search_step(search, verdicts(search_mid(search)));
    assert(search_end(search, verdicts) == search_end(next, verdicts));
    if !next.done {
        lemma_search_finds_limit(next, limit, verdicts);
    }
}

/// A search that has ended knows whether any of its probes was answered.
pub proof fn law_search_knows_of_answers(verdicts: spec_fn(u16) -> ProbeVerdict)
    ensures
        search_end(search_start(), verdicts).answered <==> gets_answer(search_start(), verdicts),
{
    lemma_search_knows_of_answers(search_start(), verdicts);
}

proof fn lemma_search_knows_of_answers(search: PmtudSearch, verdicts: spec_fn(u16) -> ProbeVerdict)
    requires
        search_wf(search),
    ensures
        search_end(search, verdicts).answered <==> search.answered || gets_answer(
            search,
            verdicts,
        ),
    decreases search_measure(search),
{
    if !search.done {
        let next = search_step(search, verdicts(search_mid(search)));
        let sizes = search_sizes(search, verdicts);
        let rest = search_sizes(next, verdicts);
        lemma_search_knows_of_answers(next, verdicts);
        assert(sizes =~= seq![search_mid(search)] + rest);
        assert(sizes[0] == search_mid(search));
        if gets_answer(next, verdicts) {
            let i = choose|i: int|
                0 <= i < rest.len() && !(verdicts(#[trigger] rest[i]) is Unanswered);
            assert(sizes[i + 1] == rest[i]);
        }
        if gets_answer(search, verdicts) {
            let i = choose|i: int|
                0 <= i < sizes.len() && !(verdicts(#[trigger] sizes[i]) is Unanswered);
            if i > 0 {
                assert(rest[i - 1] == sizes[i]);
            }
        }
    }
}

/// If no probe is ever answered, no path MTU is found.
pub proof fn law_silent_path_is_unknown(verdicts: spec_fn(u16) -> ProbeVerdict)
    requires
        forall|size: u16| #[trigger] verdicts(size) is Unanswered,
    ensures
        search_result(search_end(search_start(), verdicts)) == Err::<u16, PmtudError>(
            PmtudError::AllTimedOut,
        ),
{
    law_search_knows_of_answers(verdicts);
}

/// Whatever the probes tell, a path MTU that the search finds is a size that can
/// be probed and was not refused.
pub proof fn law_found_size_passed(verdicts: spec_fn(u16) -> ProbeVerdict)
    ensures
        search_result(search_end(search_start(), verdicts)) matches Ok(size) ==> !(verdicts(
            size,
        ) is TooLong) && MIN_PROBE <= size <= MAX_PROBE,
{
    lemma_found_size_passed(search_start(), verdicts);
}

proof fn lemma_found_size_passed(search: PmtudSearch, verdicts: spec_fn(u16) -> ProbeVerdict)
    requires
        search_wf(search),
        search.best matches Some(size) ==> !(verdicts(size) is TooLong),
    ensures
        search_end(search, verdicts).best matches Some(size) ==> !(verdicts(size) is TooLong),
        search_wf(search_end(search, verdicts)),
    decreases search_measure(search),
{
    if !search.done {
        lemma_found_size_passed(search_step(search, verdicts(search_mid(search))), verdicts);
    }
}

/// A search probes at most ten sizes.
pub proof fn law_search_is_short(verdicts: spec_fn(u16) -> ProbeVerdict)
    ensures
        search_sizes(search_start(), verdicts).len() <= 10,
{
    reveal_with_fuel(power_of_two, 11);
    lemma_search_is_short(search_start(), verdicts, 10);
}

spec fn power_of_two(n: nat) -> nat
    decreases n,
{
    if n == 0 {
        1
    } else {
        2 * power_of_two((n - 1) as nat)
    }
}

proof fn lemma_search_is_short(
    search: PmtudSearch,
    verdicts: spec_fn(u16) -> ProbeVerdict,
    bound: nat,
)
    requires
        search_wf(search),
        search_measure(search) < power_of_two(bound),
    ensures
        search_sizes(search, verdicts).len() <= bound,
    decreases bound,
{
    if !search.done && bound > 0 {
        lemma_search_is_short(
            search_step(search, verdicts(search_mid(search))),
            verdicts,
            (bound - 1) as nat,
        );
    }
}

/// How many bytes of payload make a packet of the probed size.
pub fn probe_payload(size: u16) -> (payload: u16)
    ensures
        payload == (if size < PROBE_OVERHEAD {
            0
        } else {
            size - PROBE_OVERHEAD
        }),
{
    size.saturating_sub(PROBE_OVERHEAD)
}

/// The bytes of a probe: identifier, sequence number, and zeros.
pub open spec fn probe_bytes(payload: u16, attempt: u32) -> Seq<u8> {
    Seq::new(
        4 + payload as nat,
        |i: int|
            if i == 0 {
                0x45u8
            } else if i == 2 {
                ((attempt / 256) % 256) as u8
            } else if i == 3 {
                (attempt % 256) as u8
            } else {
                0u8
            },
    )
}

/// The bytes of a probe. The sequence number varies per retry to avoid caching.
pub fn probe_packet(payload: u16, attempt: u32) -> (bytes: Vec<u8>)
    ensures
        bytes@ == probe_bytes(payload, attempt),
{
    let mut bytes: Vec<u8> = vec![0u8; 4 + payload as usize];
    bytes.set(0, 0x45);
    bytes.set(2, ((attempt / 256) % 256) as u8);
    bytes.set(3, (attempt % 256) as u8);
    assert(bytes@ =~= probe_bytes(payload, attempt));
    bytes
}

/// How one attempt to probe a size ended.
#[derive(Debug, Clone, Copy, PartialEq, Eq, Structural)]
pub enum ProbeEvent {
    /// The probe could not be sent, because it is too long for the path.
    SendTooLong,
    /// The probe could not be sent for another reason.
    SendFailed,
    /// A reply came.
    Reply,
    /// Instead of a reply came word that the probe is too long for the path.
    RecvTooLong,
    /// No reply came in time.
    NoReply,
}

/// What follows from an attempt to probe a size.
#[derive(Debug, Clone, Copy, PartialEq, Eq, Structural)]
pub enum ProbeStep {
    /// This is what the probes of the size told.
    Verdict(ProbeVerdict),
    /// Try again, with this attempt's number.
    Retry(u32),
}

/// What an attempt tells, `Unanswered` if it settles nothing.
pub open spec fn event_verdict(event: ProbeEvent) -> ProbeVerdict {
    match event {
        ProbeEvent::SendTooLong => ProbeVerdict::TooLong,
        ProbeEvent::RecvTooLong => ProbeVerdict::TooLong,
        ProbeEvent::Reply => ProbeVerdict::Passes,
        ProbeEvent::SendFailed => ProbeVerdict::Unanswered,
        ProbeEvent::NoReply => ProbeVerdict::Unanswered,
    }
}

/// What follows from attempt number `attempt`: one that settles nothing is
/// repeated, as long as there are attempts left.
pub open spec fn step_after(attempt: u32, event: ProbeEvent) -> ProbeStep {
    if event_verdict(event) is Unanswered && attempt + 1 < PROBE_RETRIES {
        ProbeStep::Retry((attempt + 1) as u32)
    } else {
        ProbeStep::Verdict(event_verdict(event))
    }
}

/// What follows from attempt number `attempt`: one that settles nothing is
/// repeated, as long as there are attempts left.
pub fn probe_step(attempt: u32, event: ProbeEvent) -> (step: ProbeStep)
    requires
        attempt < PROBE_RETRIES,
    ensures
        step == step_after(attempt, event),
{
    match event {
        ProbeEvent::SendTooLong => ProbeStep::Verdict(ProbeVerdict::TooLong),
        ProbeEvent::RecvTooLong => ProbeStep::Verdict(ProbeVerdict::TooLong),
        ProbeEvent::Reply => ProbeStep::Verdict(ProbeVerdict::Passes),
        _ => if attempt + 1 < PROBE_RETRIES {
            ProbeStep::Retry(attempt + 1)
        } else {
            ProbeStep::Verdict(ProbeVerdict::Unanswered)
        },
    }
}

/// What the attempts from number `attempt` on tell of a size: the first one that
/// settles something, if one does before the attempts run out.
pub open spec fn verdict_from(events: Seq<ProbeEvent>, attempt: int) -> ProbeVerdict
    decreases PROBE_RETRIES - attempt,
{
    if attempt < 0 || attempt >= PROBE_RETRIES || attempt >= events.len() {
        ProbeVerdict::Unanswered
    } else if !(event_verdict(events[attempt]) is Unanswered) {
        event_verdict(events[attempt])
    } else {
        verdict_from(events, attempt + 1)
    }
}

/// What all attempts of one size tell, `events` saying how each of them ends.
pub open spec fn size_verdict(events: Seq<ProbeEvent>) -> ProbeVerdict {
    verdict_from(events, 0)
}

/// What stepping from attempt number `attempt` to a verdict gives, and how many
/// packets it takes, `events` saying how each attempt ends.
pub open spec fn run_probes(events: Seq<ProbeEvent>, attempt: u32) -> (ProbeVerdict, nat)
    decreases PROBE_RETRIES - attempt,
{
    match step_after(attempt, events[attempt as int]) {
        ProbeStep::Verdict(verdict) => (verdict, 1),
        ProbeStep::Retry(next) => {
            let rest = run_probes(events, next);
            (rest.0, rest.1 + 1)
        },
    }
}

/// Stepping from the first attempt on gives the first answer that comes within
/// the attempts that there are, or that none came, and takes no more packets than
/// that.
pub proof fn law_size_verdict(events: Seq<ProbeEvent>)
    requires
        events.len() >= PROBE_RETRIES,
    ensures
        run_probes(events, 0).0 == size_verdict(events),
        1 <= run_probes(events, 0).1 <= PROBE_RETRIES,
        size_verdict(events) is Unanswered <==> forall|i: int|
            0 <= i < PROBE_RETRIES ==> event_verdict(#[trigger] events[i]) is Unanswered,
{
    lemma_size_verdict(events, 0);
}

proof fn lemma_size_verdict(events: Seq<ProbeEvent>, attempt: u32)
    requires
        events.len() >= PROBE_RETRIES,
        attempt < PROBE_RETRIES,
    ensures
        run_probes(events, attempt).0 == verdict_from(events, attempt as int),
        1 <= run_probes(events, attempt).1 <= PROBE_RETRIES - attempt,
        verdict_from(events, attempt as int) is Unanswered <==> forall|i: int|
            attempt <= i < PROBE_RETRIES ==> event_verdict(#[trigger] events[i]) is Unanswered,
    decreases PROBE_RETRIES - attempt,
{
    if attempt + 1 < PROBE_RETRIES {
        lemma_size_verdict(events, (attempt + 1) as u32);
    } else {
        assert(verdict_from(events, attempt + 1) is Unanswered);
    }
}

/// Put a discovered path MTU into force. Returns the overlay MTU if it is
/// another than before.
pub fn apply_path_mtu(handle: &mut TunnelHandle, path_mtu: u16) -> (changed: Option<u16>)
    ensures
        *final(handle) == (TunnelHandle { actual_mtu: overlay_of(path_mtu), ..*old(handle) }),
        changed == (if old(handle).actual_mtu != overlay_of(path_mtu) {
            Some(overlay_of(path_mtu))
        } else {
            None
        }),
{
    let overlay: u16 = overlay_mtu(path_mtu);
    let previous: u16 = handle.actual_mtu;
    handle.actual_mtu = overlay;
    if previous != overlay {
        Some(overlay)
    } else {
        None
    }
}

/// Whether a failed discovery leaves a tunnel without an MTU.
pub fn needs_fallback(handle: &TunnelHandle) -> (needed: bool)
    ensures
        needed == (handle.actual_mtu == 0),
{
    handle.actual_mtu == 0
}

/// After a failed discovery: keep the MTU in force, or fall back to what
/// interface detection found if there never was one. Returns the overlay MTU
/// if it was put into force.
pub fn apply_fallback(handle: &mut TunnelHandle, detected: Option<u16>) -> (changed: Option<u16>)
    ensures
        ({
            let fallback = match detected {
                Some(mtu) => overlay_of(mtu),
                None => DEFAULT_OVERLAY_MTU,
            };
            if old(handle).actual_mtu == 0 {
                &&& *final(handle) == (TunnelHandle { actual_mtu: fallback, ..*old(handle) })
                &&& changed == Some(fallback)
            } else {
                &&& *final(handle) == *old(handle)
                &&& changed is None
            }
        }),
{
    if needs_fallback(handle) {
        let fallback: u16 = auto_overlay_mtu(detected);
        handle.actual_mtu = fallback;
        Some(fallback)
    } else {
        None
    }
}

/// Take the result of a discovery for a registered tunnel: put a path MTU that
/// was found into force, or fall back if none was and there never was one.
/// Returns the overlay MTU if it is another than before; `None` too if there is
/// no such tunnel. `found` is the path MTU that was discovered, `detected` what
/// interface detection found.
pub fn finish_discovery(
    registry: &mut TunnelRegistry,
    key: &DemuxKey,
    found: Option<u16>,
    detected: Option<u16>,
) -> (changed: Option<u16>)
    requires
        old(registry).wf(),
    ensures
        final(registry).wf(),
        old(registry)@.dom().contains(key@) ==> ({
            let before = old(registry)@[key@];
            let mtu = mtu_after_discovery(before.actual_mtu, found, detected);
            &&& final(registry)@ == old(registry)@.insert(
                key@,
                TunnelHandle { actual_mtu: mtu, ..before },
            )
            &&& changed == (if mtu != before.actual_mtu {
                Some(mtu)
            } else {
                None
            })
        }),
        !old(registry)@.dom().contains(key@) ==> changed is None && final(registry)@ == old(
            registry,
        )@,
{
    match registry.remove(key) {
        Some((_, mut handle)) => {
            let changed = match found {
                Some(path_mtu) => apply_path_mtu(&mut handle, path_mtu),
                None => apply_fallback(&mut handle, detected),
            };
            let _ = registry.insert(*key, handle);
            assert(registry@ =~= old(registry)@.insert(key@, registry@[key@]));
            changed
        },
        None => {
            assert(registry@ =~= old(registry)@);
            None
        },
    }
}

/// The overlay MTU in force after a discovery.
pub open spec fn mtu_after_discovery(
    current: u16,
    found: Option<u16>,
    detected: Option<u16>,
) -> u16 {
    match found {
        Some(path_mtu) => overlay_of(path_mtu),
        None => if current == 0 {
            match detected {
                Some(mtu) => overlay_of(mtu),
                None => DEFAULT_OVERLAY_MTU,
            }
        } else {
            current
        },
    }
}

/// After its first discovery a tunnel has an overlay MTU in force, whether or
/// not a path MTU was found, and it is at least the minimum; a later discovery
/// that fails keeps it.
pub proof fn law_tunnel_always_gets_mtu(
    found: Option<u16>,
    again: Option<u16>,
    detected: Option<u16>,
)
    ensures
        mtu_after_discovery(0, found, detected) >= MIN_OVERLAY_MTU,
        again is None ==> mtu_after_discovery(
            mtu_after_discovery(0, found, detected),
            again,
            detected,
        ) == mtu_after_discovery(0, found, detected),
{
}

/// The path MTU that a search found, if it found one.
pub open spec fn found_mtu(result: Result<u16, PmtudError>) -> Option<u16> {
    match result {
        Ok(path_mtu) => Some(path_mtu),
        Err(_) => None,
    }
}

/// Where ICMP is blocked, so that no probe is ever answered, a tunnel without an
/// MTU gets the one that interface detection gives, and a tunnel with one keeps
/// it.
pub proof fn law_blocked_path_falls_back(
    verdicts: spec_fn(u16) -> ProbeVerdict,
    current: u16,
    detected: Option<u16>,
)
    requires
        forall|size: u16| #[trigger] verdicts(size) is Unanswered,
    ensures
        ({
            let found = found_mtu(search_result(search_end(search_start(), verdicts)));
            mtu_after_discovery(current, found, detected) == (if current != 0 {
                current
            } else {
                match detected {
                    Some(mtu) => overlay_of(mtu),
                    None => DEFAULT_OVERLAY_MTU,
                }
            })
        }),
{
    law_silent_path_is_unknown(verdicts);
}

/// A path MTU that was found is always put into force, be it larger or smaller
/// than what was there: the overlay MTU is then the path MTU less 42 bytes, or 534
/// if that is more. If none was found, an MTU that is in force stays.
pub proof fn law_found_mtu_is_in_force(current: u16, path_mtu: u16, detected: Option<u16>)
    ensures
        path_mtu >= 576 ==> mtu_after_discovery(current, Some(path_mtu), detected) == path_mtu - 42,
        path_mtu < 576 ==> mtu_after_discovery(current, Some(path_mtu), detected) == 534,
        mtu_after_discovery(current, Some(path_mtu), detected) == overlay_of(path_mtu),
        current != 0 ==> mtu_after_discovery(current, None, detected) == current,
        detected is None ==> mtu_after_discovery(0, None, detected) == 1458,
        detected matches Some(mtu) ==> mtu_after_discovery(0, None, detected)
            == mtu_after_discovery(0, Some(mtu), None),
{
}

/// What was in force before makes no difference to a discovery that finds a path
/// MTU, and what interface detection finds makes none either.
pub proof fn law_discovery_forgets_the_past(
    a: u16,
    b: u16,
    path_mtu: u16,
    detected_a: Option<u16>,
    detected_b: Option<u16>,
)
    ensures
        mtu_after_discovery(a, Some(path_mtu), detected_a) == mtu_after_discovery(
            b,
            Some(path_mtu),
            detected_b,
        ),
{
}

/// A search that has ended gives its best size if any probe was answered and any
/// size passed; else it gives none.
pub proof fn law_search_result(search: PmtudSearch)
    ensures
        search.answered && search.best is Some ==> search_result(search) == Ok::<u16, PmtudError>(
            search.best->0,
        ),
        !search.answered || search.best is None ==> search_result(search) == Err::<
            u16,
            PmtudError,
        >(PmtudError::AllTimedOut),
        found_mtu(search_result(search)) == (if search.answered {
            search.best
        } else {
            None
        }),
{
}

/// A reply shows that a size passes, and word that it is too long, be it at sending
/// or after it, that it does not; silence and other failures show nothing.
pub proof fn law_event_verdict(event: ProbeEvent)
    ensures
        event_verdict(event) is Passes <==> event is Reply,
        event_verdict(event) is TooLong <==> event is SendTooLong || event is RecvTooLong,
        event_verdict(event) is Unanswered <==> event is SendFailed || event is NoReply,
{
}

/// Of three attempts, the first one that shows something counts.
pub proof fn law_first_answer_counts(a: ProbeEvent, b: ProbeEvent, c: ProbeEvent)
    ensures
        ({
            let verdict = size_verdict(seq![a, b, c]);
            let silent = |event: ProbeEvent| event is SendFailed || event is NoReply;
            &&& !silent(a) ==> verdict == event_verdict(a)
            &&& silent(a) && !silent(b) ==> verdict == event_verdict(b)
            &&& silent(a) && silent(b) ==> verdict == event_verdict(c)
        }),
{
    reveal_with_fuel(verdict_from, 4);
    let events = seq![a, b, c];
    assert(events[0] == a && events[1] == b && events[2] == c);
}

/// A probe has an identifier, the number of the attempt and as many zeros as it is
/// asked for; probes of different attempts differ.
pub proof fn law_probe_bytes(payload: u16, attempt: u32, other: u32)
    ensures
        probe_bytes(payload, attempt).len() == 4 + payload,
        probe_bytes(payload, attempt)[0] == 0x45,
        probe_bytes(payload, attempt)[1] == 0,
        attempt < 0x1_0000 ==> probe_bytes(payload, attempt)[2] * 256 + probe_bytes(
            payload,
            attempt,
        )[3] == attempt,
        forall|i: int|
            4 <= i < 4 + payload ==> #[trigger] probe_bytes(payload, attempt)[i] == 0,
        attempt < other < 0x1_0000 ==> probe_bytes(payload, attempt) != probe_bytes(payload, other),
{
    let x = probe_bytes(payload, attempt);
    let y = probe_bytes(payload, other);
    assert(x[2] == ((attempt / 256) % 256) as u8 && x[3] == (attempt % 256) as u8);
    assert(y[2] == ((other / 256) % 256) as u8 && y[3] == (other % 256) as u8);
}

} // verus!
