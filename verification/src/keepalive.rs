//! Keepalive state machine: detect stale tunnels when no packets are received
//! within the timeout.
//!
//! - **Active**: Sending keepalives, receiving packets normally.
//! - **Stale**: Keepalive timeout expired. TX suspended, RX still active for recovery.
//! - Back to **Active** when RX resumes.

use crate::addr::DemuxKey;
use crate::tunnel::handle::same_but_state;
use crate::tunnel::handle::TunnelHandle;
use crate::tunnel::lifecycle::TunnelState;
use crate::tunnel::registry::TunnelRegistry;
use vstd::prelude::*;

verus! {

/// What a keepalive check found.
#[derive(Debug, Clone, Copy, PartialEq, Eq, Structural)]
pub enum KeepaliveChange {
    Unchanged,
    /// The tunnel went stale, after this many whole seconds of silence.
    WentStale { elapsed_secs: u64 },
    /// Packets came again.
    Recovered,
}

/// How long nothing was received, in milliseconds.
pub open spec fn silence_ms(last_rx_ms: i64, now_ms: i64) -> int {
    if now_ms < last_rx_ms {
        0
    } else {
        now_ms - last_rx_ms
    }
}

/// Whether the peer counts as gone: something was received once, but nothing
/// for longer than the timeout.
pub open spec fn timed_out(last_rx_ms: i64, now_ms: i64, timeout_secs: u64) -> bool {
    last_rx_ms > 0 && silence_ms(last_rx_ms, now_ms) > timeout_secs * 1000
}

/// The state of a tunnel after its keepalive check.
pub open spec fn state_after_check(
    state: TunnelState,
    last_rx_ms: i64,
    now_ms: i64,
    timeout_secs: u64,
) -> TunnelState {
    if state is Active && timed_out(last_rx_ms, now_ms, timeout_secs) {
        TunnelState::Stale
    } else if state is Stale && last_rx_ms > 0 && !timed_out(last_rx_ms, now_ms, timeout_secs) {
        TunnelState::Active
    } else {
        state
    }
}

/// What a keepalive check at `now_ms` makes of a handle, and what it reports.
pub open spec fn keepalive_checked(
    before: TunnelHandle,
    after: TunnelHandle,
    now_ms: i64,
    change: KeepaliveChange,
) -> bool {
    &&& same_but_state(after, before)
    &&& after.state@ == state_after_check(
        before.state@,
        before.stats.last_rx_timestamp,
        now_ms,
        before.config.keepalive_timeout_secs,
    )
    &&& change == (if after.state@ == before.state@ {
        KeepaliveChange::Unchanged
    } else if after.state@ is Active {
        KeepaliveChange::Recovered
    } else {
        KeepaliveChange::WentStale {
            elapsed_secs: (silence_ms(before.stats.last_rx_timestamp, now_ms) / 1000) as u64,
        }
    })
}

/// Check whether a tunnel has gone stale or has recovered.
pub fn check_keepalive(handle: &mut TunnelHandle, now_ms: i64) -> (change: KeepaliveChange)
    ensures
        keepalive_checked(*old(handle), *final(handle), now_ms, change),
{
    let last_rx_ms: i64 = handle.stats.last_rx_timestamp;
    if last_rx_ms <= 0 {
        return KeepaliveChange::Unchanged;
    }
    let elapsed_ms: u64 = if now_ms < last_rx_ms {
        0
    } else {
        (now_ms - last_rx_ms) as u64
    };
    let timeout_ms: u128 = handle.config.keepalive_timeout_secs as u128 * 1000;
    let current = handle.state.load();
    if elapsed_ms as u128 > timeout_ms && current == TunnelState::Active {
        let _ = handle.state.transition(TunnelState::Active, TunnelState::Stale);
        KeepaliveChange::WentStale { elapsed_secs: elapsed_ms / 1000 }
    } else if elapsed_ms as u128 <= timeout_ms && current == TunnelState::Stale {
        // Recovery: RX resumed
        let _ = handle.state.transition(TunnelState::Stale, TunnelState::Active);
        KeepaliveChange::Recovered
    } else {
        KeepaliveChange::Unchanged
    }
}

/// Check whether a registered tunnel has gone stale or has recovered. `None` if
/// there is no such tunnel.
pub fn check_tunnel(registry: &mut TunnelRegistry, key: &DemuxKey, now_ms: i64) -> (change: Option<
    KeepaliveChange,
>)
    requires
        old(registry).wf(),
    ensures
        final(registry).wf(),
        change is Some <==> old(registry)@.dom().contains(key@),
        change matches Some(c) ==> {
            &&& final(registry)@ == old(registry)@.insert(key@, final(registry)@[key@])
            &&& keepalive_checked(old(registry)@[key@], final(registry)@[key@], now_ms, c)
        },
        change is None ==> final(registry)@ == old(registry)@,
{
    match registry.remove(key) {
        Some((_, mut handle)) => {
            let change = check_keepalive(&mut handle, now_ms);
            let _ = registry.insert(*key, handle);
            assert(registry@ =~= old(registry)@.insert(key@, registry@[key@]));
            Some(change)
        },
        None => {
            assert(registry@ =~= old(registry)@);
            None
        },
    }
}

/// A tunnel that goes stale comes back with the first check after a packet is
/// received, as long as the check is not later than the timeout.
pub proof fn law_stale_tunnel_recovers(
    rx_ms: i64,
    check_ms: i64,
    timeout_secs: u64,
)
    requires
        rx_ms > 0,
        check_ms <= rx_ms + timeout_secs * 1000,
    ensures
        state_after_check(TunnelState::Stale, rx_ms, check_ms, timeout_secs) is Active,
{
}

/// A check only moves a tunnel between active and stale.
pub proof fn law_check_leaves_other_states(
    state: TunnelState,
    last_rx_ms: i64,
    now_ms: i64,
    timeout_secs: u64,
)
    requires
        !(state is Active),
        !(state is Stale),
    ensures
        state_after_check(state, last_rx_ms, now_ms, timeout_secs) == state,
{
}

/// A second check at the same time changes nothing, and a tunnel that has not
/// received anything yet never goes stale.
pub proof fn law_check_is_stable(
    state: TunnelState,
    last_rx_ms: i64,
    now_ms: i64,
    timeout_secs: u64,
)
    ensures
        ({
            let after = state_after_check(state, last_rx_ms, now_ms, timeout_secs);
            state_after_check(after, last_rx_ms, now_ms, timeout_secs) == after
        }),
        last_rx_ms <= 0 ==> state_after_check(state, last_rx_ms, now_ms, timeout_secs) == state,
{
}

/// An active tunnel goes stale exactly if something was received once, but
/// nothing for longer than its own timeout, whatever that timeout is; a stale one
/// comes back exactly if something was received within it.
pub proof fn law_stale_after_timeout(last_rx_ms: i64, now_ms: i64, timeout_secs: u64)
    ensures
        last_rx_ms > 0 && now_ms - last_rx_ms > timeout_secs * 1000 ==> state_after_check(
            TunnelState::Active,
            last_rx_ms,
            now_ms,
            timeout_secs,
        ) is Stale,
        !(last_rx_ms > 0 && now_ms - last_rx_ms > timeout_secs * 1000) ==> state_after_check(
            TunnelState::Active,
            last_rx_ms,
            now_ms,
            timeout_secs,
        ) is Active,
        last_rx_ms > 0 && now_ms - last_rx_ms <= timeout_secs * 1000 ==> state_after_check(
            TunnelState::Stale,
            last_rx_ms,
            now_ms,
            timeout_secs,
        ) is Active,
        !(last_rx_ms > 0 && now_ms - last_rx_ms <= timeout_secs * 1000) ==> state_after_check(
            TunnelState::Stale,
            last_rx_ms,
            now_ms,
            timeout_secs,
        ) is Stale,
{
}

/// What a check does to a tunnel and reports: an active one that was silent for
/// longer than the timeout it was configured with is stale from then on, which is
/// reported with the whole seconds of silence; a stale one that is heard of again
/// is active, which is reported as recovery; else nothing changes. Nothing but the
/// state is ever touched.
pub proof fn law_check_reports_what_it_does(
    before: TunnelHandle,
    after: TunnelHandle,
    now_ms: i64,
    change: KeepaliveChange,
)
    requires
        keepalive_checked(before, after, now_ms, change),
    ensures
        ({
            let heard = before.stats.last_rx_timestamp;
            let silent = now_ms - heard > before.config.keepalive_timeout_secs * 1000;
            &&& after.config == before.config
            &&& after.stats == before.stats
            &&& after.actual_mtu == before.actual_mtu
            &&& after.rx_channel == before.rx_channel
            &&& after.rx_receiver == before.rx_receiver
            &&& before.state@ is Active && heard > 0 && silent ==> after.state@ is Stale && change
                == KeepaliveChange::WentStale { elapsed_secs: ((now_ms - heard) / 1000) as u64 }
            &&& before.state@ is Stale && heard > 0 && !silent ==> after.state@ is Active
                && change is Recovered
            &&& !(before.state@ is Active && heard > 0 && silent) && !(before.state@ is Stale
                && heard > 0 && !silent) ==> after.state@ == before.state@ && change is Unchanged
        }),
{
}

} // verus!
