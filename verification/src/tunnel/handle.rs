//! Tunnel handle: the per-tunnel runtime state held in the registry.

use crate::config::TunnelConfig;
use crate::packet::buffer::MAX_SLOTS;
use crate::packet::buffer::PacketBuf;
use crate::tunnel::lifecycle::after_transition;
use crate::tunnel::lifecycle::AtomicTunnelState;
use crate::tunnel::lifecycle::TunnelState;
use crate::tunnel::stats::zero_stats;
use crate::tunnel::stats::TunnelStats;
use crossbeam::channel::Receiver;
use crossbeam::channel::Sender;
use crossbeam::channel::TrySendError;
use vstd::prelude::*;

verus! {

/// How many received frames may wait for a tunnel's TAP writer.
pub const RX_CHANNEL_CAP: usize = 1024;

/// `crossbeam::channel::Sender`, the end of a bounded channel that received
/// frames go into.
#[verifier::external_type_specification]
#[verifier::external_body]
#[verifier::reject_recursive_types(T)]
pub struct ExSender<T>(Sender<T>);

/// `crossbeam::channel::Receiver`, the end of a bounded channel that the TAP
/// writer takes frames out of.
#[verifier::external_type_specification]
#[verifier::external_body]
#[verifier::reject_recursive_types(T)]
pub struct ExReceiver<T>(Receiver<T>);

/// The frames that a channel accepted through this end, in order.
pub uninterp spec fn frames_sent(sender: Sender<PacketBuf>) -> Seq<Seq<u8>>;

/// The frames that were offered to a channel through this end, in order,
/// whether or not the channel accepted them.
pub uninterp spec fn frames_offered(sender: Sender<PacketBuf>) -> Seq<Seq<u8>>;

/// Whether the two ends are those of one channel: what is accepted through the
/// one comes out of the other.
pub uninterp spec fn same_channel(sender: Sender<PacketBuf>, receiver: Receiver<PacketBuf>) -> bool;

/// The capacity that this end's channel was made with.
pub uninterp spec fn channel_capacity(sender: Sender<PacketBuf>) -> nat;

/// `crossbeam::channel::bounded`: the two ends of a new channel of the given
/// capacity. It panics on a capacity whose slots cannot be allocated. When
/// the receiver gets what the sender sent rests on the receiving thread and is
/// left unsaid.
#[verifier::external_body]
fn channel_bounded(capacity: usize) -> (ends: (Sender<PacketBuf>, Receiver<PacketBuf>))
    requires
        capacity <= MAX_SLOTS,
    ensures
        frames_sent(ends.0) == Seq::<Seq<u8>>::empty(),
        frames_offered(ends.0) == Seq::<Seq<u8>>::empty(),
        same_channel(ends.0, ends.1),
        channel_capacity(ends.0) == capacity,
{
    crossbeam::channel::bounded(capacity)
}

/// `Sender::try_send`: either the channel accepts the buffer, or it hands it
/// back because it is full or has no receiver left. It is offered either way,
/// and the end stays one of the same channel. Which of the two happens depends
/// on the receiver and is left unsaid.
#[verifier::external_body]
fn channel_try_send(sender: &mut Sender<PacketBuf>, buf: PacketBuf) -> (refused: Option<PacketBuf>)
    ensures
        channel_capacity(*final(sender)) == channel_capacity(*old(sender)),
        frames_offered(*final(sender)) == frames_offered(*old(sender)).push(buf@),
        forall|receiver: Receiver<PacketBuf>| #[trigger]
            same_channel(*final(sender), receiver) == same_channel(*old(sender), receiver),
        refused is None ==> frames_sent(*final(sender)) == frames_sent(*old(sender)).push(buf@),
        refused matches Some(back) ==> back == buf && frames_sent(*final(sender)) == frames_sent(
            *old(sender),
        ),
{
    match sender.try_send(buf) {
        Ok(()) => None,
        Err(TrySendError::Full(back)) => Some(back),
        Err(TrySendError::Disconnected(back)) => Some(back),
    }
}

/// Runtime handle for a single tunnel, stored in the `TunnelRegistry`.
#[derive(Debug)]
pub struct TunnelHandle {
    pub config: TunnelConfig,
    pub state: AtomicTunnelState,
    pub stats: TunnelStats,
    /// The overlay MTU that is in force, 0 as long as none was discovered.
    pub actual_mtu: u16,
    pub rx_channel: Option<Sender<PacketBuf>>,
    pub rx_receiver: Option<Receiver<PacketBuf>>,
}

/// The frames handed to the TAP writer so far.
pub open spec fn delivered(handle: TunnelHandle) -> Seq<Seq<u8>> {
    match handle.rx_channel {
        Some(sender) => frames_sent(sender),
        None => Seq::empty(),
    }
}

/// The frames that were offered to the TAP writer so far, whether or not its
/// channel accepted them.
pub open spec fn offered(handle: TunnelHandle) -> Seq<Seq<u8>> {
    match handle.rx_channel {
        Some(sender) => frames_offered(sender),
        None => Seq::empty(),
    }
}

/// The handle has both ends of one channel: what is handed in for the TAP
/// writer is what the TAP writer takes out.
pub open spec fn ends_tied(handle: TunnelHandle) -> bool {
    &&& handle.rx_channel is Some
    &&& handle.rx_receiver is Some
    &&& same_channel(handle.rx_channel->0, handle.rx_receiver->0)
}

/// A handle's plain state at one moment.
#[derive(Debug)]
pub struct TunnelSnapshot {
    pub config: TunnelConfig,
    pub state: TunnelState,
    pub stats: TunnelStats,
    pub actual_mtu: u16,
}

/// The plain state of a handle.
pub open spec fn snapshot_of(handle: TunnelHandle) -> TunnelSnapshot {
    TunnelSnapshot {
        config: handle.config,
        state: handle.state@,
        stats: handle.stats,
        actual_mtu: handle.actual_mtu,
    }
}

/// `handle` is that of a tunnel that was just made from `config`.
pub open spec fn fresh_handle(
    handle: TunnelHandle,
    config: TunnelConfig,
    capacity: nat,
) -> bool {
    &&& handle.config == config
    &&& handle.state@ is Initializing
    &&& handle.stats == zero_stats()
    &&& handle.actual_mtu == 0
    &&& handle.rx_channel is Some
    &&& channel_capacity(handle.rx_channel->0) == capacity
    &&& delivered(handle) == Seq::<Seq<u8>>::empty()
    &&& offered(handle) == Seq::<Seq<u8>>::empty()
    &&& handle.rx_receiver is Some
    &&& ends_tied(handle)
}

/// Two handles differ at most in their lifecycle state.
pub open spec fn same_but_state(a: TunnelHandle, b: TunnelHandle) -> bool {
    &&& a.config == b.config
    &&& a.stats == b.stats
    &&& a.actual_mtu == b.actual_mtu
    &&& a.rx_channel == b.rx_channel
    &&& a.rx_receiver == b.rx_receiver
}

/// The state of a tunnel whose resources are ready: one that was being
/// allocated or configured becomes active.
pub open spec fn activated_state(state: TunnelState) -> TunnelState {
    match state {
        TunnelState::Initializing => TunnelState::Active,
        TunnelState::Configured => TunnelState::Active,
        _ => state,
    }
}

/// The state of a tunnel that is taken down: a live one starts to tear down.
pub open spec fn torn_down_state(state: TunnelState) -> TunnelState {
    match state {
        TunnelState::Destroyed => TunnelState::Destroyed,
        _ => TunnelState::TearingDown,
    }
}

impl TunnelHandle {
    pub fn new(config: TunnelConfig) -> (handle: Self)
        ensures
            fresh_handle(handle, config, RX_CHANNEL_CAP as nat),
    {
        TunnelHandle::with_channel_cap(config, RX_CHANNEL_CAP)
    }

    /// A handle whose channel holds up to `capacity` frames.
    pub fn with_channel_cap(config: TunnelConfig, capacity: usize) -> (handle: Self)
        requires
            capacity <= MAX_SLOTS,
        ensures
            fresh_handle(handle, config, capacity as nat),
    {
        let (tx, rx) = channel_bounded(capacity);
        TunnelHandle {
            config,
            state: AtomicTunnelState::new(TunnelState::Initializing),
            stats: TunnelStats::new(),
            actual_mtu: 0,
            rx_channel: Some(tx),
            rx_receiver: Some(rx),
        }
    }

    /// The plain state of the handle.
    pub fn snapshot(&self) -> (snapshot: TunnelSnapshot)
        ensures
            snapshot == snapshot_of(*self),
    {
        TunnelSnapshot {
            config: self.config.clone(),
            state: self.state.load(),
            stats: self.stats,
            actual_mtu: self.actual_mtu,
        }
    }

    /// Move a tunnel whose TAP is there through `Configured` to `Active`.
    pub fn activate(&mut self)
        ensures
            same_but_state(*final(self), *old(self)),
            final(self).state@ == activated_state(old(self).state@),
    {
        let _ = self.state.transition(TunnelState::Initializing, TunnelState::Configured);
        let _ = self.state.transition(TunnelState::Configured, TunnelState::Active);
    }

    /// Start tearing the tunnel down, from whatever state it is in.
    pub fn tear_down(&mut self)
        ensures
            same_but_state(*final(self), *old(self)),
            final(self).state@ == torn_down_state(old(self).state@),
    {
        let current = self.state.load();
        let _ = self.state.transition(current, TunnelState::TearingDown);
    }

    /// Hand a buffer to the TAP writer. Gives it back if the channel does not
    /// accept it. `Some` without a channel.
    pub(crate) fn offer(&mut self, buf: PacketBuf) -> (refused: Option<PacketBuf>)
        ensures
            final(self).config == old(self).config,
            final(self).state == old(self).state,
            final(self).stats == old(self).stats,
            final(self).actual_mtu == old(self).actual_mtu,
            final(self).rx_receiver == old(self).rx_receiver,
            final(self).rx_channel is Some <==> old(self).rx_channel is Some,
            final(self).rx_channel is Some ==> channel_capacity(final(self).rx_channel->0)
                == channel_capacity(old(self).rx_channel->0),
            ends_tied(*final(self)) == ends_tied(*old(self)),
            offered(*final(self)) == (if old(self).rx_channel is Some {
                offered(*old(self)).push(buf@)
            } else {
                offered(*old(self))
            }),
            refused is None ==> old(self).rx_channel is Some && delivered(*final(self))
                == delivered(*old(self)).push(buf@),
            refused matches Some(back) ==> back == buf && delivered(*final(self)) == delivered(
                *old(self),
            ),
    {
        match &mut self.rx_channel {
            Some(sender) => channel_try_send(sender, buf),
            None => Some(buf),
        }
    }
}

/// What a tunnel's TAP writer was offered and got is what went through the
/// sending end of its channel, and a tunnel whose ends are tied has the receiving
/// end of that same channel.
pub proof fn law_handle_channel(handle: TunnelHandle)
    ensures
        handle.rx_channel matches Some(sender) ==> delivered(handle) == frames_sent(sender)
            && offered(handle) == frames_offered(sender),
        handle.rx_channel is None ==> delivered(handle).len() == 0 && offered(handle).len() == 0,
        ends_tied(handle) <==> handle.rx_channel is Some && handle.rx_receiver is Some
            && same_channel(handle.rx_channel->0, handle.rx_receiver->0),
{
}

/// A new tunnel has its configuration, counters at zero, no MTU yet, and both
/// ends of an empty channel of the capacity that was asked for.
pub proof fn law_fresh_handle(handle: TunnelHandle, config: TunnelConfig, capacity: nat)
    requires
        fresh_handle(handle, config, capacity),
    ensures
        handle.config == config,
        handle.state@ is Initializing,
        handle.stats.rx_packets == 0 && handle.stats.rx_bytes == 0 && handle.stats.rx_errors == 0,
        handle.stats.tx_packets == 0 && handle.stats.tx_bytes == 0 && handle.stats.tx_errors == 0,
        handle.stats.last_rx_timestamp == 0 && handle.stats.last_tx_timestamp == 0,
        handle.actual_mtu == 0,
        handle.rx_channel is Some && handle.rx_receiver is Some,
        channel_capacity(handle.rx_channel->0) == capacity,
        frames_offered(handle.rx_channel->0).len() == 0,
        frames_sent(handle.rx_channel->0).len() == 0,
        same_channel(handle.rx_channel->0, handle.rx_receiver->0),
{
}

/// A snapshot tells what the handle holds.
pub proof fn law_snapshot(handle: TunnelHandle)
    ensures
        snapshot_of(handle).config == handle.config,
        snapshot_of(handle).state == handle.state@,
        snapshot_of(handle).stats == handle.stats,
        snapshot_of(handle).actual_mtu == handle.actual_mtu,
{
}

/// Handles that differ at most in their state have all else in common.
pub proof fn law_same_but_state(a: TunnelHandle, b: TunnelHandle)
    ensures
        same_but_state(a, b) <==> a.config == b.config && a.stats == b.stats && a.actual_mtu
            == b.actual_mtu && a.rx_channel == b.rx_channel && a.rx_receiver == b.rx_receiver,
{
}

/// Activating a tunnel takes the two ways of the lifecycle from being allocated to
/// active, and taking it down the one way to tearing down, as far as they exist
/// from where it is.
pub proof fn law_activation_follows_the_lifecycle(state: TunnelState)
    ensures
        activated_state(state) == after_transition(
            after_transition(state, TunnelState::Initializing, TunnelState::Configured),
            TunnelState::Configured,
            TunnelState::Active,
        ),
        torn_down_state(state) == after_transition(state, state, TunnelState::TearingDown),
        activated_state(TunnelState::Initializing) is Active,
        activated_state(TunnelState::Configured) is Active,
        !(state is Initializing) && !(state is Configured) ==> activated_state(state) == state,
        !(state is Destroyed) ==> torn_down_state(state) is TearingDown,
        state is Destroyed ==> torn_down_state(state) is Destroyed,
{
}

} // verus!
