//! Tunnel lifecycle state machine.
//!
//! States: Initializing -> Configured -> Active -> Stale -> TearingDown -> Destroyed

use vstd::prelude::*;

verus! {

/// Tunnel lifecycle states.
#[derive(Debug, Clone, Copy, PartialEq, Eq, Structural)]
pub enum TunnelState {
    /// Resources being allocated (TAP fd requested from helper).
    Initializing,
    /// TAP fd received, ready to activate.
    Configured,
    /// Actively forwarding packets.
    Active,
    /// Keepalive timeout expired. TX suspended, RX still active for recovery.
    Stale,
    /// Shutdown in progress, draining in-flight packets.
    TearingDown,
    /// Fully cleaned up, can be removed from registry.
    Destroyed,
}

/// The byte that stands for a state.
pub open spec fn state_code(state: TunnelState) -> u8 {
    match state {
        TunnelState::Initializing => 0,
        TunnelState::Configured => 1,
        TunnelState::Active => 2,
        TunnelState::Stale => 3,
        TunnelState::TearingDown => 4,
        TunnelState::Destroyed => 5,
    }
}

impl TunnelState {
    /// The state that the byte `v` stands for, if there is one.
    pub fn from_u8(v: u8) -> (state: Option<TunnelState>)
        ensures
            state is Some <==> v <= 5,
            state matches Some(s) ==> state_code(s) == v,
    {
        match v {
            0 => Some(TunnelState::Initializing),
            1 => Some(TunnelState::Configured),
            2 => Some(TunnelState::Active),
            3 => Some(TunnelState::Stale),
            4 => Some(TunnelState::TearingDown),
            5 => Some(TunnelState::Destroyed),
            _ => None,
        }
    }

    /// The byte that stands for this state.
    pub fn code(self) -> (v: u8)
        ensures
            v == state_code(self),
    {
        match self {
            TunnelState::Initializing => 0,
            TunnelState::Configured => 1,
            TunnelState::Active => 2,
            TunnelState::Stale => 3,
            TunnelState::TearingDown => 4,
            TunnelState::Destroyed => 5,
        }
    }
}

/// The edges of the lifecycle graph.
pub open spec fn valid_transition(from: TunnelState, to: TunnelState) -> bool {
    match from {
        TunnelState::Initializing => to is Configured || to is TearingDown,
        TunnelState::Configured => to is Active || to is TearingDown,
        TunnelState::Active => to is Stale || to is TearingDown,
        TunnelState::Stale => to is Active || to is TearingDown,
        TunnelState::TearingDown => to is Destroyed,
        TunnelState::Destroyed => false,
    }
}

/// Validate whether a state transition is allowed by the FSM.
pub fn is_valid_transition(from: TunnelState, to: TunnelState) -> (valid: bool)
    ensures
        valid == valid_transition(from, to),
{
    match (from, to) {
        (TunnelState::Initializing, TunnelState::Configured) => true,
        (TunnelState::Configured, TunnelState::Active) => true,
        (TunnelState::Active, TunnelState::Stale) => true,
        // recovery on keepalive received
        (TunnelState::Stale, TunnelState::Active) => true,
        (TunnelState::Active, TunnelState::TearingDown) => true,
        (TunnelState::Stale, TunnelState::TearingDown) => true,
        // shutdown before activation
        (TunnelState::Configured, TunnelState::TearingDown) => true,
        // shutdown during init
        (TunnelState::Initializing, TunnelState::TearingDown) => true,
        (TunnelState::TearingDown, TunnelState::Destroyed) => true,
        _ => false,
    }
}

/// What a request to move from `from` to `to` makes of a cell that holds `current`.
pub open spec fn after_transition(
    current: TunnelState,
    from: TunnelState,
    to: TunnelState,
) -> TunnelState {
    if valid_transition(from, to) && current == from {
        to
    } else {
        current
    }
}

/// A tunnel's state cell, held as the state's byte and changed only by
/// compare-and-exchange along the edges of the lifecycle graph.
///
/// The exchange is one step because it borrows the cell exclusively: threads
/// that share a cell hold it behind a lock.
#[derive(Debug)]
pub struct AtomicTunnelState(u8);

impl View for AtomicTunnelState {
    type V = TunnelState;

    closed spec fn view(&self) -> TunnelState {
        if self.0 == 0 {
            TunnelState::Initializing
        } else if self.0 == 1 {
            TunnelState::Configured
        } else if self.0 == 2 {
            TunnelState::Active
        } else if self.0 == 3 {
            TunnelState::Stale
        } else if self.0 == 4 {
            TunnelState::TearingDown
        } else {
            TunnelState::Destroyed
        }
    }
}

impl AtomicTunnelState {
    pub fn new(state: TunnelState) -> (cell: Self)
        ensures
            cell@ == state,
    {
        AtomicTunnelState(state.code())
    }

    /// The state that the cell holds.
    pub fn load(&self) -> (state: TunnelState)
        ensures
            state == self@,
    {
        match TunnelState::from_u8(self.0) {
            Some(state) => state,
            None => TunnelState::Destroyed,
        }
    }

    /// Attempt a state transition. Returns `Ok(())` if the transition is valid
    /// and the cell holds `from`, `Err(current_state)` otherwise.
    pub fn transition(&mut self, from: TunnelState, to: TunnelState) -> (result: Result<
        (),
        TunnelState,
    >)
        ensures
            final(self)@ == after_transition(old(self)@, from, to),
            result == (if valid_transition(from, to) && old(self)@ == from {
                Ok::<(), TunnelState>(())
            } else {
                Err(old(self)@)
            }),
    {
        if !is_valid_transition(from, to) {
            return Err(self.load());
        }
        if self.load() == from {
            self.0 = to.code();
            Ok(())
        } else {
            Err(self.load())
        }
    }
}

/// Different states have different bytes.
pub proof fn law_state_code_injective(a: TunnelState, b: TunnelState)
    requires
        state_code(a) == state_code(b),
    ensures
        a == b,
{
}

/// A request changes a cell only along an edge of the lifecycle graph, out of
/// the state that the cell holds.
pub proof fn law_changes_follow_edges(
    current: TunnelState,
    from: TunnelState,
    to: TunnelState,
)
    ensures
        ({
            let after = after_transition(current, from, to);
            after != current ==> valid_transition(current, after) && from == current && to == after
        }),
{
}

/// A tunnel that is tearing down never comes back, and a destroyed one stays
/// destroyed.
pub proof fn law_teardown_is_final(current: TunnelState, from: TunnelState, to: TunnelState)
    ensures
        current is Destroyed ==> after_transition(current, from, to) is Destroyed,
        current is TearingDown ==> after_transition(current, from, to) is TearingDown
            || after_transition(current, from, to) is Destroyed,
{
}

/// Every tunnel that is not torn down yet can be, from whatever state it is in.
pub proof fn law_teardown_always_possible(current: TunnelState)
    requires
        !(current is TearingDown),
        !(current is Destroyed),
    ensures
        after_transition(current, current, TunnelState::TearingDown) is TearingDown,
{
}

/// A tunnel that is not torn down yet goes from being allocated to configured to
/// active, and from there to stale and back, and from each of these to tearing
/// down; one that is tearing down can only be destroyed. There are no other ways.
pub proof fn law_lifecycle_graph(from: TunnelState, to: TunnelState)
    ensures
        to is Initializing ==> !valid_transition(from, to),
        to is Configured ==> (valid_transition(from, to) <==> from is Initializing),
        to is Active ==> (valid_transition(from, to) <==> from is Configured || from is Stale),
        to is Stale ==> (valid_transition(from, to) <==> from is Active),
        to is TearingDown ==> (valid_transition(from, to) <==> !(from is TearingDown)
            && !(from is Destroyed)),
        to is Destroyed ==> (valid_transition(from, to) <==> from is TearingDown),
{
}

/// A request is granted if it starts from the state that the cell holds and its
/// way exists, and then the cell holds the new state; else the cell keeps its own.
pub proof fn law_request_is_granted(current: TunnelState, from: TunnelState, to: TunnelState)
    ensures
        current == from && valid_transition(from, to) ==> after_transition(current, from, to) == to,
        current != from || !valid_transition(from, to) ==> after_transition(current, from, to)
            == current,
{
}

/// The bytes of the states, in the order of the lifecycle.
pub proof fn law_state_codes()
    ensures
        state_code(TunnelState::Initializing) == 0,
        state_code(TunnelState::Configured) == 1,
        state_code(TunnelState::Active) == 2,
        state_code(TunnelState::Stale) == 3,
        state_code(TunnelState::TearingDown) == 4,
        state_code(TunnelState::Destroyed) == 5,
{
}

} // verus!
