//! Dynamic tunnel lifecycle manager.
//!
//! Creating a tunnel alternates between decisions that are made here and work
//! that is the caller's: ask the helper for a TAP device, wait for its reply,
//! start the tunnel's tasks. `T` is whatever the caller needs to stop a
//! tunnel's tasks.

use crate::addr::DemuxKey;
use crate::config::iface_name_of;
use crate::config::TunnelConfig;
use crate::text::decimal;
use crate::text::to_decimal;
use crate::tunnel::handle::activated_state;
use crate::tunnel::handle::ends_tied;
use crate::tunnel::handle::fresh_handle;
use crate::tunnel::handle::same_but_state;
use crate::tunnel::handle::torn_down_state;
use crate::tunnel::handle::TunnelHandle;
use crate::tunnel::handle::TunnelSnapshot;
use crate::tunnel::handle::RX_CHANNEL_CAP;
use crate::tunnel::registry::asked_for;
use crate::tunnel::registry::law_found_iff_registered;
use crate::tunnel::registry::listed;
use crate::tunnel::registry::lists;
use crate::tunnel::registry::TunnelRegistry;
use std::collections::HashMap;
use vstd::prelude::*;
use vstd::string::*;

verus! {

/// A message from the privileged helper.
#[derive(Debug)]
pub enum HelperReply {
    HelperReady,
    TapCreated,
    RawSocket { address_family: u16 },
    Error { msg: String },
    Other,
}

/// Why a tunnel could not be created or destroyed.
#[derive(Debug)]
pub enum ManagerError {
    /// There is a tunnel of this ID.
    AlreadyExists { tunnel_id: u16 },
    /// There is no tunnel of this ID.
    NotFound { tunnel_id: u16 },
    /// The helper reported an error.
    Helper { msg: String },
    /// The helper sent something else than was asked for.
    Unexpected { reply: String },
    /// The helper sent no file descriptor along.
    NoTapFd,
}

/// The text of an error.
pub open spec fn manager_error_text(error: ManagerError) -> Seq<char> {
    match error {
        ManagerError::AlreadyExists { tunnel_id } => "tunnel "@ + decimal(tunnel_id as nat)
            + " already exists"@,
        ManagerError::NotFound { tunnel_id } => "tunnel "@ + decimal(tunnel_id as nat)
            + " not found"@,
        ManagerError::Helper { msg } => "helper error: "@ + msg@,
        ManagerError::Unexpected { reply } => "unexpected: "@ + reply@,
        ManagerError::NoTapFd => "no TAP fd received"@,
    }
}

impl ManagerError {
    /// The text of the error.
    pub fn message(&self) -> (text: String)
        ensures
            text@ == manager_error_text(*self),
    {
        match self {
            ManagerError::AlreadyExists { tunnel_id } => {
                let mut text = String::from_str("tunnel ");
                text.append(to_decimal(*tunnel_id as u64).as_str());
                text.append(" already exists");
                text
            },
            ManagerError::NotFound { tunnel_id } => {
                let mut text = String::from_str("tunnel ");
                text.append(to_decimal(*tunnel_id as u64).as_str());
                text.append(" not found");
                text
            },
            ManagerError::Helper { msg } => {
                let mut text = String::from_str("helper error: ");
                text.append(msg.as_str());
                text
            },
            ManagerError::Unexpected { reply } => {
                let mut text = String::from_str("unexpected: ");
                text.append(reply.as_str());
                text
            },
            ManagerError::NoTapFd => String::from_str("no TAP fd received"),
        }
    }
}

/// What is asked of the helper for a new tunnel.
#[derive(Debug)]
pub struct CreateRequest {
    pub key: DemuxKey,
    pub iface_name: String,
}

/// What is wrong with the helper's reply to a request for a TAP device, if
/// anything is. `debug` is the reply as text.
pub open spec fn tap_reply_error(reply: HelperReply, has_fd: bool, debug: Seq<char>) -> Option<
    Seq<char>,
> {
    match reply {
        HelperReply::TapCreated => if has_fd {
            None
        } else {
            Some("no TAP fd received"@)
        },
        HelperReply::Error { msg } => Some("helper error: "@ + msg@),
        _ => Some("unexpected: "@ + debug),
    }
}

/// Judge the helper's reply to a request for a TAP device. `debug` is the reply
/// as text.
pub fn check_tap_reply(reply: HelperReply, has_fd: bool, debug: &str) -> (result: Result<
    (),
    ManagerError,
>)
    ensures
        result is Ok <==> reply is TapCreated && has_fd,
        result matches Err(error) ==> {
            &&& tap_reply_error(reply, has_fd, debug@) == Some(manager_error_text(error))
            &&& error is NoTapFd <==> reply is TapCreated
            &&& error is Helper <==> reply is Error
            &&& error is Unexpected <==> !(reply is TapCreated) && !(reply is Error)
        },
{
    match reply {
        HelperReply::TapCreated => if has_fd {
            Ok(())
        } else {
            Err(ManagerError::NoTapFd)
        },
        HelperReply::Error { msg } => Err(ManagerError::Helper { msg }),
        _ => Err(ManagerError::Unexpected { reply: String::from_str(debug) }),
    }
}

/// Whether another message of the helper is waited for after this one, when the
/// messages about raw sockets are drained. `None` if receiving failed.
pub fn drain_continues(reply: &Option<HelperReply>) -> (continues: bool)
    ensures
        continues == (reply is Some && (reply->0 is RawSocket || reply->0 is Error)),
{
    match reply {
        Some(HelperReply::RawSocket { .. }) => true,
        Some(HelperReply::Error { .. }) => true,
        _ => false,
    }
}

/// Whether a tunnel of this ID is registered.
pub open spec fn has_tunnel(map: Map<(u16, u8, u128), TunnelHandle>, tid: u16) -> bool {
    exists|code: (u16, u8, u128)| #[trigger] map.dom().contains(code) && code.0 == tid
}

/// The registered tunnels but for those of one ID.
pub open spec fn without_tunnel(map: Map<(u16, u8, u128), TunnelHandle>, tid: u16) -> Map<
    (u16, u8, u128),
    TunnelHandle,
> {
    map.remove_keys(Set::new(|code: (u16, u8, u128)| code.0 == tid))
}

/// `removed` are the tunnels of one ID as they leave the registry, each once
/// and tearing down.
pub open spec fn torn_down(
    removed: Seq<(DemuxKey, TunnelHandle)>,
    map: Map<(u16, u8, u128), TunnelHandle>,
    tid: u16,
) -> bool {
    &&& forall|i: int|
        0 <= i < removed.len() ==> {
            let code = (#[trigger] removed[i]).0@;
            &&& map.dom().contains(code)
            &&& code.0 == tid
            &&& same_but_state(removed[i].1, map[code])
            &&& removed[i].1.state@ == torn_down_state(map[code].state@)
        }
    &&& forall|i: int, j: int|
        0 <= i < j < removed.len() ==> (#[trigger] removed[i]).0@ != (#[trigger] removed[j]).0@
    &&& forall|code: (u16, u8, u128)| #[trigger]
        map.dom().contains(code) && code.0 == tid ==> exists|i: int|
            0 <= i < removed.len() && (#[trigger] removed[i]).0@ == code
}

/// Tunnel lifecycle manager.
pub struct TunnelManager<T> {
    registry: TunnelRegistry,
    tasks: HashMap<u16, T>,
}

impl<T> TunnelManager<T> {
    /// The registered tunnels.
    pub closed spec fn tunnels(self) -> Map<(u16, u8, u128), TunnelHandle> {
        self.registry@
    }

    /// The tasks of running tunnels by tunnel ID.
    pub closed spec fn running(self) -> Map<u16, T> {
        self.tasks@
    }

    pub closed spec fn wf(self) -> bool {
        self.registry.wf()
    }

    pub fn new(registry: TunnelRegistry) -> (manager: Self)
        requires
            registry.wf(),
        ensures
            manager.wf(),
            manager.tunnels() == registry@,
            manager.running() == Map::<u16, T>::empty(),
    {
        TunnelManager { registry, tasks: HashMap::new() }
    }

    pub fn registry(&self) -> (registry: &TunnelRegistry)
        requires
            self.wf(),
        ensures
            registry@ == self.tunnels(),
            registry.wf(),
    {
        &self.registry
    }

    /// The registry, to be changed in place.
    pub fn registry_mut(&mut self) -> (registry: &mut TunnelRegistry)
        requires
            old(self).wf(),
        ensures
            registry@ == old(self).tunnels(),
            registry.wf(),
            final(self).tunnels() == final(registry)@,
            final(registry).wf() ==> final(self).wf(),
            final(self).running() == old(self).running(),
    {
        &mut self.registry
    }

    /// Start creating a tunnel: refuse an ID that is taken, else register the
    /// tunnel as initializing and say what to ask of the helper.
    pub fn begin_create(&mut self, config: TunnelConfig) -> (result: Result<
        CreateRequest,
        ManagerError,
    >)
        requires
            old(self).wf(),
        ensures
            final(self).wf(),
            final(self).running() == old(self).running(),
            result is Ok <==> !has_tunnel(old(self).tunnels(), config.tunnel_id),
            result matches Err(error) ==> {
                &&& error == (ManagerError::AlreadyExists { tunnel_id: config.tunnel_id })
                &&& final(self).tunnels() == old(self).tunnels()
            },
            result matches Ok(request) ==> {
                &&& request.key.tunnel_id == config.tunnel_id
                &&& request.key.peer_addr == config.remote
                &&& request.iface_name@ == iface_name_of(config)
                &&& final(self).tunnels() == old(self).tunnels().insert(
                    request.key@,
                    final(self).tunnels()[request.key@],
                )
                &&& fresh_handle(
                    final(self).tunnels()[request.key@],
                    config,
                    RX_CHANNEL_CAP as nat,
                )
            },
    {
        let tunnel_id: u16 = config.tunnel_id;
        let iface_name = config.effective_iface_name();
        // Check for duplicate
        let found = self.registry.find_by_tunnel_id(tunnel_id);
        proof {
            law_found_iff_registered(found@, self.registry@, tunnel_id);
        }
        if found.len() > 0 {
            return Err(ManagerError::AlreadyExists { tunnel_id });
        }
        let key = DemuxKey { tunnel_id, peer_addr: config.remote };
        let handle = TunnelHandle::new(config);
        let _ = self.registry.insert(key, handle);
        assert(self.registry@ =~= old(self).tunnels().insert(key@, self.registry@[key@]));
        Ok(CreateRequest { key, iface_name })
    }

    /// Take the helper's reply to a request for a TAP device: a tunnel whose
    /// TAP device did not come is taken out again. `debug` is the reply as text.
    pub fn tap_replied(
        &mut self,
        key: &DemuxKey,
        reply: HelperReply,
        has_fd: bool,
        debug: &str,
    ) -> (result: Result<(), ManagerError>)
        requires
            old(self).wf(),
        ensures
            final(self).wf(),
            final(self).running() == old(self).running(),
            result is Ok <==> reply is TapCreated && has_fd,
            result is Ok ==> final(self).tunnels() == old(self).tunnels(),
            result matches Err(error) ==> {
                &&& final(self).tunnels() == old(self).tunnels().remove(key@)
                &&& tap_reply_error(reply, has_fd, debug@) == Some(manager_error_text(error))
            },
    {
        let result = check_tap_reply(reply, has_fd, debug);
        if result.is_err() {
            let _ = self.registry.remove(key);
        }
        result
    }

    /// Finish creating a tunnel: make it active, and keep what stops its tasks.
    /// Returns the tasks that were kept under its ID before.
    pub fn finish_create(&mut self, key: &DemuxKey, task: T) -> (previous: Option<T>)
        requires
            old(self).wf(),
        ensures
            final(self).wf(),
            final(self).running() == old(self).running().insert(key.tunnel_id, task),
            previous == (if old(self).running().dom().contains(key.tunnel_id) {
                Some(old(self).running()[key.tunnel_id])
            } else {
                None
            }),
            activated(old(self).tunnels(), final(self).tunnels(), *key),
    {
        self.activate(key);
        self.tasks.insert(key.tunnel_id, task)
    }

    /// Make a tunnel active whose TAP device is there.
    pub fn activate(&mut self, key: &DemuxKey)
        requires
            old(self).wf(),
        ensures
            final(self).wf(),
            final(self).running() == old(self).running(),
            activated(old(self).tunnels(), final(self).tunnels(), *key),
    {
        match self.registry.remove(key) {
            Some((_, mut handle)) => {
                handle.activate();
                let _ = self.registry.insert(*key, handle);
                assert(self.registry@ =~= old(self).tunnels().insert(
                    key@,
                    self.registry@[key@],
                ));
            },
            None => {
                assert(self.registry@ =~= old(self).tunnels());
            },
        }
    }

    /// Register a tunnel that was created during startup (already has TAP + tasks).
    /// Returns the tasks that were kept under its ID before.
    pub fn register_startup_tunnel(&mut self, tunnel_id: u16, task: T) -> (previous: Option<T>)
        ensures
            old(self).wf() ==> final(self).wf(),
            final(self).tunnels() == old(self).tunnels(),
            final(self).running() == old(self).running().insert(tunnel_id, task),
            previous == (if old(self).running().dom().contains(tunnel_id) {
                Some(old(self).running()[tunnel_id])
            } else {
                None
            }),
    {
        self.tasks.insert(tunnel_id, task)
    }

    /// Destroy a tunnel: take its tasks and its registrations out. The tasks
    /// are handed out, to be stopped, whether or not the tunnel is registered.
    pub fn destroy_tunnel(&mut self, tunnel_id: u16) -> (result: (
        Option<T>,
        Result<Vec<(DemuxKey, TunnelHandle)>, ManagerError>,
    ))
        requires
            old(self).wf(),
        ensures
            final(self).wf(),
            final(self).running() == old(self).running().remove(tunnel_id),
            result.0 == (if old(self).running().dom().contains(tunnel_id) {
                Some(old(self).running()[tunnel_id])
            } else {
                None
            }),
            final(self).tunnels() == without_tunnel(old(self).tunnels(), tunnel_id),
            result.1 is Ok <==> has_tunnel(old(self).tunnels(), tunnel_id),
            result.1 matches Ok(removed) ==> torn_down(removed@, old(self).tunnels(), tunnel_id),
            result.1 matches Err(error) ==> error == (ManagerError::NotFound { tunnel_id }),
    {
        // Cancel per-tunnel tasks
        let task = self.tasks.remove(&tunnel_id);
        // Remove from registry
        let entries = self.registry.find_by_tunnel_id(tunnel_id);
        proof {
            law_found_iff_registered(entries@, self.registry@, tunnel_id);
        }
        if entries.len() == 0 {
            assert(self.registry@ =~= without_tunnel(old(self).tunnels(), tunnel_id));
            return (task, Err(ManagerError::NotFound { tunnel_id }));
        }
        let removed = self.remove_entries(&entries, tunnel_id);
        (task, Ok(removed))
    }

    /// Take the listed tunnels of one ID out of the registry.
    fn remove_entries(
        &mut self,
        entries: &Vec<(DemuxKey, TunnelSnapshot)>,
        tunnel_id: u16,
    ) -> (removed: Vec<(DemuxKey, TunnelHandle)>)
        requires
            old(self).wf(),
            lists(entries@, old(self).tunnels(), Some(tunnel_id)),
        ensures
            final(self).wf(),
            final(self).running() == old(self).running(),
            final(self).tunnels() == without_tunnel(old(self).tunnels(), tunnel_id),
            torn_down(removed@, old(self).tunnels(), tunnel_id),
    {
        let ghost before = old(self).tunnels();
        let mut removed: Vec<(DemuxKey, TunnelHandle)> = Vec::new();
        let mut i: usize = 0;
        while i < entries.len()
            invariant
                before == old(self).tunnels(),
                self.wf(),
                self.running() == old(self).running(),
                lists(entries@, before, Some(tunnel_id)),
                i <= entries@.len(),
                removed@.len() == i,
                forall|j: int| 0 <= j < i ==> (#[trigger] removed@[j]).0 == entries@[j].0,
                forall|j: int|
                    0 <= j < i ==> {
                        let code = (#[trigger] removed@[j]).0@;
                        &&& same_but_state(removed@[j].1, before[code])
                        &&& removed@[j].1.state@ == torn_down_state(before[code].state@)
                    },
                forall|code: (u16, u8, u128)| #[trigger]
                    self.tunnels().dom().contains(code) <==> before.dom().contains(code) && !(
                    exists|j: int| 0 <= j < i && (#[trigger] entries@[j]).0@ == code),
                forall|code: (u16, u8, u128)| #[trigger]
                    self.tunnels().dom().contains(code) ==> self.tunnels()[code] == before[code],
            decreases entries@.len() - i,
        {
            let key = entries[i].0;
            let ghost now = self.tunnels();
            assert(before.dom().contains(key@));
            assert(now.dom().contains(key@));
            if let Some((_, mut handle)) = self.registry.remove(&key) {
                handle.tear_down();
                removed.push((key, handle));
            }
            i = i + 1;
            assert forall|code: (u16, u8, u128)| #[trigger]
                self.tunnels().dom().contains(code) <==> before.dom().contains(code) && !(exists|
                    j: int,
                | 0 <= j < i && (#[trigger] entries@[j]).0@ == code) by {
                if code == key@ {
                    assert(entries@[i - 1].0@ == code);
                } else if exists|j: int| 0 <= j < i && (#[trigger] entries@[j]).0@ == code {
                    let j = choose|j: int| 0 <= j < i && (#[trigger] entries@[j]).0@ == code;
                    assert(j < i - 1);
                    assert(!now.dom().contains(code));
                } else {
                    assert(now.dom().contains(code) == before.dom().contains(code));
                }
            }
        }
        assert forall|code: (u16, u8, u128)| #[trigger]
            before.dom().contains(code) && code.0 == tunnel_id implies exists|j: int|
            0 <= j < removed@.len() && (#[trigger] removed@[j]).0@ == code by {
            assert(asked_for(code, Some(tunnel_id)));
            assert(listed(entries@, code));
            let j = choose|j: int| 0 <= j < entries@.len() && (#[trigger] entries@[j]).0@ == code;
            assert(removed@[j].0@ == code);
        }
        assert(self.tunnels() =~= without_tunnel(before, tunnel_id)) by {
            assert forall|code: (u16, u8, u128)| #[trigger]
                self.tunnels().dom().contains(code) <==> without_tunnel(
                before,
                tunnel_id,
            ).dom().contains(code) by {
                if before.dom().contains(code) && code.0 == tunnel_id {
                    assert(asked_for(code, Some(tunnel_id)));
                    assert(listed(entries@, code));
                }
                if exists|j: int| 0 <= j < i && (#[trigger] entries@[j]).0@ == code {
                    let j = choose|j: int| 0 <= j < i && (#[trigger] entries@[j]).0@ == code;
                    assert(asked_for(entries@[j].0@, Some(tunnel_id)));
                }
            }
        }
        removed
    }
}

/// What making a tunnel active does to the registered tunnels.
pub open spec fn activated(
    before: Map<(u16, u8, u128), TunnelHandle>,
    after: Map<(u16, u8, u128), TunnelHandle>,
    key: DemuxKey,
) -> bool {
    if before.dom().contains(key@) {
        &&& after == before.insert(key@, after[key@])
        &&& same_but_state(after[key@], before[key@])
        &&& after[key@].state@ == activated_state(before[key@].state@)
    } else {
        after == before
    }
}

/// A tunnel whose TAP device did not come leaves the registry as it was before
/// its creation started.
pub proof fn law_failed_creation_leaves_no_trace(
    before: Map<(u16, u8, u128), TunnelHandle>,
    config: TunnelConfig,
    key: DemuxKey,
    handle: TunnelHandle,
)
    requires
        !has_tunnel(before, config.tunnel_id),
        key.tunnel_id == config.tunnel_id,
    ensures
        before.insert(key@, handle).remove(key@) == before,
{
    assert(!before.dom().contains(key@));
    assert(before.insert(key@, handle).remove(key@) =~= before);
}

/// A tunnel that was created is active and is the only one of its ID, and its
/// TAP writer takes out what is handed in for it; every other tunnel is as
/// before.
pub proof fn law_created_tunnel_is_active(
    before: Map<(u16, u8, u128), TunnelHandle>,
    after: Map<(u16, u8, u128), TunnelHandle>,
    config: TunnelConfig,
    key: DemuxKey,
    handle: TunnelHandle,
)
    requires
        !has_tunnel(before, config.tunnel_id),
        key.tunnel_id == config.tunnel_id,
        fresh_handle(handle, config, RX_CHANNEL_CAP as nat),
        activated(before.insert(key@, handle), after, key),
    ensures
        after.dom() == before.dom().insert(key@),
        after[key@].state@ is Active,
        after[key@].config == config,
        ends_tied(after[key@]),
        forall|code: (u16, u8, u128)| #[trigger]
            after.dom().contains(code) && code.0 == config.tunnel_id ==> code == key@,
        forall|code: (u16, u8, u128)| #[trigger]
            before.dom().contains(code) ==> after[code] == before[code],
{
    assert(after.dom() =~= before.dom().insert(key@));
    assert forall|code: (u16, u8, u128)| #[trigger]
        after.dom().contains(code) && code.0 == config.tunnel_id implies code == key@ by {
        if code != key@ {
            assert(before.dom().contains(code));
        }
    }
}

/// Destroying a tunnel leaves none of its ID and touches no other, so that a
/// second request to destroy it is refused and it can be created anew.
pub proof fn law_destroyed_tunnel_is_gone(
    before: Map<(u16, u8, u128), TunnelHandle>,
    tid: u16,
    code: (u16, u8, u128),
)
    ensures
        !has_tunnel(without_tunnel(before, tid), tid),
        code.0 != tid ==> (without_tunnel(before, tid).dom().contains(code)
            <==> before.dom().contains(code)),
        code.0 != tid && before.dom().contains(code) ==> without_tunnel(before, tid)[code]
            == before[code],
{
}

/// Creating a tunnel and destroying it again restores the registry.
pub proof fn law_create_then_destroy(
    before: Map<(u16, u8, u128), TunnelHandle>,
    key: DemuxKey,
    handle: TunnelHandle,
)
    requires
        !has_tunnel(before, key.tunnel_id),
    ensures
        without_tunnel(before.insert(key@, handle), key.tunnel_id) == before,
{
    let after = without_tunnel(before.insert(key@, handle), key.tunnel_id);
    assert forall|code: (u16, u8, u128)| #[trigger] before.dom().contains(code) implies code.0
        != key.tunnel_id by {}
    assert(after =~= before);
}

/// A tunnel of an ID is there exactly if some registered key has the ID, whoever
/// its peer is.
pub proof fn law_tunnel_of_an_id(map: Map<(u16, u8, u128), TunnelHandle>, key: DemuxKey, tid: u16)
    ensures
        map.dom().contains(key@) ==> has_tunnel(map, key.tunnel_id),
        has_tunnel(map, tid) ==> exists|code: (u16, u8, u128)| #[trigger]
            map.dom().contains(code) && code.0 == tid,
        key.tunnel_id != tid && !has_tunnel(map, tid) ==> forall|handle: TunnelHandle|
            !#[trigger] has_tunnel(map.insert(key@, handle), tid),
{
    if map.dom().contains(key@) {
        assert(map.dom().contains(key@) && key@.0 == key.tunnel_id);
    }
    if key.tunnel_id != tid && !has_tunnel(map, tid) {
        assert forall|handle: TunnelHandle| !#[trigger] has_tunnel(
            map.insert(key@, handle),
            tid,
        ) by {
            if has_tunnel(map.insert(key@, handle), tid) {
                let code = choose|code: (u16, u8, u128)| #[trigger]
                    map.insert(key@, handle).dom().contains(code) && code.0 == tid;
                assert(map.dom().contains(code));
            }
        }
    }
}

/// What leaves the registry when a tunnel is destroyed is every tunnel of its ID,
/// once, with its configuration and counters, tearing down unless it was destroyed
/// before.
pub proof fn law_torn_down_tunnels(
    removed: Seq<(DemuxKey, TunnelHandle)>,
    map: Map<(u16, u8, u128), TunnelHandle>,
    tid: u16,
    code: (u16, u8, u128),
)
    requires
        torn_down(removed, map, tid),
    ensures
        forall|i: int|
            0 <= i < removed.len() ==> ({
                let entry = #[trigger] removed[i];
                &&& entry.0.tunnel_id == tid
                &&& map.dom().contains(entry.0@)
                &&& entry.1.config == map[entry.0@].config
                &&& entry.1.stats == map[entry.0@].stats
                &&& entry.1.rx_channel == map[entry.0@].rx_channel
                &&& entry.1.rx_receiver == map[entry.0@].rx_receiver
                &&& map[entry.0@].state@ is Destroyed || entry.1.state@ is TearingDown
            }),
        forall|i: int, j: int|
            0 <= i < j < removed.len() ==> (#[trigger] removed[i]).0 != (#[trigger] removed[j]).0,
        map.dom().contains(code) && code.0 == tid ==> exists|i: int|
            0 <= i < removed.len() && (#[trigger] removed[i]).0@ == code,
{
    assert forall|i: int, j: int| 0 <= i < j < removed.len() implies (#[trigger] removed[i]).0 != (
    #[trigger] removed[j]).0 by {
        assert(removed[i].0@ != removed[j].0@);
    }
}

/// Making a tunnel active touches its state alone, and no other tunnel; a tunnel
/// that is not there stays away.
pub proof fn law_activation(
    before: Map<(u16, u8, u128), TunnelHandle>,
    after: Map<(u16, u8, u128), TunnelHandle>,
    key: DemuxKey,
)
    requires
        activated(before, after, key),
    ensures
        after.dom() == before.dom(),
        forall|code: (u16, u8, u128)|
            #[trigger] before.dom().contains(code) && code != key@ ==> after[code] == before[code],
        before.dom().contains(key@) ==> ({
            let (b, a) = (before[key@], after[key@]);
            &&& a.config == b.config
            &&& a.stats == b.stats
            &&& a.actual_mtu == b.actual_mtu
            &&& a.rx_channel == b.rx_channel
            &&& a.rx_receiver == b.rx_receiver
            &&& b.state@ is Initializing || b.state@ is Configured ==> a.state@ is Active
            &&& !(b.state@ is Initializing || b.state@ is Configured) ==> a.state@ == b.state@
        }),
{
    assert(after.dom() =~= before.dom());
}

/// What is said of a helper's reply, and of a request that is refused.
pub proof fn law_manager_texts(tunnel_id: u16, reply: HelperReply, has_fd: bool, text: String)
    ensures
        manager_error_text(ManagerError::AlreadyExists { tunnel_id }) == "tunnel "@ + decimal(
            tunnel_id as nat,
        ) + " already exists"@,
        manager_error_text(ManagerError::NotFound { tunnel_id }) == "tunnel "@ + decimal(
            tunnel_id as nat,
        ) + " not found"@,
        manager_error_text(ManagerError::Helper { msg: text }) == "helper error: "@ + text@,
        manager_error_text(ManagerError::Unexpected { reply: text }) == "unexpected: "@ + text@,
        manager_error_text(ManagerError::NoTapFd) == "no TAP fd received"@,
        reply is TapCreated && has_fd <==> tap_reply_error(reply, has_fd, text@) is None,
        reply is TapCreated && !has_fd ==> tap_reply_error(reply, has_fd, text@) == Some(
            "no TAP fd received"@,
        ),
        reply matches HelperReply::Error { msg } ==> tap_reply_error(reply, has_fd, text@) == Some(
            "helper error: "@ + msg@,
        ),
        !(reply is TapCreated) && !(reply is Error) ==> tap_reply_error(reply, has_fd, text@)
            == Some("unexpected: "@ + text@),
{
}

} // verus!
