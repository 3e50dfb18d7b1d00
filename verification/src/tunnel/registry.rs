//! Tunnel registry backed by `DashMap`.
//!
//! Provides O(1) lookup by `DemuxKey` for the RX demux hot path. The key is
//! held as integers: tunnel ID, address family, address.

use crate::addr::is_key_code;
use crate::addr::law_key_code_injective;
use crate::addr::DemuxKey;
use crate::tunnel::handle::snapshot_of;
use crate::tunnel::handle::TunnelHandle;
use crate::tunnel::handle::TunnelSnapshot;
use dashmap::mapref::one::Ref;
use dashmap::DashMap;
use vstd::prelude::*;

verus! {

/// `dashmap::DashMap`, the sharded concurrent hash map.
#[verifier::external_type_specification]
#[verifier::external_body]
#[verifier::reject_recursive_types(K)]
#[verifier::reject_recursive_types(V)]
#[verifier::reject_recursive_types(S)]
pub struct ExDashMap<K, V, S>(DashMap<K, V, S>);

/// `dashmap::mapref::one::Ref`, a guard that borrows one entry of a map.
#[verifier::external_type_specification]
#[verifier::external_body]
#[verifier::reject_recursive_types(K)]
#[verifier::reject_recursive_types(V)]
pub struct ExRef<'a, K, V>(Ref<'a, K, V>);

/// The entries of a map.
pub uninterp spec fn map_entries(map: DashMap<(u16, u8, u128), TunnelHandle>) -> Map<
    (u16, u8, u128),
    TunnelHandle,
>;

/// The handle that a guard borrows.
pub uninterp spec fn guarded(guard: Ref<'_, (u16, u8, u128), TunnelHandle>) -> TunnelHandle;

/// No entries at all.
pub open spec fn no_tunnels() -> Map<(u16, u8, u128), TunnelHandle> {
    Map::empty()
}

/// `DashMap::new`: a map without entries.
#[verifier::external_body]
fn map_new() -> (map: DashMap<(u16, u8, u128), TunnelHandle>)
    ensures
        map_entries(map) == no_tunnels(),
{
    DashMap::new()
}

/// `DashMap::insert`: sets the value of a key and returns the one it had.
#[verifier::external_body]
fn map_insert(
    map: &mut DashMap<(u16, u8, u128), TunnelHandle>,
    key: (u16, u8, u128),
    handle: TunnelHandle,
) -> (previous: Option<TunnelHandle>)
    ensures
        map_entries(*final(map)) == map_entries(*old(map)).insert(key, handle),
        previous == (if map_entries(*old(map)).dom().contains(key) {
            Some(map_entries(*old(map))[key])
        } else {
            None
        }),
{
    map.insert(key, handle)
}

/// `DashMap::remove`: takes out the entry of a key, if there is one.
#[verifier::external_body]
fn map_remove(map: &mut DashMap<(u16, u8, u128), TunnelHandle>, key: (u16, u8, u128)) -> (removed:
    Option<((u16, u8, u128), TunnelHandle)>)
    ensures
        map_entries(*final(map)) == map_entries(*old(map)).remove(key),
        removed == (if map_entries(*old(map)).dom().contains(key) {
            Some((key, map_entries(*old(map))[key]))
        } else {
            None
        }),
{
    map.remove(&key)
}

/// `DashMap::get`: borrows the entry of a key, if there is one.
#[verifier::external_body]
fn map_get(map: &DashMap<(u16, u8, u128), TunnelHandle>, key: (u16, u8, u128)) -> (guard: Option<
    Ref<'_, (u16, u8, u128), TunnelHandle>,
>)
    ensures
        guard is Some <==> map_entries(*map).dom().contains(key),
        guard matches Some(found) ==> guarded(found) == map_entries(*map)[key],
{
    map.get(&key)
}

/// `Ref::value`: the value of the borrowed entry.
#[verifier::external_body]
fn guard_value<'a>(guard: &'a Ref<'_, (u16, u8, u128), TunnelHandle>) -> (handle: &'a TunnelHandle)
    ensures
        *handle == guarded(*guard),
{
    guard.value()
}

/// `DashMap::len`: the number of entries.
#[verifier::external_body]
fn map_len(map: &DashMap<(u16, u8, u128), TunnelHandle>) -> (len: usize)
    ensures
        len == map_entries(*map).dom().len(),
{
    map.len()
}

/// `DashMap::is_empty`: whether there is no entry.
#[verifier::external_body]
fn map_is_empty(map: &DashMap<(u16, u8, u128), TunnelHandle>) -> (empty: bool)
    ensures
        empty == map_entries(*map).dom().is_empty(),
{
    map.is_empty()
}

/// `DashMap::iter`: walks over every entry once; here the keys are collected.
/// The order is left unsaid.
#[verifier::external_body]
fn map_keys(map: &DashMap<(u16, u8, u128), TunnelHandle>) -> (keys: Vec<(u16, u8, u128)>)
    ensures
        keys@.no_duplicates(),
        forall|key: (u16, u8, u128)|
            keys@.contains(key) <==> map_entries(*map).dom().contains(key),
{
    map.iter().map(|entry| *entry.key()).collect()
}

/// Tunnel registry for O(1) packet demultiplexing.
#[derive(Debug)]
pub struct TunnelRegistry {
    map: DashMap<(u16, u8, u128), TunnelHandle>,
}

impl View for TunnelRegistry {
    type V = Map<(u16, u8, u128), TunnelHandle>;

    /// The registered tunnels by the integers of their keys.
    closed spec fn view(&self) -> Map<(u16, u8, u128), TunnelHandle> {
        map_entries(self.map)
    }
}

/// The registered tunnels are finitely many, and each is under a real key.
pub open spec fn registry_wf(map: Map<(u16, u8, u128), TunnelHandle>) -> bool {
    &&& map.dom().finite()
    &&& forall|code: (u16, u8, u128)| #[trigger] map.dom().contains(code) ==> is_key_code(code)
}

/// Whether a key's integers are asked for: all of them, or those of one tunnel ID.
pub open spec fn asked_for(code: (u16, u8, u128), tid: Option<u16>) -> bool {
    match tid {
        Some(id) => code.0 == id,
        None => true,
    }
}

/// What a look-up of `key` finds.
pub open spec fn lookup(map: Map<(u16, u8, u128), TunnelHandle>, key: DemuxKey) -> Option<
    TunnelSnapshot,
> {
    if map.dom().contains(key@) {
        Some(snapshot_of(map[key@]))
    } else {
        None
    }
}

/// `list` holds each registered tunnel that is asked for once, in any order,
/// with its plain state.
pub open spec fn lists(
    list: Seq<(DemuxKey, TunnelSnapshot)>,
    map: Map<(u16, u8, u128), TunnelHandle>,
    tid: Option<u16>,
) -> bool {
    &&& forall|i: int|
        0 <= i < list.len() ==> {
            let code = (#[trigger] list[i]).0@;
            &&& map.dom().contains(code)
            &&& asked_for(code, tid)
            &&& list[i].1 == snapshot_of(map[code])
        }
    &&& forall|i: int, j: int|
        0 <= i < j < list.len() ==> (#[trigger] list[i]).0@ != (#[trigger] list[j]).0@
    &&& forall|code: (u16, u8, u128)| #[trigger]
        map.dom().contains(code) && asked_for(code, tid) ==> listed(list, code)
}

/// Whether `list` has an entry for the key with these integers.
pub open spec fn listed(list: Seq<(DemuxKey, TunnelSnapshot)>, code: (u16, u8, u128)) -> bool {
    exists|i: int| 0 <= i < list.len() && (#[trigger] list[i]).0@ == code
}

impl TunnelRegistry {
    pub open spec fn wf(self) -> bool {
        registry_wf(self@)
    }

    pub fn new() -> (registry: Self)
        ensures
            registry.wf(),
            registry@ == no_tunnels(),
    {
        TunnelRegistry { map: map_new() }
    }

    /// Insert a tunnel handle. Returns the previous handle if the key existed.
    pub fn insert(&mut self, key: DemuxKey, handle: TunnelHandle) -> (previous: Option<
        TunnelHandle,
    >)
        requires
            old(self).wf(),
        ensures
            final(self).wf(),
            final(self)@ == old(self)@.insert(key@, handle),
            previous == (if old(self)@.dom().contains(key@) {
                Some(old(self)@[key@])
            } else {
                None
            }),
    {
        map_insert(&mut self.map, key.code(), handle)
    }

    /// Remove a tunnel by key. Returns the handle if it existed.
    pub fn remove(&mut self, key: &DemuxKey) -> (removed: Option<(DemuxKey, TunnelHandle)>)
        requires
            old(self).wf(),
        ensures
            final(self).wf(),
            final(self)@ == old(self)@.remove(key@),
            removed == (if old(self)@.dom().contains(key@) {
                Some((*key, old(self)@[key@]))
            } else {
                None
            }),
    {
        match map_remove(&mut self.map, key.code()) {
            Some((_, handle)) => Some((*key, handle)),
            None => None,
        }
    }

    /// Look up a tunnel by demux key and copy its plain state.
    pub fn get(&self, key: &DemuxKey) -> (found: Option<TunnelSnapshot>)
        ensures
            found == lookup(self@, *key),
    {
        match self.get_ref(key) {
            Some(guard) => Some(guard_value(&guard).snapshot()),
            None => None,
        }
    }

    /// Look up a tunnel by demux key, returning a borrow guard (no copy).
    /// Holds a DashMap shard read-lock for the guard's lifetime: keep it short.
    pub fn get_ref(&self, key: &DemuxKey) -> (guard: Option<
        Ref<'_, (u16, u8, u128), TunnelHandle>,
    >)
        ensures
            guard is Some <==> self@.dom().contains(key@),
            guard matches Some(found) ==> guarded(found) == self@[key@],
    {
        map_get(&self.map, key.code())
    }

    /// Number of registered tunnels.
    pub fn len(&self) -> (len: usize)
        ensures
            len == self@.dom().len(),
    {
        map_len(&self.map)
    }

    pub fn is_empty(&self) -> (empty: bool)
        ensures
            empty == self@.dom().is_empty(),
    {
        map_is_empty(&self.map)
    }

    /// The registered tunnels that are asked for.
    fn list(&self, tid: Option<u16>) -> (list: Vec<(DemuxKey, TunnelSnapshot)>)
        requires
            self.wf(),
        ensures
            lists(list@, self@, tid),
    {
        let keys = map_keys(&self.map);
        let mut list: Vec<(DemuxKey, TunnelSnapshot)> = Vec::new();
        let mut i: usize = 0;
        while i < keys.len()
            invariant
                self.wf(),
                i <= keys@.len(),
                keys@.no_duplicates(),
                forall|key: (u16, u8, u128)| keys@.contains(key) <==> self@.dom().contains(key),
                forall|k: int|
                    0 <= k < list@.len() ==> {
                        let code = (#[trigger] list@[k]).0@;
                        &&& self@.dom().contains(code)
                        &&& asked_for(code, tid)
                        &&& list@[k].1 == snapshot_of(self@[code])
                        &&& exists|j: int| 0 <= j < i && keys@[j] == code
                    },
                forall|k: int, l: int|
                    0 <= k < l < list@.len() ==> (#[trigger] list@[k]).0@ != (
                    #[trigger] list@[l]).0@,
                forall|j: int|
                    0 <= j < i && asked_for(#[trigger] keys@[j], tid) ==> listed(list@, keys@[j]),
            decreases keys@.len() - i,
        {
            let code = keys[i];
            assert(keys@.contains(code));
            let wanted: bool = match tid {
                Some(id) => code.0 == id,
                None => true,
            };
            let ghost before = list@;
            if wanted {
                let key = DemuxKey::from_code(code);
                if let Some(snapshot) = self.get(&key) {
                    list.push((key, snapshot));
                    assert forall|j: int|
                        0 <= j < i && asked_for(#[trigger] keys@[j], tid) implies listed(
                        list@,
                        keys@[j],
                    ) by {
                        let k = choose|k: int|
                            0 <= k < before.len() && (#[trigger] before[k]).0@ == keys@[j];
                        assert(list@[k].0@ == keys@[j]);
                    }
                    assert(list@[list@.len() - 1].0@ == code);
                }
            }
            i = i + 1;
        }
        assert forall|code: (u16, u8, u128)| #[trigger]
            self@.dom().contains(code) && asked_for(code, tid) implies listed(list@, code) by {
            assert(keys@.contains(code));
            let j = choose|j: int| 0 <= j < keys@.len() && keys@[j] == code;
            assert(asked_for(keys@[j], tid));
        }
        list
    }

    /// Find all tunnels with a given tunnel ID (across different peers).
    pub fn find_by_tunnel_id(&self, tid: u16) -> (found: Vec<(DemuxKey, TunnelSnapshot)>)
        requires
            self.wf(),
        ensures
            lists(found@, self@, Some(tid)),
    {
        self.list(Some(tid))
    }

    /// All registered tunnels.
    pub fn iter(&self) -> (all: Vec<(DemuxKey, TunnelSnapshot)>)
        requires
            self.wf(),
        ensures
            lists(all@, self@, None),
            all@.len() == self@.dom().len(),
    {
        let all = self.list(None);
        proof {
            law_list_is_complete(all@, self@);
        }
        all
    }
}

impl Default for TunnelRegistry {
    fn default() -> (registry: Self)
        ensures
            registry.wf(),
            registry@ == no_tunnels(),
    {
        TunnelRegistry::new()
    }
}

/// A list of all tunnels has as many entries as there are tunnels.
pub proof fn law_list_is_complete(
    list: Seq<(DemuxKey, TunnelSnapshot)>,
    map: Map<(u16, u8, u128), TunnelHandle>,
)
    requires
        lists(list, map, None),
    ensures
        list.len() == map.dom().len(),
{
    let codes = list.map_values(|entry: (DemuxKey, TunnelSnapshot)| entry.0@);
    assert(codes.no_duplicates()) by {
        assert forall|i: int, j: int|
            0 <= i < codes.len() && 0 <= j < codes.len() && i != j implies codes[i]
            != codes[j] by {
            assert(codes[i] == list[i].0@);
            assert(codes[j] == list[j].0@);
        }
    }
    assert(codes.to_set() =~= map.dom()) by {
        assert forall|code: (u16, u8, u128)| codes.to_set().contains(code) implies map.dom().contains(
            code,
        ) by {
            let i = choose|i: int| 0 <= i < codes.len() && codes[i] == code;
            assert(list[i].0@ == code);
        }
        assert forall|code: (u16, u8, u128)| map.dom().contains(code) implies codes.to_set().contains(
            code,
        ) by {
            assert(asked_for(code, None));
            let i = choose|i: int| 0 <= i < list.len() && (#[trigger] list[i]).0@ == code;
            assert(codes[i] == code);
        }
    }
    codes.unique_seq_to_set();
}

/// The tunnels of one ID are found exactly if there are any.
pub proof fn law_found_iff_registered(
    list: Seq<(DemuxKey, TunnelSnapshot)>,
    map: Map<(u16, u8, u128), TunnelHandle>,
    tid: u16,
)
    requires
        lists(list, map, Some(tid)),
    ensures
        list.len() == 0 <==> forall|code: (u16, u8, u128)|
            #[trigger] map.dom().contains(code) ==> code.0 != tid,
{
    if list.len() > 0 {
        assert(map.dom().contains(list[0].0@));
    }
    assert forall|code: (u16, u8, u128)| list.len() == 0 && #[trigger] map.dom().contains(
        code,
    ) implies code.0 != tid by {
        assert(asked_for(code, Some(tid)) ==> listed(list, code));
    }
}

/// A tunnel that was inserted is found, with the state it was inserted with; a
/// tunnel that was removed is not; and no other tunnel is affected.
pub proof fn law_lookup_after_change(
    map: Map<(u16, u8, u128), TunnelHandle>,
    key: DemuxKey,
    handle: TunnelHandle,
    other: DemuxKey,
)
    ensures
        lookup(map.insert(key@, handle), key) == Some(snapshot_of(handle)),
        lookup(map.remove(key@), key) is None,
        other != key ==> lookup(map.insert(key@, handle), other) == lookup(map, other),
        other != key ==> lookup(map.remove(key@), other) == lookup(map, other),
{
    if other@ == key@ {
        law_key_code_injective(other, key);
    }
}

/// Inserting a tunnel under a new key makes one more; under a key that is
/// taken, it replaces the one that was there.
pub proof fn law_count_after_insert(
    map: Map<(u16, u8, u128), TunnelHandle>,
    key: DemuxKey,
    handle: TunnelHandle,
)
    requires
        registry_wf(map),
    ensures
        map.dom().contains(key@) ==> map.insert(key@, handle).dom().len() == map.dom().len(),
        !map.dom().contains(key@) ==> map.insert(key@, handle).dom().len() == map.dom().len() + 1,
        map.dom().contains(key@) ==> map.remove(key@).dom().len() == map.dom().len() - 1,
{
    if map.dom().contains(key@) {
        assert(map.insert(key@, handle).dom() =~= map.dom());
    }
}

/// A list holds exactly the registered tunnels that are asked for: each entry is
/// one of them with its present state, none comes twice, and each of them is there.
pub proof fn law_list_holds_what_is_asked_for(
    list: Seq<(DemuxKey, TunnelSnapshot)>,
    map: Map<(u16, u8, u128), TunnelHandle>,
    tid: Option<u16>,
    key: DemuxKey,
)
    requires
        lists(list, map, tid),
    ensures
        forall|i: int|
            0 <= i < list.len() ==> map.dom().contains((#[trigger] list[i]).0@) && list[i].1
                == snapshot_of(map[list[i].0@]),
        tid matches Some(id) ==> forall|i: int|
            0 <= i < list.len() ==> (#[trigger] list[i]).0.tunnel_id == id,
        forall|i: int, j: int|
            0 <= i < j < list.len() ==> (#[trigger] list[i]).0 != (#[trigger] list[j]).0,
        map.dom().contains(key@) && (tid is None || tid == Some(key.tunnel_id)) ==> exists|i: int|
            0 <= i < list.len() && (#[trigger] list[i]).0 == key,
{
    assert forall|i: int| 0 <= i < list.len() implies map.dom().contains((#[trigger] list[i]).0@)
        && list[i].1 == snapshot_of(map[list[i].0@]) && (tid is Some ==> list[i].0.tunnel_id
        == tid->0) by {
        assert(asked_for(list[i].0@, tid));
    }
    assert forall|i: int, j: int| 0 <= i < j < list.len() implies (#[trigger] list[i]).0 != (
    #[trigger] list[j]).0 by {
        assert(list[i].0@ != list[j].0@);
    }
    if map.dom().contains(key@) && (tid is None || tid == Some(key.tunnel_id)) {
        assert(asked_for(key@, tid));
        assert(listed(list, key@));
        let i = choose|i: int| 0 <= i < list.len() && (#[trigger] list[i]).0@ == key@;
        law_key_code_injective(list[i].0, key);
        assert(list[i].0 == key);
    }
}

/// A look-up finds a tunnel exactly if it is registered under the ID and the peer,
/// and tells its present state.
pub proof fn law_lookup(map: Map<(u16, u8, u128), TunnelHandle>, key: DemuxKey)
    ensures
        lookup(map, key) is Some <==> map.dom().contains(key@),
        map.dom().contains(key@) ==> lookup(map, key)->0.config == map[key@].config && lookup(
            map,
            key,
        )->0.state == map[key@].state@ && lookup(map, key)->0.stats == map[key@].stats && lookup(
            map,
            key,
        )->0.actual_mtu == map[key@].actual_mtu,
        no_tunnels().dom().len() == 0,
        lookup(no_tunnels(), key) is None,
{
}

} // verus!
