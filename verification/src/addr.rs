//! IP addresses and the key that received packets are demultiplexed by.

use vstd::arithmetic::power::pow;
use vstd::prelude::*;

verus! {

/// An IPv4 or IPv6 address, held as the number that its octets stand for in
/// network order.
#[derive(Debug, Clone, Copy, PartialEq, Eq, Hash, Structural)]
pub enum IpAddr {
    V4(u32),
    V6(u128),
}

/// The number that bytes stand for, the most significant first.
pub open spec fn be_value(bytes: Seq<u8>) -> nat
    decreases bytes.len(),
{
    if bytes.len() == 0 {
        0
    } else {
        be_value(bytes.drop_last()) * 256 + bytes.last() as nat
    }
}

/// `n` bytes stand for a number below `256^n`.
proof fn lemma_be_value_bound(bytes: Seq<u8>)
    ensures
        be_value(bytes) < pow(256, bytes.len()),
    decreases bytes.len(),
{
    reveal(pow);
    if bytes.len() > 0 {
        lemma_be_value_bound(bytes.drop_last());
    }
}

impl IpAddr {
    pub fn is_ipv4(&self) -> (v4: bool)
        ensures
            v4 == (self is V4),
    {
        match self {
            IpAddr::V4(_) => true,
            IpAddr::V6(_) => false,
        }
    }

    pub fn is_ipv6(&self) -> (v6: bool)
        ensures
            v6 == (self is V6),
    {
        match self {
            IpAddr::V4(_) => false,
            IpAddr::V6(_) => true,
        }
    }

    /// The IPv4 address with these octets.
    pub fn from_v4_octets(a: u8, b: u8, c: u8, d: u8) -> (addr: IpAddr)
        ensures
            addr is V4,
            addr->V4_0 == be_value(seq![a, b, c, d]),
    {
        proof {
            reveal_with_fuel(be_value, 5);
            let s = seq![a, b, c, d];
            assert(s.drop_last() =~= seq![a, b, c]);
            assert(seq![a, b, c].drop_last() =~= seq![a, b]);
            assert(seq![a, b].drop_last() =~= seq![a]);
            assert(seq![a].drop_last() =~= Seq::<u8>::empty());
        }
        IpAddr::V4(((a as u32 * 256 + b as u32) * 256 + c as u32) * 256 + d as u32)
    }

    /// The IPv6 address with these sixteen octets.
    pub fn from_v6_octets(octets: &[u8]) -> (addr: IpAddr)
        requires
            octets@.len() == 16,
        ensures
            addr is V6,
            addr->V6_0 == be_value(octets@),
    {
        let mut value: u128 = 0;
        let mut i: usize = 0;
        assert(octets@.subrange(0, 0) =~= Seq::<u8>::empty());
        while i < 16
            invariant
                octets@.len() == 16,
                i <= 16,
                value == be_value(octets@.subrange(0, i as int)),
            decreases 16 - i,
        {
            let ghost next = octets@.subrange(0, i + 1);
            proof {
                assert(next.drop_last() =~= octets@.subrange(0, i as int));
                lemma_be_value_bound(next);
                lemma_pow_256(next.len());
            }
            value = value * 256 + octets[i] as u128;
            i = i + 1;
        }
        assert(octets@.subrange(0, 16) =~= octets@);
        IpAddr::V6(value)
    }
}

/// Up to sixteen bytes stand for a number of at most 128 bits.
proof fn lemma_pow_256(n: nat)
    requires
        n <= 16,
    ensures
        pow(256, n) <= u128::MAX + 1,
{
    reveal_with_fuel(pow, 17);
}

/// What packets of one tunnel are told apart by: the tunnel ID and the peer
/// that they come from.
#[derive(Debug, Clone, Copy, PartialEq, Eq, Hash, Structural)]
pub struct DemuxKey {
    pub tunnel_id: u16,
    pub peer_addr: IpAddr,
}

impl View for DemuxKey {
    type V = (u16, u8, u128);

    /// The key as integers: tunnel ID, address family (4 or 6), address.
    open spec fn view(&self) -> (u16, u8, u128) {
        match self.peer_addr {
            IpAddr::V4(a) => (self.tunnel_id, 4, a as u128),
            IpAddr::V6(a) => (self.tunnel_id, 6, a),
        }
    }
}

/// The integers stand for a key.
pub open spec fn is_key_code(code: (u16, u8, u128)) -> bool {
    (code.1 == 4 && code.2 <= u32::MAX) || code.1 == 6
}

impl DemuxKey {
    /// The key as integers: tunnel ID, address family (4 or 6), address.
    pub fn code(&self) -> (code: (u16, u8, u128))
        ensures
            code == self@,
            is_key_code(code),
    {
        match self.peer_addr {
            IpAddr::V4(a) => (self.tunnel_id, 4, a as u128),
            IpAddr::V6(a) => (self.tunnel_id, 6, a),
        }
    }

    /// The key that the integers stand for.
    pub fn from_code(code: (u16, u8, u128)) -> (key: DemuxKey)
        requires
            is_key_code(code),
        ensures
            key@ == code,
    {
        let peer_addr = if code.1 == 4 {
            IpAddr::V4(code.2 as u32)
        } else {
            IpAddr::V6(code.2)
        };
        DemuxKey { tunnel_id: code.0, peer_addr }
    }
}

/// Two keys with the same tunnel ID and peer are the same key, and no others
/// share their integers.
pub proof fn law_key_code_injective(a: DemuxKey, b: DemuxKey)
    requires
        a@ == b@,
    ensures
        a == b,
{
}

/// Four octets stand for the number that they spell in base 256, the first one
/// being the most significant.
pub proof fn law_four_octets(a: u8, b: u8, c: u8, d: u8)
    ensures
        be_value(seq![a, b, c, d]) == a * 0x100_0000 + b * 0x1_0000 + c * 0x100 + d,
{
    reveal_with_fuel(be_value, 5);
    let s = seq![a, b, c, d];
    assert(s.drop_last() =~= seq![a, b, c]);
    assert(seq![a, b, c].drop_last() =~= seq![a, b]);
    assert(seq![a, b].drop_last() =~= seq![a]);
    assert(seq![a].drop_last() =~= Seq::<u8>::empty());
}

/// Different octets of the same number stand for different addresses, and one
/// more octet shifts the number by eight bits.
pub proof fn law_octets_injective(a: Seq<u8>, b: Seq<u8>, more: u8)
    requires
        a.len() == b.len(),
    ensures
        be_value(a) == be_value(b) <==> a == b,
        be_value(Seq::<u8>::empty()) == 0,
        be_value(a.push(more)) == be_value(a) * 256 + more,
    decreases a.len(),
{
    assert(a.push(more).drop_last() =~= a);
    if a.len() > 0 {
        law_octets_injective(a.drop_last(), b.drop_last(), more);
        if be_value(a) == be_value(b) {
            assert(a.last() == b.last());
            assert(a =~= a.drop_last().push(a.last()));
            assert(b =~= b.drop_last().push(b.last()));
        }
    } else {
        assert(a =~= b);
    }
}

/// A key's integers tell its tunnel ID, its family and its address.
pub proof fn law_key_code(key: DemuxKey)
    ensures
        key@.0 == key.tunnel_id,
        key.peer_addr matches IpAddr::V4(addr) ==> key@.1 == 4 && key@.2 == addr,
        key.peer_addr matches IpAddr::V6(addr) ==> key@.1 == 6 && key@.2 == addr,
        is_key_code(key@),
{
}

} // verus!
