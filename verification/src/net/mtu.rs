//! Outgoing-interface MTU.
//!
//! The path MTU to a remote peer is that of the interface that packets to it
//! leave by; the overlay MTU is what is left of it after the EoIP overhead.
//! Asking the operating system is the caller's.

use crate::addr::be_value;
use crate::addr::IpAddr;
use crate::text::decimal;
use crate::text::from_utf8_lossy;
use crate::text::law_decimal_reads_back;
use crate::text::law_trimmed;
use crate::text::law_u16_reads_back;
use crate::text::law_white_space;
use crate::text::parse_u16_trimmed;
use crate::text::trimmed;
use crate::text::u16_value;
use crate::text::utf8_lossy;
use vstd::prelude::*;
use vstd::string::*;

verus! {

/// EoIP encapsulation overhead: 20 (IP) + 8 (GRE/EoIP) + 14 (inner Ethernet).
pub const EOIP_OVERHEAD: u16 = 42;

/// IPsec ESP overhead for AES-256-CBC + SHA1:
/// 8 (ESP header) + 16 (AES-CBC IV) + 2 (pad length + next header) + 12 (SHA1 auth tag) = 38.
pub const IPSEC_ESP_OVERHEAD: u16 = 38;

/// Minimum sane overlay MTU (matches IPv4 minimum 576 - 42).
pub const MIN_OVERLAY_MTU: u16 = 534;

/// Default overlay MTU when detection fails (1500 - 42).
pub const DEFAULT_OVERLAY_MTU: u16 = 1458;

/// Path MTU that is assumed when detection fails.
pub const DEFAULT_PATH_MTU: u16 = 1500;

/// The overlay MTU over a path: what the overhead leaves of it, but no less
/// than the minimum.
pub open spec fn overlay_of(path_mtu: u16) -> u16 {
    if path_mtu < EOIP_OVERHEAD + MIN_OVERLAY_MTU {
        MIN_OVERLAY_MTU
    } else {
        (path_mtu - EOIP_OVERHEAD) as u16
    }
}

/// The overlay MTU over a path.
pub fn overlay_mtu(path_mtu: u16) -> (overlay: u16)
    ensures
        overlay == overlay_of(path_mtu),
{
    let overlay: u16 = path_mtu.saturating_sub(EOIP_OVERHEAD);
    if overlay < MIN_OVERLAY_MTU {
        MIN_OVERLAY_MTU
    } else {
        overlay
    }
}

/// The path MTU, given what detection found (`None` if it failed).
pub fn detect_interface_mtu(detected: Option<u16>) -> (path_mtu: u16)
    ensures
        path_mtu == (match detected {
            Some(mtu) => mtu,
            None => DEFAULT_PATH_MTU,
        }),
{
    match detected {
        Some(mtu) => mtu,
        None => DEFAULT_PATH_MTU,
    }
}

/// The overlay MTU, given the path MTU that detection found.
pub fn auto_overlay_mtu(detected: Option<u16>) -> (overlay: u16)
    ensures
        overlay == (match detected {
            Some(mtu) => overlay_of(mtu),
            None => DEFAULT_OVERLAY_MTU,
        }),
{
    overlay_mtu(detect_interface_mtu(detected))
}

/// Where the kernel keeps the MTU of an interface.
pub fn sys_mtu_path(iface: &str) -> (path: String)
    ensures
        path@ == "/sys/class/net/"@ + iface@ + "/mtu"@,
{
    let mut path = String::from_str("/sys/class/net/");
    path.append(iface);
    path.append("/mtu");
    path
}

/// The MTU that such a file holds: a decimal number of 16 bits, with white
/// space around it.
pub fn parse_sys_mtu(contents: &str) -> (mtu: Option<u16>)
    ensures
        mtu == u16_value(trimmed(contents@)),
{
    parse_u16_trimmed(contents)
}

/// Where the first NUL byte is; the length if there is none.
pub open spec fn nul_position(bytes: Seq<u8>) -> nat
    decreases bytes.len(),
{
    if bytes.len() == 0 || bytes[0] == 0 {
        0
    } else {
        1 + nul_position(bytes.drop_first())
    }
}

/// The name in a NUL-terminated buffer, empty if nothing ends it.
pub open spec fn c_name(bytes: Seq<u8>) -> Seq<char> {
    if nul_position(bytes) < bytes.len() {
        utf8_lossy(bytes.subrange(0, nul_position(bytes) as int))
    } else {
        Seq::empty()
    }
}

proof fn lemma_nul_position(bytes: Seq<u8>, end: int)
    requires
        0 <= end <= bytes.len(),
        forall|i: int| 0 <= i < end ==> bytes[i] != 0,
        end < bytes.len() ==> bytes[end] == 0,
    ensures
        nul_position(bytes) == end,
    decreases bytes.len(),
{
    if end > 0 {
        lemma_nul_position(bytes.drop_first(), end - 1);
    }
}

/// The interface name in a NUL-terminated buffer, empty if nothing ends it.
pub fn interface_name(bytes: &[u8]) -> (name: String)
    ensures
        name@ == c_name(bytes@),
{
    let mut end: usize = 0;
    while end < bytes.len()
        invariant
            end <= bytes@.len(),
            forall|i: int| 0 <= i < end ==> bytes@[i] != 0,
        decreases bytes@.len() - end,
    {
        if bytes[end] == 0 {
            proof {
                lemma_nul_position(bytes@, end as int);
            }
            return from_utf8_lossy(&bytes[0..end]);
        }
        end = end + 1;
    }
    proof {
        lemma_nul_position(bytes@, end as int);
    }
    String::new()
}

/// Address family numbers of Linux.
pub const AF_INET: i32 = 2;

pub const AF_INET6: i32 = 10;

/// The address in a socket address of the given family, whose octets stand in
/// `v4` if it is IPv4 and in `v6` if it is IPv6. `None` of another family.
pub fn sockaddr_to_ip(family: i32, v4: &[u8], v6: &[u8]) -> (addr: Option<IpAddr>)
    requires
        v4@.len() == 4,
        v6@.len() == 16,
    ensures
        addr is Some <==> family == AF_INET || family == AF_INET6,
        family == AF_INET ==> addr->0 is V4 && addr->0->V4_0 == be_value(v4@),
        family == AF_INET6 ==> addr->0 is V6 && addr->0->V6_0 == be_value(v6@),
{
    if family == AF_INET {
        assert(v4@ =~= seq![v4@[0], v4@[1], v4@[2], v4@[3]]);
        Some(IpAddr::from_v4_octets(v4[0], v4[1], v4[2], v4[3]))
    } else if family == AF_INET6 {
        Some(IpAddr::from_v6_octets(v6))
    } else {
        None
    }
}

/// An interface's address, and the interface's index if it has a name.
#[derive(Debug, Clone, Copy, PartialEq, Eq, Structural)]
pub struct InterfaceAddr {
    /// `None` if the address is of another family than IPv4 and IPv6.
    pub addr: Option<IpAddr>,
    pub index: Option<u32>,
}

/// The index of the first interface with this address, 0 if there is none or
/// it has no name.
pub open spec fn index_with_addr(interfaces: Seq<InterfaceAddr>, source: IpAddr) -> u32
    decreases interfaces.len(),
{
    if interfaces.len() == 0 {
        0
    } else if interfaces[0].addr == Some(source) {
        match interfaces[0].index {
            Some(index) => index,
            None => 0,
        }
    } else {
        index_with_addr(interfaces.drop_first(), source)
    }
}

/// The index of the interface that packets from `source` leave by: that of the
/// first interface with this address. 0 if there is none, if it has no name,
/// or if the source address is of another family.
pub fn interface_index(interfaces: &Vec<InterfaceAddr>, source: Option<IpAddr>) -> (index: u32)
    ensures
        index == (match source {
            Some(addr) => index_with_addr(interfaces@, addr),
            None => 0,
        }),
{
    let wanted = match source {
        Some(addr) => addr,
        None => {
            return 0;
        },
    };
    let mut i: usize = 0;
    assert(interfaces@.subrange(0, interfaces@.len() as int) =~= interfaces@);
    while i < interfaces.len()
        invariant
            source == Some(wanted),
            i <= interfaces@.len(),
            index_with_addr(interfaces@, wanted) == index_with_addr(
                interfaces@.subrange(i as int, interfaces@.len() as int),
                wanted,
            ),
        decreases interfaces@.len() - i,
    {
        let matching: bool = match interfaces[i].addr {
            Some(addr) => addr == wanted,
            None => false,
        };
        if matching {
            return match interfaces[i].index {
                Some(index) => index,
                None => 0,
            };
        }
        assert(interfaces@.subrange(i as int, interfaces@.len() as int).drop_first()
            =~= interfaces@.subrange(i + 1, interfaces@.len() as int));
        i = i + 1;
    }
    0
}

/// What detection does next.
#[derive(Debug)]
pub enum MtuStep {
    /// Read the MTU of the interface of this name.
    ReadMtuOf(String),
    /// Find the index of the interface that has the socket's source address.
    FindIndex,
    /// Find the name of the interface with this index.
    FindName(u32),
    /// Nothing is left to ask: take the default.
    UseDefault,
}

/// What detection does once it has asked which device the socket is bound to:
/// `device` is what came back, `None` if that failed.
pub fn after_bound_device(device: Option<&[u8]>) -> (step: MtuStep)
    ensures
        device matches Some(bytes) && bytes@.len() > 1 && c_name(bytes@).len() > 0 ==> {
            &&& step is ReadMtuOf
            &&& step->ReadMtuOf_0@ == c_name(device->0@)
        },
        !(device matches Some(bytes) && bytes@.len() > 1 && c_name(bytes@).len() > 0)
            ==> step is FindIndex,
{
    if let Some(bytes) = device {
        if bytes.len() > 1 {
            let name = interface_name(bytes);
            if !name.as_str().is_empty() {
                return MtuStep::ReadMtuOf(name);
            }
        }
    }
    MtuStep::FindIndex
}

/// What detection does once it has an interface's index, 0 if there is none.
pub fn after_index(index: u32) -> (step: MtuStep)
    ensures
        step == (if index > 0 {
            MtuStep::FindName(index)
        } else {
            MtuStep::UseDefault
        }),
{
    if index > 0 {
        MtuStep::FindName(index)
    } else {
        MtuStep::UseDefault
    }
}

/// What detection does once it has asked for the name of an interface, as a
/// NUL-terminated buffer, `None` if there is no such interface.
pub fn after_index_name(name: Option<&[u8]>) -> (step: MtuStep)
    ensures
        name matches Some(bytes) && c_name(bytes@).len() > 0 ==> {
            &&& step is ReadMtuOf
            &&& step->ReadMtuOf_0@ == c_name(name->0@)
        },
        !(name matches Some(bytes) && c_name(bytes@).len() > 0) ==> step is UseDefault,
{
    if let Some(bytes) = name {
        let name = interface_name(bytes);
        if !name.as_str().is_empty() {
            return MtuStep::ReadMtuOf(name);
        }
    }
    MtuStep::UseDefault
}

/// An interface MTU of 32 bits, cut to the range of a path MTU.
pub fn clamp_mtu(mtu: u32) -> (path_mtu: u16)
    ensures
        path_mtu == (if mtu > u16::MAX {
            u16::MAX
        } else {
            mtu as u16
        }),
{
    if mtu > 65535 {
        65535
    } else {
        mtu as u16
    }
}

/// The overlay MTU is at least the minimum, never larger than the path MTU
/// where the path carries the minimum, and grows with the path MTU.
pub proof fn law_overlay_mtu(a: u16, b: u16)
    ensures
        overlay_of(a) >= MIN_OVERLAY_MTU,
        a >= MIN_OVERLAY_MTU ==> overlay_of(a) <= a,
        a >= EOIP_OVERHEAD + MIN_OVERLAY_MTU ==> overlay_of(a) + EOIP_OVERHEAD == a,
        a <= b ==> overlay_of(a) <= overlay_of(b),
        overlay_of(DEFAULT_PATH_MTU) == DEFAULT_OVERLAY_MTU,
{
}

/// The overlay MTU is the path MTU less 42 bytes, and never less than 534.
pub proof fn law_overlay_is_path_less_overhead(path_mtu: u16)
    ensures
        path_mtu >= 576 ==> overlay_of(path_mtu) == path_mtu - 42,
        path_mtu < 576 ==> overlay_of(path_mtu) == 534,
{
}

/// The name in a buffer is what stands before the first NUL byte; a buffer without
/// one holds no name.
pub proof fn law_name_ends_at_nul(name: Seq<u8>, rest: Seq<u8>)
    requires
        forall|i: int| 0 <= i < name.len() ==> name[i] != 0,
    ensures
        c_name(name.push(0) + rest) == utf8_lossy(name),
        c_name(name).len() == 0,
{
    let bytes = name.push(0) + rest;
    lemma_nul_position(bytes, name.len() as int);
    lemma_nul_position(name, name.len() as int);
    assert(bytes.subrange(0, name.len() as int) =~= name);
}

/// The file of an interface's MTU is read back: a decimal number of 16 bits with a
/// line end behind it, as the kernel writes it, gives the number, and a larger one
/// gives none.
pub proof fn law_sys_mtu_reads_back(mtu: nat)
    ensures
        mtu <= 0xffff ==> u16_value(trimmed(decimal(mtu).push('\n'))) == Some(mtu as u16),
        mtu > 0xffff ==> u16_value(trimmed(decimal(mtu).push('\n'))) is None,
{
    law_decimal_reads_back(mtu);
    law_u16_reads_back(mtu, Seq::empty());
    let digits = decimal(mtu);
    law_white_space(digits[0]);
    law_white_space(digits.last());
    assert('0' <= digits[0] <= '9');
    assert('0' <= digits.last() <= '9');
    law_trimmed(Seq::empty(), digits, seq!['\n']);
    assert(Seq::<char>::empty() + digits + seq!['\n'] =~= digits.push('\n'));
}

/// The interface that packets from an address leave by is the first one that has
/// it, whatever comes after; no interface is found if none has it.
pub proof fn law_first_interface_with_address(
    before: Seq<InterfaceAddr>,
    interface: InterfaceAddr,
    rest: Seq<InterfaceAddr>,
    source: IpAddr,
)
    requires
        forall|i: int| 0 <= i < before.len() ==> (#[trigger] before[i]).addr != Some(source),
    ensures
        interface.addr == Some(source) && interface.index is Some ==> index_with_addr(
            before.push(interface) + rest,
            source,
        ) == interface.index->0,
        interface.addr == Some(source) && interface.index is None ==> index_with_addr(
            before.push(interface) + rest,
            source,
        ) == 0,
        index_with_addr(before, source) == 0,
    decreases before.len(),
{
    let all = before.push(interface) + rest;
    if before.len() > 0 {
        assert(all[0] == before[0]);
        assert(all.drop_first() =~= before.drop_first().push(interface) + rest);
        law_first_interface_with_address(before.drop_first(), interface, rest, source);
    } else {
        assert(all[0] == interface);
    }
}

} // verus!
