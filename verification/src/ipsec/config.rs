//! VICI config generation matching MikroTik's exact IKE/ESP parameters.

use crate::ipsec::vici::item;
use crate::ipsec::vici::kv;
use crate::ipsec::vici::last_value;
use crate::ipsec::vici::law_last_value;
use crate::ipsec::vici::message_elements;
use crate::ipsec::vici::message_kv_bytes;
use crate::ipsec::vici::message_kv_str;
use crate::ipsec::vici::message_list_end;
use crate::ipsec::vici::message_list_item_str;
use crate::ipsec::vici::message_list_start;
use crate::ipsec::vici::message_new;
use crate::ipsec::vici::message_section_end;
use crate::ipsec::vici::message_section_start;
use crate::ipsec::vici::ViciElement;
use crate::text::decimal;
use crate::text::law_decimal_injective;
use crate::text::to_decimal;
use rustici::Message;
use vstd::prelude::*;
use vstd::string::*;
use vstd::utf8::*;

verus! {

/// Per-tunnel IPsec configuration for VICI. Addresses are held as text.
#[derive(Debug)]
pub struct IpsecTunnelConfig {
    pub tunnel_id: u16,
    pub local_addr: String,
    pub remote_addr: String,
    pub secret: String,
}

/// Connection name used in strongSwan.
pub open spec fn conn_name_of(tunnel_id: u16) -> Seq<char> {
    "eoip-"@ + decimal(tunnel_id as nat)
}

/// Child SA name.
pub open spec fn child_name_of(tunnel_id: u16) -> Seq<char> {
    "eoip-"@ + decimal(tunnel_id as nat) + "-gre"@
}

/// The name of a tunnel's pre-shared key.
pub open spec fn psk_id_of(tunnel_id: u16) -> Seq<char> {
    "eoip-psk-"@ + decimal(tunnel_id as nat)
}

/// One end of the connection: a section that names its authentication and identity.
pub open spec fn end_elements(name: Seq<char>, addr: Seq<char>) -> Seq<ViciElement> {
    seq![
        ViciElement::SectionStart(name),
        kv("auth"@, "psk"@),
        kv("id"@, addr),
        ViciElement::SectionEnd,
    ]
}

/// IKE proposals matching MikroTik Phase 1 offers.
pub open spec fn ike_proposal_elements() -> Seq<ViciElement> {
    seq![
        ViciElement::ListStart("proposals"@),
        item("aes128-sha1-modp2048"@),
        item("aes128-sha1-modp1024"@),
        item("3des-sha1-modp2048"@),
        item("3des-sha1-modp1024"@),
        ViciElement::ListEnd,
    ]
}

/// ESP proposals matching MikroTik Phase 2 offers.
pub open spec fn esp_proposal_elements() -> Seq<ViciElement> {
    seq![
        ViciElement::ListStart("esp_proposals"@),
        item("aes256-sha1-modp1024"@),
        item("aes192-sha1-modp1024"@),
        item("aes128-sha1-modp1024"@),
        ViciElement::ListEnd,
    ]
}

/// A traffic selector: only GRE, at one end.
pub open spec fn selector_elements(name: Seq<char>, addr: Seq<char>) -> Seq<ViciElement> {
    seq![ViciElement::ListStart(name), item(addr + "[gre]"@), ViciElement::ListEnd]
}

/// The child SA: transport mode, between the two endpoints.
pub open spec fn child_elements(config: IpsecTunnelConfig) -> Seq<ViciElement> {
    seq![
        ViciElement::SectionStart(child_name_of(config.tunnel_id)),
        kv("mode"@, "transport"@),
    ] + esp_proposal_elements() + seq![kv("rekey_time"@, "30m"@)] + selector_elements(
        "local_ts"@,
        config.local_addr@,
    ) + selector_elements("remote_ts"@, config.remote_addr@) + seq![
        kv("replay_window"@, "128"@),
        kv("start_action"@, "start"@),
        kv("dpd_action"@, "restart"@),
        ViciElement::SectionEnd,
    ]
}

/// The `load-conn` message: IKEv1 main mode with MikroTik's parameters.
pub open spec fn connection_elements(config: IpsecTunnelConfig) -> Seq<ViciElement> {
    seq![ViciElement::SectionStart(conn_name_of(config.tunnel_id)), kv("version"@, "1"@)]
        + end_elements("local"@, config.local_addr@) + end_elements(
        "remote"@,
        config.remote_addr@,
    ) + ike_proposal_elements() + seq![
        kv("dpd_delay"@, "8s"@),
        kv("rekey_time"@, "24h"@),
        kv("local_addrs"@, config.local_addr@),
        kv("remote_addrs"@, config.remote_addr@),
        ViciElement::SectionStart("children"@),
    ] + child_elements(config) + seq![ViciElement::SectionEnd, ViciElement::SectionEnd]
}

/// The `load-shared` message: the pre-shared key and who owns it.
pub open spec fn shared_secret_elements(config: IpsecTunnelConfig) -> Seq<ViciElement> {
    seq![
        kv("id"@, psk_id_of(config.tunnel_id)),
        kv("type"@, "IKE"@),
        ViciElement::KeyValue("data"@, encode_utf8(config.secret@)),
        ViciElement::ListStart("owners"@),
        item(config.local_addr@),
        item(config.remote_addr@),
        ViciElement::ListEnd,
    ]
}

/// The message that names a child SA and its connection.
pub open spec fn child_reference_elements(config: IpsecTunnelConfig) -> Seq<ViciElement> {
    seq![
        kv("child"@, child_name_of(config.tunnel_id)),
        kv("ike"@, conn_name_of(config.tunnel_id)),
    ]
}

/// Append one end of the connection.
fn append_end(message: Message, name: &str, addr: &str) -> (longer: Message)
    ensures
        message_elements(longer) == message_elements(message) + end_elements(name@, addr@),
{
    let longer = message_section_start(message, name);
    let longer = message_kv_str(longer, "auth", "psk");
    let longer = message_kv_str(longer, "id", addr);
    let longer = message_section_end(longer);
    assert(message_elements(longer) =~= message_elements(message) + end_elements(name@, addr@));
    longer
}

/// Append the IKE proposals.
fn append_ike_proposals(message: Message) -> (longer: Message)
    ensures
        message_elements(longer) == message_elements(message) + ike_proposal_elements(),
{
    let longer = message_list_start(message, "proposals");
    let longer = message_list_item_str(longer, "aes128-sha1-modp2048");
    let longer = message_list_item_str(longer, "aes128-sha1-modp1024");
    let longer = message_list_item_str(longer, "3des-sha1-modp2048");
    let longer = message_list_item_str(longer, "3des-sha1-modp1024");
    let longer = message_list_end(longer);
    assert(message_elements(longer) =~= message_elements(message) + ike_proposal_elements());
    longer
}

/// Append the ESP proposals.
fn append_esp_proposals(message: Message) -> (longer: Message)
    ensures
        message_elements(longer) == message_elements(message) + esp_proposal_elements(),
{
    let longer = message_list_start(message, "esp_proposals");
    let longer = message_list_item_str(longer, "aes256-sha1-modp1024");
    let longer = message_list_item_str(longer, "aes192-sha1-modp1024");
    let longer = message_list_item_str(longer, "aes128-sha1-modp1024");
    let longer = message_list_end(longer);
    assert(message_elements(longer) =~= message_elements(message) + esp_proposal_elements());
    longer
}

/// Append a traffic selector.
fn append_selector(message: Message, name: &str, addr: &str) -> (longer: Message)
    ensures
        message_elements(longer) == message_elements(message) + selector_elements(name@, addr@),
{
    let mut selector = String::from_str(addr);
    selector.append("[gre]");
    let longer = message_list_start(message, name);
    let longer = message_list_item_str(longer, selector.as_str());
    let longer = message_list_end(longer);
    assert(message_elements(longer) =~= message_elements(message) + selector_elements(
        name@,
        addr@,
    ));
    longer
}

impl IpsecTunnelConfig {
    pub fn new(tunnel_id: u16, local_addr: String, remote_addr: String, secret: String) -> (config:
        Self)
        ensures
            config.tunnel_id == tunnel_id,
            config.local_addr == local_addr,
            config.remote_addr == remote_addr,
            config.secret == secret,
    {
        IpsecTunnelConfig { tunnel_id, local_addr, remote_addr, secret }
    }

    /// Connection name used in strongSwan (e.g., "eoip-100").
    pub fn conn_name(&self) -> (name: String)
        ensures
            name@ == conn_name_of(self.tunnel_id),
    {
        let mut name = String::from_str("eoip-");
        name.append(to_decimal(self.tunnel_id as u64).as_str());
        name
    }

    /// Child SA name (e.g., "eoip-100-gre").
    pub fn child_name(&self) -> (name: String)
        ensures
            name@ == child_name_of(self.tunnel_id),
    {
        let mut name = self.conn_name();
        name.append("-gre");
        name
    }

    /// Append the child SA.
    fn append_child(&self, message: Message) -> (longer: Message)
        ensures
            message_elements(longer) == message_elements(message) + child_elements(*self),
    {
        let longer = message_section_start(message, self.child_name().as_str());
        // Transport mode (NOT tunnel mode)
        let longer = message_kv_str(longer, "mode", "transport");
        let longer = append_esp_proposals(longer);
        // Child SA lifetime (Phase 2): 30 minutes
        let longer = message_kv_str(longer, "rekey_time", "30m");
        // Traffic selectors: only GRE between endpoints
        let longer = append_selector(longer, "local_ts", self.local_addr.as_str());
        let longer = append_selector(longer, "remote_ts", self.remote_addr.as_str());
        let longer = message_kv_str(longer, "replay_window", "128");
        // Start action: initiate immediately
        let longer = message_kv_str(longer, "start_action", "start");
        // DPD action: restart on peer timeout
        let longer = message_kv_str(longer, "dpd_action", "restart");
        let longer = message_section_end(longer);
        assert(message_elements(longer) =~= message_elements(message) + child_elements(*self));
        longer
    }

    /// Build VICI `load-conn` message matching MikroTik's IKEv1 parameters.
    ///
    /// MikroTik IKE Phase 1: IKEv1 main mode, AES-128+3DES / SHA1 / modp2048+modp1024
    /// MikroTik ESP Phase 2: AES-256-CBC + AES-192-CBC + AES-128-CBC / SHA1, transport mode
    pub fn to_vici_connection(&self) -> (message: Message)
        ensures
            message_elements(message) == connection_elements(*self),
    {
        let message = message_section_start(message_new(), self.conn_name().as_str());
        // IKEv1 main mode
        let message = message_kv_str(message, "version", "1");
        let message = append_end(message, "local", self.local_addr.as_str());
        let message = append_end(message, "remote", self.remote_addr.as_str());
        let message = append_ike_proposals(message);
        // DPD matching MikroTik (8s interval)
        let message = message_kv_str(message, "dpd_delay", "8s");
        // IKE SA lifetime (Phase 1): 24 hours
        let message = message_kv_str(message, "rekey_time", "24h");
        let message = message_kv_str(message, "local_addrs", self.local_addr.as_str());
        let message = message_kv_str(message, "remote_addrs", self.remote_addr.as_str());
        // Child SA (ESP)
        let message = message_section_start(message, "children");
        let message = self.append_child(message);
        let message = message_section_end(message);
        let message = message_section_end(message);
        assert(message_elements(message) =~= connection_elements(*self));
        message
    }

    /// Build VICI `load-shared` message for the pre-shared key.
    pub fn to_vici_shared_secret(&self) -> (message: Message)
        ensures
            message_elements(message) == shared_secret_elements(*self),
    {
        let mut id = String::from_str("eoip-psk-");
        id.append(to_decimal(self.tunnel_id as u64).as_str());
        let message = message_kv_str(message_new(), "id", id.as_str());
        let message = message_kv_str(message, "type", "IKE");
        let message = message_kv_bytes(message, "data", self.secret.as_str().as_bytes());
        let message = message_list_start(message, "owners");
        let message = message_list_item_str(message, self.local_addr.as_str());
        let message = message_list_item_str(message, self.remote_addr.as_str());
        let message = message_list_end(message);
        assert(message_elements(message) =~= shared_secret_elements(*self));
        message
    }

    /// The message that names the child SA and its connection.
    fn to_vici_child_reference(&self) -> (message: Message)
        ensures
            message_elements(message) == child_reference_elements(*self),
    {
        let message = message_kv_str(message_new(), "child", self.child_name().as_str());
        let message = message_kv_str(message, "ike", self.conn_name().as_str());
        assert(message_elements(message) =~= child_reference_elements(*self));
        message
    }

    /// Build VICI `initiate` message.
    pub fn to_vici_initiate(&self) -> (message: Message)
        ensures
            message_elements(message) == child_reference_elements(*self),
    {
        self.to_vici_child_reference()
    }

    /// Build VICI `terminate` message.
    pub fn to_vici_terminate(&self) -> (message: Message)
        ensures
            message_elements(message) == child_reference_elements(*self),
    {
        self.to_vici_child_reference()
    }

    /// Build VICI `unload-conn` message.
    pub fn to_vici_unload(&self) -> (message: Message)
        ensures
            message_elements(message) == seq![kv("name"@, conn_name_of(self.tunnel_id))],
    {
        let message = message_kv_str(message_new(), "name", self.conn_name().as_str());
        assert(message_elements(message) =~= seq![kv("name"@, conn_name_of(self.tunnel_id))]);
        message
    }
}

/// Where in sections and lists a message stands.
pub struct Nesting {
    /// How many sections are open.
    pub depth: int,
    /// Whether a list is open.
    pub in_list: bool,
    /// Whether every element so far was where it may be.
    pub ok: bool,
}

/// Where a message stands after one more element: sections nest, lists hold
/// items alone, and items stand in lists alone.
pub open spec fn nest(before: Nesting, element: ViciElement) -> Nesting {
    match element {
        ViciElement::SectionStart(_) => Nesting {
            depth: before.depth + 1,
            ok: before.ok && !before.in_list,
            ..before
        },
        ViciElement::SectionEnd => Nesting {
            depth: before.depth - 1,
            ok: before.ok && !before.in_list && before.depth > 0,
            ..before
        },
        ViciElement::KeyValue(_, _) => Nesting { ok: before.ok && !before.in_list, ..before },
        ViciElement::ListStart(_) => Nesting {
            in_list: true,
            ok: before.ok && !before.in_list,
            ..before
        },
        ViciElement::ListItem(_) => Nesting { ok: before.ok && before.in_list, ..before },
        ViciElement::ListEnd => Nesting {
            in_list: false,
            ok: before.ok && before.in_list,
            ..before
        },
    }
}

/// Where a message stands after a number of elements.
pub open spec fn nest_all(before: Nesting, elements: Seq<ViciElement>) -> Nesting
    decreases elements.len(),
{
    if elements.len() == 0 {
        before
    } else {
        nest(nest_all(before, elements.drop_last()), elements.last())
    }
}

/// Every section and list that is opened is closed, in the right order.
pub open spec fn balanced(elements: Seq<ViciElement>) -> bool {
    nest_all(Nesting { depth: 0, in_list: false, ok: true }, elements) == (Nesting {
        depth: 0,
        in_list: false,
        ok: true,
    })
}

broadcast proof fn lemma_nest_concat(before: Nesting, a: Seq<ViciElement>, b: Seq<ViciElement>)
    ensures
        #[trigger] nest_all(before, a + b) == nest_all(nest_all(before, a), b),
    decreases b.len(),
{
    if b.len() == 0 {
        assert(a + b =~= a);
    } else {
        lemma_nest_concat(before, a, b.drop_last());
        assert((a + b).drop_last() =~= a + b.drop_last());
    }
}

proof fn lemma_lists_nest(before: Nesting, name: Seq<char>, addr: Seq<char>)
    requires
        before.ok,
        !before.in_list,
    ensures
        nest_all(before, ike_proposal_elements()) == before,
        nest_all(before, esp_proposal_elements()) == before,
        nest_all(before, selector_elements(name, addr)) == before,
{
    reveal_with_fuel(nest_all, 8);
}

proof fn lemma_end_nests(before: Nesting, name: Seq<char>, addr: Seq<char>)
    requires
        before.ok,
        !before.in_list,
        before.depth >= 0,
    ensures
        nest_all(before, end_elements(name, addr)) == before,
{
    reveal_with_fuel(nest_all, 8);
}

proof fn lemma_child_nests(before: Nesting, config: IpsecTunnelConfig)
    requires
        before.ok,
        !before.in_list,
        before.depth >= 0,
    ensures
        nest_all(before, child_elements(config)) == before,
{
    broadcast use lemma_nest_concat;

    reveal_with_fuel(nest_all, 8);
    let inside = Nesting { depth: before.depth + 1, ..before };
    lemma_lists_nest(inside, "local_ts"@, config.local_addr@);
    lemma_lists_nest(inside, "remote_ts"@, config.remote_addr@);
}

/// What stands around the ends, proposals and child of a connection.
proof fn lemma_frame_nests(config: IpsecTunnelConfig)
    ensures
        ({
            let outside = Nesting { depth: 0, in_list: false, ok: true };
            let inside = Nesting { depth: 1, in_list: false, ok: true };
            let children = Nesting { depth: 2, in_list: false, ok: true };
            &&& nest_all(
                outside,
                seq![
                    ViciElement::SectionStart(conn_name_of(config.tunnel_id)),
                    kv("version"@, "1"@),
                ],
            ) == inside
            &&& nest_all(
                inside,
                seq![
                    kv("dpd_delay"@, "8s"@),
                    kv("rekey_time"@, "24h"@),
                    kv("local_addrs"@, config.local_addr@),
                    kv("remote_addrs"@, config.remote_addr@),
                    ViciElement::SectionStart("children"@),
                ],
            ) == children
            &&& nest_all(children, seq![ViciElement::SectionEnd, ViciElement::SectionEnd])
                == outside
        }),
{
    reveal_with_fuel(nest_all, 6);
}

proof fn lemma_small_messages_balanced(config: IpsecTunnelConfig)
    ensures
        balanced(shared_secret_elements(config)),
        balanced(child_reference_elements(config)),
        balanced(seq![kv("name"@, conn_name_of(config.tunnel_id))]),
{
    reveal_with_fuel(nest_all, 8);
}

/// The messages open and close their sections and lists in the right order.
pub proof fn law_messages_balanced(config: IpsecTunnelConfig)
    ensures
        balanced(connection_elements(config)),
        balanced(shared_secret_elements(config)),
        balanced(child_reference_elements(config)),
        balanced(seq![kv("name"@, conn_name_of(config.tunnel_id))]),
{
    broadcast use lemma_nest_concat;

    let inside = Nesting { depth: 1, in_list: false, ok: true };
    lemma_frame_nests(config);
    lemma_end_nests(inside, "local"@, config.local_addr@);
    lemma_end_nests(inside, "remote"@, config.remote_addr@);
    lemma_lists_nest(inside, "local_ts"@, config.local_addr@);
    lemma_child_nests(Nesting { depth: 2, in_list: false, ok: true }, config);
    lemma_small_messages_balanced(config);
}

/// Tunnels with different IDs have different connections, and different keys.
pub proof fn law_names_distinct(a: u16, b: u16)
    requires
        a != b,
    ensures
        conn_name_of(a) != conn_name_of(b),
        psk_id_of(a) != psk_id_of(b),
        child_name_of(a) != child_name_of(b),
{
    if conn_name_of(a) == conn_name_of(b) {
        lemma_same_tail("eoip-"@, decimal(a as nat), decimal(b as nat));
        law_decimal_injective(a as nat, b as nat);
    }
    if psk_id_of(a) == psk_id_of(b) {
        lemma_same_tail("eoip-psk-"@, decimal(a as nat), decimal(b as nat));
        law_decimal_injective(a as nat, b as nat);
    }
    if child_name_of(a) == child_name_of(b) {
        let x = child_name_of(a);
        let y = child_name_of(b);
        assert(x.subrange(0, x.len() - "-gre"@.len()) =~= conn_name_of(a));
        assert(y.subrange(0, y.len() - "-gre"@.len()) =~= conn_name_of(b));
        lemma_same_tail("eoip-"@, decimal(a as nat), decimal(b as nat));
        law_decimal_injective(a as nat, b as nat);
    }
}

proof fn lemma_same_tail(head: Seq<char>, a: Seq<char>, b: Seq<char>)
    requires
        head + a == head + b,
    ensures
        a == b,
{
    assert((head + a).subrange(head.len() as int, (head + a).len() as int) =~= a);
    assert((head + b).subrange(head.len() as int, (head + b).len() as int) =~= b);
}

/// The key that is loaded for a tunnel is its whole secret, under a name that tells
/// the tunnel, and both ends own it.
pub proof fn law_whole_secret_is_loaded(config: IpsecTunnelConfig)
    ensures
        last_value(shared_secret_elements(config), "data"@) == Some(encode_utf8(config.secret@)),
        shared_secret_elements(config) == seq![
            ViciElement::KeyValue(
                "id"@,
                encode_utf8("eoip-psk-"@ + decimal(config.tunnel_id as nat)),
            ),
            ViciElement::KeyValue("type"@, encode_utf8("IKE"@)),
            ViciElement::KeyValue("data"@, encode_utf8(config.secret@)),
            ViciElement::ListStart("owners"@),
            ViciElement::ListItem(encode_utf8(config.local_addr@)),
            ViciElement::ListItem(encode_utf8(config.remote_addr@)),
            ViciElement::ListEnd,
        ],
{
    let all = shared_secret_elements(config);
    let data = encode_utf8(config.secret@);
    let before = all.subrange(0, 2);
    let rest = all.subrange(3, all.len() as int);
    law_last_value(before, "data"@, data, rest);
    assert(all =~= before.push(ViciElement::KeyValue("data"@, data)) + rest);
}

/// Tunnels with different secrets load different keys, and those with the same one
/// the same.
pub proof fn law_secrets_differ(a: IpsecTunnelConfig, b: IpsecTunnelConfig)
    ensures
        last_value(shared_secret_elements(a), "data"@) == last_value(
            shared_secret_elements(b),
            "data"@,
        ) <==> a.secret@ == b.secret@,
{
    law_whole_secret_is_loaded(a);
    law_whole_secret_is_loaded(b);
    encode_utf8_decode_utf8(a.secret@);
    encode_utf8_decode_utf8(b.secret@);
}

/// The connection that is loaded, element by element: IKEv1 by pre-shared key
/// between the two addresses, with one child in transport mode that carries GRE
/// between them.
pub proof fn law_connection_is_loaded(config: IpsecTunnelConfig)
    ensures
        ({
            let id = decimal(config.tunnel_id as nat);
            let local = config.local_addr@;
            let remote = config.remote_addr@;
            connection_elements(config) == seq![
                ViciElement::SectionStart("eoip-"@ + id),
                ViciElement::KeyValue("version"@, encode_utf8("1"@)),
                ViciElement::SectionStart("local"@),
                ViciElement::KeyValue("auth"@, encode_utf8("psk"@)),
                ViciElement::KeyValue("id"@, encode_utf8(local)),
                ViciElement::SectionEnd,
                ViciElement::SectionStart("remote"@),
                ViciElement::KeyValue("auth"@, encode_utf8("psk"@)),
                ViciElement::KeyValue("id"@, encode_utf8(remote)),
                ViciElement::SectionEnd,
                ViciElement::ListStart("proposals"@),
                ViciElement::ListItem(encode_utf8("aes128-sha1-modp2048"@)),
                ViciElement::ListItem(encode_utf8("aes128-sha1-modp1024"@)),
                ViciElement::ListItem(encode_utf8("3des-sha1-modp2048"@)),
                ViciElement::ListItem(encode_utf8("3des-sha1-modp1024"@)),
                ViciElement::ListEnd,
                ViciElement::KeyValue("dpd_delay"@, encode_utf8("8s"@)),
                ViciElement::KeyValue("rekey_time"@, encode_utf8("24h"@)),
                ViciElement::KeyValue("local_addrs"@, encode_utf8(local)),
                ViciElement::KeyValue("remote_addrs"@, encode_utf8(remote)),
                ViciElement::SectionStart("children"@),
                ViciElement::SectionStart("eoip-"@ + id + "-gre"@),
                ViciElement::KeyValue("mode"@, encode_utf8("transport"@)),
                ViciElement::ListStart("esp_proposals"@),
                ViciElement::ListItem(encode_utf8("aes256-sha1-modp1024"@)),
                ViciElement::ListItem(encode_utf8("aes192-sha1-modp1024"@)),
                ViciElement::ListItem(encode_utf8("aes128-sha1-modp1024"@)),
                ViciElement::ListEnd,
                ViciElement::KeyValue("rekey_time"@, encode_utf8("30m"@)),
                ViciElement::ListStart("local_ts"@),
                ViciElement::ListItem(encode_utf8(local + "[gre]"@)),
                ViciElement::ListEnd,
                ViciElement::ListStart("remote_ts"@),
                ViciElement::ListItem(encode_utf8(remote + "[gre]"@)),
                ViciElement::ListEnd,
                ViciElement::KeyValue("replay_window"@, encode_utf8("128"@)),
                ViciElement::KeyValue("start_action"@, encode_utf8("start"@)),
                ViciElement::KeyValue("dpd_action"@, encode_utf8("restart"@)),
                ViciElement::SectionEnd,
                ViciElement::SectionEnd,
                ViciElement::SectionEnd,
            ]
        }),
{
}

/// An association is named by its child and its connection, which the tunnel ID
/// gives, so that what is initiated and terminated is what was loaded.
pub proof fn law_association_is_named(config: IpsecTunnelConfig)
    ensures
        ({
            let id = decimal(config.tunnel_id as nat);
            &&& conn_name_of(config.tunnel_id) == "eoip-"@ + id
            &&& child_name_of(config.tunnel_id) == "eoip-"@ + id + "-gre"@
            &&& psk_id_of(config.tunnel_id) == "eoip-psk-"@ + id
            &&& child_reference_elements(config) == seq![
                ViciElement::KeyValue("child"@, encode_utf8("eoip-"@ + id + "-gre"@)),
                ViciElement::KeyValue("ike"@, encode_utf8("eoip-"@ + id)),
            ]
        }),
{
}

} // verus!
