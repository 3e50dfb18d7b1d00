//! Laws of the operations on IPsec connections.

use crate::ipsec::setup_advance;
use crate::ipsec::setup_command;
use crate::ipsec::teardown_commands;
use crate::ipsec::IpsecManager;
use crate::ipsec::SetupProgress;
use crate::ipsec::SetupStage;
use crate::ipsec::ViciCommand;
use crate::ipsec::config::connection_elements;
use crate::ipsec::config::law_association_is_named;
use crate::ipsec::config::law_whole_secret_is_loaded;
use crate::ipsec::config::IpsecTunnelConfig;
use crate::ipsec::vici::check_vici_response;
use crate::ipsec::vici::depth_in;
use crate::ipsec::vici::event_shows_sa;
use crate::ipsec::vici::last_value;
use crate::ipsec::vici::law_established_section_is_shown;
use crate::ipsec::vici::law_only_yes_is_success;
use crate::ipsec::vici::message_elements;
use crate::ipsec::vici::says_established;
use crate::ipsec::vici::ViciElement;
use crate::text::decimal;
use crate::text::utf8_lossy;
use rustici::Message;
use vstd::prelude::*;
use vstd::utf8::*;

verus! {

/// The message that loads a tunnel's key carries the whole secret, and the tunnel's
/// two addresses as its owners.
pub proof fn law_load_shared(config: IpsecTunnelConfig, message: Message)
    requires
        call_ensures(IpsecTunnelConfig::to_vici_shared_secret, (&config,), message),
    ensures
        last_value(message_elements(message), "data"@) == Some(encode_utf8(config.secret@)),
        message_elements(message)[4] == ViciElement::ListItem(encode_utf8(config.local_addr@)),
        message_elements(message)[5] == ViciElement::ListItem(encode_utf8(config.remote_addr@)),
        message_elements(message).len() == 7,
{
    law_whole_secret_is_loaded(config);
}

/// A reply passes exactly if the last value of `success` in it is `yes`; one that
/// says `no` fails with the reason that it gives.
pub proof fn law_reply(command: &str, resp: &Message, result: Result<(), String>)
    requires
        call_ensures(check_vici_response, (command, resp), result),
    ensures
        result is Ok <==> last_value(message_elements(*resp), "success"@) == Some(
            encode_utf8("yes"@),
        ),
        last_value(message_elements(*resp), "success"@) == Some(encode_utf8("no"@)) ==> result is Err
            && result->Err_0@ == "VICI "@ + command@ + " failed: "@ + match last_value(
            message_elements(*resp),
            "errmsg"@,
        ) {
            Some(value) => utf8_lossy(value),
            None => "unknown error"@,
        },
{
    law_only_yes_is_success(command@, message_elements(*resp));
}

/// An event shows the association of a connection if it says that it is established
/// behind the start of the connection's section, and before a section ends there. One
/// that does not name the connection, or says of none that it is established, does not.
pub proof fn law_event(event: &Message, conn_name: &str, shown: bool)
    requires
        call_ensures(event_shows_sa, (event, conn_name), shown),
    ensures
        forall|start: int, at: int|
            #![trigger message_elements(*event)[start], message_elements(*event)[at]]
            {
                let elements = message_elements(*event);
                &&& 0 <= start < at < elements.len()
                &&& elements[start] == ViciElement::SectionStart(conn_name@)
                &&& elements[at] == ViciElement::KeyValue("state"@, encode_utf8("ESTABLISHED"@))
                &&& forall|i: int| start < i < at ==> !(#[trigger] elements[i] is SectionEnd)
            } ==> shown,
        shown ==> exists|start: int, at: int|
            #![trigger message_elements(*event)[start], message_elements(*event)[at]]
            {
                let elements = message_elements(*event);
                &&& 0 <= start < at < elements.len()
                &&& elements[start] == ViciElement::SectionStart(conn_name@)
                &&& elements[at] == ViciElement::KeyValue("state"@, encode_utf8("ESTABLISHED"@))
            },
{
    let elements = message_elements(*event);
    assert forall|start: int, at: int|
        #![trigger elements[start], elements[at]]
        {
            &&& 0 <= start < at < elements.len()
            &&& elements[start] == ViciElement::SectionStart(conn_name@)
            &&& elements[at] == ViciElement::KeyValue("state"@, encode_utf8("ESTABLISHED"@))
            &&& forall|i: int| start < i < at ==> !(#[trigger] elements[i] is SectionEnd)
        } implies shown by {
        law_established_section_is_shown(elements, conn_name@, start, at);
    }
    if shown {
        let at = choose|at: int|
            0 <= at < elements.len() && #[trigger] says_established(elements, at, conn_name@);
        let start = lemma_inside_has_start(elements, conn_name@, at);
        assert(elements[start] == ViciElement::SectionStart(conn_name@) && elements[at]
            == ViciElement::KeyValue("state"@, encode_utf8("ESTABLISHED"@)));
    }
}

/// Who is inside the section of a connection has passed its start.
proof fn lemma_inside_has_start(
    elements: Seq<ViciElement>,
    conn_name: Seq<char>,
    at: int,
) -> (start: int)
    requires
        0 <= at <= elements.len(),
        depth_in(elements, at, conn_name) > 0,
    ensures
        0 <= start < at,
        elements[start] == ViciElement::SectionStart(conn_name),
    decreases at,
{
    if at > 0 && depth_in(elements, at - 1, conn_name) > 0 {
        lemma_inside_has_start(elements, conn_name, at - 1)
    } else {
        at - 1
    }
}

/// A tunnel's messages: the connection that is loaded, and what is initiated,
/// terminated and unloaded, which is that connection and its child.
pub proof fn law_ipsec_messages(
    config: IpsecTunnelConfig,
    load: Message,
    initiate: Message,
    terminate: Message,
    unload: Message,
)
    requires
        call_ensures(IpsecTunnelConfig::to_vici_connection, (&config,), load),
        call_ensures(IpsecTunnelConfig::to_vici_initiate, (&config,), initiate),
        call_ensures(IpsecTunnelConfig::to_vici_terminate, (&config,), terminate),
        call_ensures(IpsecTunnelConfig::to_vici_unload, (&config,), unload),
    ensures
        ({
            let conn = "eoip-"@ + decimal(config.tunnel_id as nat);
            let reference = seq![
                ViciElement::KeyValue("child"@, encode_utf8(conn + "-gre"@)),
                ViciElement::KeyValue("ike"@, encode_utf8(conn)),
            ];
            &&& message_elements(load) == connection_elements(config)
            &&& message_elements(load)[0] == ViciElement::SectionStart(conn)
            &&& message_elements(initiate) == reference
            &&& message_elements(terminate) == reference
            &&& message_elements(unload) == seq![
                ViciElement::KeyValue("name"@, encode_utf8(conn)),
            ]
        }),
{
    law_association_is_named(config);
}

/// The names of a tunnel's connection and of its child.
pub proof fn law_ipsec_names(config: IpsecTunnelConfig, conn: String, child: String)
    requires
        call_ensures(IpsecTunnelConfig::conn_name, (&config,), conn),
        call_ensures(IpsecTunnelConfig::child_name, (&config,), child),
    ensures
        conn@ == "eoip-"@ + decimal(config.tunnel_id as nat),
        child@ == conn@ + "-gre"@,
{
}

/// The commands of a setup, and of taking it down again.
pub proof fn law_ipsec_commands(
    config: IpsecTunnelConfig,
    stage: SetupStage,
    command: ViciCommand,
    teardown: Vec<ViciCommand>,
)
    requires
        call_ensures(setup_command, (stage, &config), command),
        call_ensures(teardown_commands, (&config,), teardown),
    ensures
        stage is LoadShared ==> command.name@ == "load-shared"@ && last_value(
            message_elements(command.message),
            "data"@,
        ) == Some(encode_utf8(config.secret@)),
        stage is LoadConn ==> command.name@ == "load-conn"@ && message_elements(command.message)
            == connection_elements(config),
        stage is Initiate ==> command.name@ == "initiate"@ && message_elements(command.message)
            == message_elements(teardown@[0].message),
        teardown@.len() == 2,
        teardown@[0].name@ == "terminate"@,
        teardown@[1].name@ == "unload-conn"@,
        message_elements(teardown@[1].message) == seq![
            ViciElement::KeyValue(
                "name"@,
                encode_utf8("eoip-"@ + decimal(config.tunnel_id as nat)),
            ),
        ],
{
    law_whole_secret_is_loaded(config);
}

/// A setup goes from loading the secret to loading the connection to initiating it,
/// and fails where either load fails, but not where initiating does.
pub proof fn law_ipsec_setup(
    stage: SetupStage,
    result: Result<(), String>,
    progress: SetupProgress,
)
    requires
        call_ensures(setup_advance, (stage, result), progress),
    ensures
        stage is LoadShared && result is Ok ==> progress == SetupProgress::Next(
            SetupStage::LoadConn,
        ),
        stage is LoadConn && result is Ok ==> progress == SetupProgress::Next(SetupStage::Initiate),
        stage is Initiate ==> progress is Done,
        result is Err && !(stage is Initiate) ==> progress is Failed,
        result is Err && stage is LoadShared ==> progress->Failed_0@ == "load-shared failed: "@
            + result->Err_0@,
        result is Err && stage is LoadConn ==> progress->Failed_0@ == "load-conn failed: "@
            + result->Err_0@,
{
}

/// The manager knows a tunnel's connection from its setup to its teardown, which hands
/// the configuration back.
pub proof fn law_ipsec_manager(config: IpsecTunnelConfig, tunnel_id: u16)
    ensures
        forall|manager: &mut IpsecManager, nothing: ()| #[trigger]
            call_ensures(IpsecManager::setup_tunnel, (manager, config), nothing) ==> {
                &&& (*final(manager))@.dom().contains(config.tunnel_id)
                &&& (*final(manager))@[config.tunnel_id] == config
                &&& forall|id: u16|
                    #[trigger] (*manager)@.dom().contains(id) && id != config.tunnel_id ==> (
                    *final(manager))@.dom().contains(id) && (*final(manager))@[id] == (
                    *manager)@[id]
            },
        forall|manager: &mut IpsecManager, back: Option<IpsecTunnelConfig>| #[trigger]
            call_ensures(IpsecManager::teardown_tunnel, (manager, tunnel_id), back) ==> {
                &&& back is Some <==> (*manager)@.dom().contains(tunnel_id)
                &&& back is Some ==> back->0 == (*manager)@[tunnel_id]
                &&& !(*final(manager))@.dom().contains(tunnel_id)
                &&& forall|id: u16|
                    #[trigger] (*manager)@.dom().contains(id) && id != tunnel_id ==> (
                    *final(manager))@.dom().contains(id) && (*final(manager))@[id] == (
                    *manager)@[id]
            },
        forall|manager: IpsecManager, name: Option<String>| #[trigger]
            call_ensures(IpsecManager::connection_of, (&manager, tunnel_id), name) ==> {
                &&& name is Some <==> manager@.dom().contains(tunnel_id)
                &&& name is Some ==> name->0@ == "eoip-"@ + decimal(
                    manager@[tunnel_id].tunnel_id as nat,
                )
            },
{
}

} // verus!
