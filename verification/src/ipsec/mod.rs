//! IPsec integration via strongSwan VICI protocol.
//!
//! When a tunnel has an IPsec secret, an IKEv1 transport-mode SA encrypts its
//! GRE traffic, matching MikroTik's `ipsec-secret` behavior. Talking to
//! strongSwan is the caller's; which commands are sent in which order, what
//! their failures mean and which tunnels have IPsec is here.

pub mod config;
pub mod vici;

use crate::ipsec::config::child_reference_elements;
use crate::ipsec::config::conn_name_of;
use crate::ipsec::config::connection_elements;
use crate::ipsec::config::shared_secret_elements;
use crate::ipsec::config::IpsecTunnelConfig;
use crate::ipsec::vici::kv;
use crate::ipsec::vici::message_elements;
use crate::ipsec::vici::ViciElement;
use rustici::Message;
use std::collections::HashMap;
use vstd::prelude::*;
use vstd::std_specs::iter::IteratorSpec;
use vstd::string::*;

verus! {

/// How often the security associations are checked, in seconds.
pub const MONITOR_INTERVAL_SECS: u64 = 30;

/// The commands that set up a tunnel's IPsec, in order.
#[derive(Debug, Clone, Copy, PartialEq, Eq, Structural)]
pub enum SetupStage {
    LoadShared,
    LoadConn,
    Initiate,
}

/// What follows from the reply to a setup command.
#[derive(Debug)]
pub enum SetupProgress {
    /// Send the command of this stage.
    Next(SetupStage),
    /// The tunnel's IPsec is set up.
    Done,
    /// Setting it up failed.
    Failed(String),
}

/// A command to strongSwan.
#[derive(Debug)]
pub struct ViciCommand {
    pub name: String,
    pub message: Message,
}

/// The name of a stage's command.
pub open spec fn stage_command(stage: SetupStage) -> Seq<char> {
    match stage {
        SetupStage::LoadShared => "load-shared"@,
        SetupStage::LoadConn => "load-conn"@,
        SetupStage::Initiate => "initiate"@,
    }
}

/// The message of a stage's command.
pub open spec fn stage_elements(stage: SetupStage, config: IpsecTunnelConfig) -> Seq<ViciElement> {
    match stage {
        SetupStage::LoadShared => shared_secret_elements(config),
        SetupStage::LoadConn => connection_elements(config),
        SetupStage::Initiate => child_reference_elements(config),
    }
}

/// The command of a setup stage.
pub fn setup_command(stage: SetupStage, config: &IpsecTunnelConfig) -> (command: ViciCommand)
    ensures
        command.name@ == stage_command(stage),
        message_elements(command.message) == stage_elements(stage, *config),
{
    match stage {
        SetupStage::LoadShared => ViciCommand {
            name: String::from_str("load-shared"),
            message: config.to_vici_shared_secret(),
        },
        SetupStage::LoadConn => ViciCommand {
            name: String::from_str("load-conn"),
            message: config.to_vici_connection(),
        },
        SetupStage::Initiate => ViciCommand {
            name: String::from_str("initiate"),
            message: config.to_vici_initiate(),
        },
    }
}

/// What follows once a stage's command succeeded, or failed with an error text.
/// The secret and the connection have to be loaded; a failed initiation is no
/// failure of the setup, since the peer may not be ready.
pub fn setup_advance(stage: SetupStage, result: Result<(), String>) -> (progress: SetupProgress)
    ensures
        match stage {
            SetupStage::LoadShared => match result {
                Ok(()) => progress == SetupProgress::Next(SetupStage::LoadConn),
                Err(e) => progress is Failed && progress->Failed_0@ == "load-shared failed: "@ + e@,
            },
            SetupStage::LoadConn => match result {
                Ok(()) => progress == SetupProgress::Next(SetupStage::Initiate),
                Err(e) => progress is Failed && progress->Failed_0@ == "load-conn failed: "@ + e@,
            },
            SetupStage::Initiate => progress is Done,
        },
{
    match stage {
        SetupStage::LoadShared => match result {
            Ok(()) => SetupProgress::Next(SetupStage::LoadConn),
            Err(e) => {
                let mut text = String::from_str("load-shared failed: ");
                text.append(e.as_str());
                SetupProgress::Failed(text)
            },
        },
        SetupStage::LoadConn => match result {
            Ok(()) => SetupProgress::Next(SetupStage::Initiate),
            Err(e) => {
                let mut text = String::from_str("load-conn failed: ");
                text.append(e.as_str());
                SetupProgress::Failed(text)
            },
        },
        SetupStage::Initiate => SetupProgress::Done,
    }
}

/// The commands that take a tunnel's IPsec down, in order. Whether they succeed
/// makes no difference.
pub fn teardown_commands(config: &IpsecTunnelConfig) -> (commands: Vec<ViciCommand>)
    ensures
        commands@.len() == 2,
        commands@[0].name@ == "terminate"@,
        message_elements(commands@[0].message) == child_reference_elements(*config),
        commands@[1].name@ == "unload-conn"@,
        message_elements(commands@[1].message) == seq![
            kv("name"@, conn_name_of(config.tunnel_id)),
        ],
{
    let mut commands: Vec<ViciCommand> = Vec::new();
    commands.push(
        ViciCommand {
            name: String::from_str("terminate"),
            message: config.to_vici_terminate(),
        },
    );
    commands.push(
        ViciCommand {
            name: String::from_str("unload-conn"),
            message: config.to_vici_unload(),
        },
    );
    commands
}

/// The error of a setup without strongSwan.
pub fn unavailable_error() -> (text: String)
    ensures
        text@
            == "strongSwan not available — install strongswan-charon and start the service"@,
{
    String::from_str("strongSwan not available — install strongswan-charon and start the service")
}

/// Keeps track of which tunnels have IPsec.
pub struct IpsecManager {
    /// Tunnel ID to configuration.
    tunnels: HashMap<u16, IpsecTunnelConfig>,
}

impl View for IpsecManager {
    type V = Map<u16, IpsecTunnelConfig>;

    closed spec fn view(&self) -> Map<u16, IpsecTunnelConfig> {
        self.tunnels@
    }
}

impl IpsecManager {
    pub fn new() -> (manager: Self)
        ensures
            manager@ == Map::<u16, IpsecTunnelConfig>::empty(),
    {
        IpsecManager { tunnels: HashMap::new() }
    }

    /// Take note of a tunnel whose IPsec is set up.
    pub fn setup_tunnel(&mut self, config: IpsecTunnelConfig)
        ensures
            final(self)@ == old(self)@.insert(config.tunnel_id, config),
    {
        let _ = self.tunnels.insert(config.tunnel_id, config);
    }

    /// Forget a tunnel, and return the configuration whose IPsec is to be taken
    /// down, `None` if the tunnel has no IPsec.
    pub fn teardown_tunnel(&mut self, tunnel_id: u16) -> (config: Option<IpsecTunnelConfig>)
        ensures
            final(self)@ == old(self)@.remove(tunnel_id),
            config == (if old(self)@.dom().contains(tunnel_id) {
                Some(old(self)@[tunnel_id])
            } else {
                None
            }),
    {
        self.tunnels.remove(&tunnel_id)
    }

    /// The connection whose associations tell whether a tunnel's IPsec is up,
    /// `None` if the tunnel has no IPsec.
    pub fn connection_of(&self, tunnel_id: u16) -> (conn_name: Option<String>)
        ensures
            conn_name is Some <==> self@.dom().contains(tunnel_id),
            conn_name matches Some(name) ==> name@ == conn_name_of(self@[tunnel_id].tunnel_id),
    {
        match self.tunnels.get(&tunnel_id) {
            Some(config) => Some(config.conn_name()),
            None => None,
        }
    }

    /// The command that initiates a tunnel's association anew, `None` if the
    /// tunnel has no IPsec.
    pub fn reinitiate(&self, tunnel_id: u16) -> (command: Option<ViciCommand>)
        ensures
            command is Some <==> self@.dom().contains(tunnel_id),
            command matches Some(c) ==> c.name@ == "initiate"@ && message_elements(c.message)
                == child_reference_elements(self@[tunnel_id]),
    {
        match self.tunnels.get(&tunnel_id) {
            Some(config) => Some(setup_command(SetupStage::Initiate, config)),
            None => None,
        }
    }

    /// Get all tunnel IDs with IPsec configured, in any order.
    pub fn tunnel_ids(&self) -> (ids: Vec<u16>)
        ensures
            ids@.no_duplicates(),
            forall|id: u16| ids@.contains(id) <==> self@.dom().contains(id),
    {
        let mut ids: Vec<u16> = Vec::new();
        let keys = self.tunnels.keys();
        let ghost listed = keys.remaining().unref();
        for id in iter: keys
            invariant
                iter.seq().unref() == listed,
                ids@ == listed.take(iter.index()),
        {
            ids.push(*id);
        }
        assert(ids@ =~= listed);
        assert(listed.to_set() == self@.dom());
        assert forall|id: u16| ids@.contains(id) <==> self@.dom().contains(id) by {
            assert(ids@.contains(id) <==> ids@.to_set().contains(id));
        }
        ids
    }
}

/// Setting up a tunnel's IPsec and taking it down again leaves no other
/// tunnel's changed, and none for this one.
pub proof fn law_setup_then_teardown(
    before: Map<u16, IpsecTunnelConfig>,
    config: IpsecTunnelConfig,
)
    ensures
        before.insert(config.tunnel_id, config).remove(config.tunnel_id) == before.remove(
            config.tunnel_id,
        ),
{
    assert(before.insert(config.tunnel_id, config).remove(config.tunnel_id) =~= before.remove(
        config.tunnel_id,
    ));
}

/// The secret is loaded, then the connection, then the association is initiated,
/// each by its own command.
pub proof fn law_setup_commands(config: IpsecTunnelConfig)
    ensures
        stage_command(SetupStage::LoadShared) == "load-shared"@,
        stage_command(SetupStage::LoadConn) == "load-conn"@,
        stage_command(SetupStage::Initiate) == "initiate"@,
        stage_elements(SetupStage::LoadShared, config) == shared_secret_elements(config),
        stage_elements(SetupStage::LoadConn, config) == connection_elements(config),
        stage_elements(SetupStage::Initiate, config) == child_reference_elements(config),
{
}

} // verus!
