//! Decisions of the daemon's startup: buffers, the helper's handshake, the raw
//! sockets that it hands over, and the tunnels of the configuration.

use crate::addr::DemuxKey;
use crate::config::TunnelConfig;
use crate::packet::buffer::MAX_SLOTS;
use crate::tunnel::handle::fresh_handle;
use crate::tunnel::handle::TunnelHandle;
use crate::tunnel::manager::HelperReply;
use crate::tunnel::registry::TunnelRegistry;
use vstd::prelude::*;
use vstd::string::*;

verus! {

/// Buffers for the receive batches: `RECV_BATCH` for each of four workers.
pub const POOL_BATCH_HEADROOM: usize = 128;

/// Buffers to spare.
pub const POOL_MARGIN: usize = 256;

/// How many buffers the daemon keeps for `tunnels` configured tunnels with
/// channels of `channel_buffer` frames.
pub open spec fn buffers_for(channel_buffer: usize, tunnels: usize) -> int {
    channel_buffer * (if tunnels == 0 {
        1int
    } else {
        tunnels as int
    }) + POOL_BATCH_HEADROOM + POOL_MARGIN
}

/// How many buffers the daemon keeps: channel depth for each tunnel, batch
/// headroom for the receive workers, and a margin. `None` if that is more than
/// a `usize` holds.
pub fn pool_size(channel_buffer: usize, tunnels: usize) -> (size: Option<usize>)
    ensures
        size is Some <==> buffers_for(channel_buffer, tunnels) <= usize::MAX,
        size matches Some(n) ==> n == buffers_for(channel_buffer, tunnels),
{
    let channels: usize = if tunnels == 0 {
        1
    } else {
        tunnels
    };
    match channel_buffer.checked_mul(channels) {
        Some(product) => product.checked_add(POOL_BATCH_HEADROOM + POOL_MARGIN),
        None => None,
    }
}

/// What is wrong with the helper's first message, if anything is: it has to say
/// that the helper is ready. `debug` is the message as text.
pub fn check_helper_ready(reply: &HelperReply, debug: &str) -> (result: Result<(), String>)
    ensures
        result is Ok <==> reply is HelperReady,
        result matches Err(text) ==> text@ == "unexpected helper msg: "@ + debug@,
{
    match reply {
        HelperReply::HelperReady => Ok(()),
        _ => {
            let mut text = String::from_str("unexpected helper msg: ");
            text.append(debug);
            Err(text)
        },
    }
}

/// What is wrong with the helper's reply to a request for a TAP device at
/// startup, if anything is. `debug` is the reply as text.
pub open spec fn startup_tap_error(reply: HelperReply, has_fd: bool, debug: Seq<char>) -> Option<
    Seq<char>,
> {
    match reply {
        HelperReply::TapCreated => if has_fd {
            None
        } else {
            Some("no TAP fd"@)
        },
        HelperReply::Error { msg } => Some("helper: "@ + msg@),
        _ => Some("unexpected: "@ + debug),
    }
}

/// Judge the helper's reply to a request for a TAP device at startup. `debug` is
/// the reply as text.
pub fn check_startup_tap(reply: &HelperReply, has_fd: bool, debug: &str) -> (result: Result<
    (),
    String,
>)
    ensures
        result is Ok <==> startup_tap_error(*reply, has_fd, debug@) is None,
        result matches Err(text) ==> startup_tap_error(*reply, has_fd, debug@) == Some(text@),
{
    match reply {
        HelperReply::TapCreated => if has_fd {
            Ok(())
        } else {
            Err(String::from_str("no TAP fd"))
        },
        HelperReply::Error { msg } => {
            let mut text = String::from_str("helper: ");
            text.append(msg.as_str());
            Err(text)
        },
        _ => {
            let mut text = String::from_str("unexpected: ");
            text.append(debug);
            Err(text)
        },
    }
}

/// Address family numbers in the helper's messages.
pub const FAMILY_V4: u16 = 2;

pub const FAMILY_V6: u16 = 10;

/// Whether a message is the one about the raw IPv4 socket. The file descriptor
/// that comes along is taken either way.
pub fn is_raw_v4(reply: &HelperReply) -> (expected: bool)
    ensures
        expected == (*reply == HelperReply::RawSocket { address_family: FAMILY_V4 }),
{
    match reply {
        HelperReply::RawSocket { address_family } => *address_family == FAMILY_V4,
        _ => false,
    }
}

/// Whether a message brings the raw IPv6 socket. Nothing else that may come in
/// its place is an error.
pub fn is_raw_v6(reply: &HelperReply) -> (brings: bool)
    ensures
        brings == (*reply == HelperReply::RawSocket { address_family: FAMILY_V6 }),
{
    match reply {
        HelperReply::RawSocket { address_family } => *address_family == FAMILY_V6,
        _ => false,
    }
}

/// Which raw sockets are taken of those that the helper hands over: none once
/// there is one for IPv4; else the one for IPv4 whatever message brings it, and
/// the one for IPv6 only with its own message.
///
/// `v4_fd` came with the first message about raw sockets, `v6_fd` with the second,
/// which is `v6`, `None` if receiving it failed.
pub fn take_raw_sockets<T>(
    have_v4: bool,
    v4_fd: Option<T>,
    v6: &Option<HelperReply>,
    v6_fd: Option<T>,
) -> (taken: (Option<T>, Option<T>))
    ensures
        taken.0 == (if have_v4 {
            None
        } else {
            v4_fd
        }),
        taken.1 == (if !have_v4 && *v6 == Some(
            HelperReply::RawSocket { address_family: FAMILY_V6 },
        ) {
            v6_fd
        } else {
            None
        }),
{
    if have_v4 {
        return (None, None);
    }
    let brings_v6: bool = match v6 {
        Some(reply) => is_raw_v6(reply),
        None => false,
    };
    if brings_v6 {
        (v4_fd, v6_fd)
    } else {
        (v4_fd, None)
    }
}

/// The number of a raw socket that may be missing.
pub fn raw_fd_or_none(fd: Option<i32>) -> (raw: i32)
    ensures
        raw == (match fd {
            Some(n) => n,
            None => -1i32,
        }),
{
    match fd {
        Some(n) => n,
        None => -1,
    }
}

/// Register a tunnel of the configuration, unless it is disabled. Returns its
/// key if it was registered.
pub fn register_configured(
    registry: &mut TunnelRegistry,
    config: &TunnelConfig,
    channel_buffer: usize,
) -> (key: Option<DemuxKey>)
    requires
        old(registry).wf(),
        channel_buffer <= MAX_SLOTS,
    ensures
        final(registry).wf(),
        key is Some <==> config.enabled,
        key is None ==> final(registry)@ == old(registry)@,
        key matches Some(k) ==> {
            &&& k.tunnel_id == config.tunnel_id
            &&& k.peer_addr == config.remote
            &&& final(registry)@ == old(registry)@.insert(k@, final(registry)@[k@])
            &&& fresh_handle(final(registry)@[k@], *config, channel_buffer as nat)
        },
{
    if !config.enabled {
        return None;
    }
    let key = DemuxKey { tunnel_id: config.tunnel_id, peer_addr: config.remote };
    let handle = TunnelHandle::with_channel_cap(config.clone(), channel_buffer);
    let _ = registry.insert(key, handle);
    assert(registry@ =~= old(registry)@.insert(key@, registry@[key@]));
    Some(key)
}

/// The daemon keeps as many buffers as all tunnels' channels hold, or one channel
/// if there is no tunnel, and 384 more; one more tunnel takes one more channel.
pub proof fn law_buffers(channel_buffer: usize, tunnels: usize, more: usize)
    ensures
        buffers_for(channel_buffer, 0) == channel_buffer + 384,
        buffers_for(channel_buffer, 1) == channel_buffer + 384,
        tunnels >= 1 && more == tunnels + 1 ==> buffers_for(channel_buffer, more) == buffers_for(
            channel_buffer,
            tunnels,
        ) + channel_buffer,
{
    assert(channel_buffer * (tunnels + 1) == channel_buffer * tunnels + channel_buffer)
        by (nonlinear_arith);
    assert(channel_buffer * 1 == channel_buffer) by (nonlinear_arith);
}

/// A TAP device is there at startup exactly if the helper says so and sends its
/// descriptor along; else the text says what came instead.
pub proof fn law_startup_tap(reply: HelperReply, has_fd: bool, debug: Seq<char>)
    ensures
        startup_tap_error(reply, has_fd, debug) is None <==> reply is TapCreated && has_fd,
        reply is TapCreated && !has_fd ==> startup_tap_error(reply, has_fd, debug) == Some(
            "no TAP fd"@,
        ),
        reply matches HelperReply::Error { msg } ==> startup_tap_error(reply, has_fd, debug)
            == Some("helper: "@ + msg@),
        !(reply is TapCreated) && !(reply is Error) ==> startup_tap_error(reply, has_fd, debug)
            == Some("unexpected: "@ + debug),
{
}

} // verus!
