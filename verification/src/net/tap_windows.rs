//! Finding and opening a TAP-Windows adapter (tap-windows6, the OpenVPN TAP
//! driver): which device is opened, which adapter is meant, how often opening
//! is tried. Talking to Windows is the caller's.

use crate::text::decimal;
use crate::text::same_text;
use crate::text::to_decimal;
use vstd::prelude::*;
use vstd::string::*;

verus! {

/// TAP-Windows IOCTL to set media status (connected/disconnected).
/// CTL_CODE(FILE_DEVICE_UNKNOWN=0x22, function=6, METHOD_BUFFERED=0, FILE_ANY_ACCESS=0)
pub const TAP_WIN_IOCTL_SET_MEDIA_STATUS: u32 = 0x00220018;

/// How often setting the media status is tried.
pub const MEDIA_STATUS_ATTEMPTS: u32 = 3;

/// The path of the device of the adapter with this GUID, NUL-terminated.
pub fn device_path(guid: &str) -> (path: String)
    ensures
        path@ == "\\\\.\\Global\\"@ + guid@ + ".tap\0"@,
{
    let mut path = String::from_str("\\\\.\\Global\\");
    path.append(guid);
    path.append(".tap\0");
    path
}

/// Whether setting the media status is tried again after a failed attempt. The
/// first call may fail or not take effect immediately on overlapped handles.
pub fn media_status_retries(attempt: u32) -> (retries: bool)
    ensures
        retries == (attempt + 1 < MEDIA_STATUS_ATTEMPTS),
{
    attempt < MEDIA_STATUS_ATTEMPTS - 1
}

/// Whether a network component is a TAP-Windows adapter.
pub fn is_tap_component(component_id: &str) -> (tap: bool)
    ensures
        tap == (component_id@ == "tap0901"@ || component_id@ == "root\\tap0901"@),
{
    same_text(component_id, "tap0901") || same_text(component_id, "root\\tap0901")
}

/// Whether an adapter is the one that is meant: any is if no name is asked for;
/// else its connection has to have the name. `connection` is the name of the
/// adapter's connection, `None` if it has none or cannot be looked up.
pub fn adapter_matches(wanted: Option<&str>, connection: Option<&str>) -> (matching: bool)
    ensures
        matching == (wanted is None || (connection is Some && connection->0@ == wanted->0@)),
{
    match wanted {
        None => true,
        Some(name) => match connection {
            None => false,
            Some(found) => same_text(found, name),
        },
    }
}

/// The argument of `netsh` that sets an adapter's MTU.
pub fn mtu_argument(mtu: u16) -> (argument: String)
    ensures
        argument@ == "mtu="@ + decimal(mtu as nat),
{
    let mut argument = String::from_str("mtu=");
    argument.append(to_decimal(mtu as u64).as_str());
    argument
}

} // verus!
