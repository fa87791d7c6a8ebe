//! The fixed identifiers, texts and delays the gateway works with.

use vstd::prelude::*;

verus! {

/// Identifier of the service a peripheral must advertise to be eligible.
pub const CONTROLLER_SERVICE_ID: u128 = 0x9c80ffb6_affa_4083_944a_91e34c88bd76;

/// Identifier of the characteristic that messages are written to.
pub const KEYBOARD_DISPLAY_ID: u128 = 0xcdaa6472_67a8_4241_93cf_145051608573;

/// Seconds a scan runs before the discovered devices are read.
pub const SCAN_SETTLE_SECS: u64 = 5;

/// Seconds to wait after a failed attempt before scanning again.
pub const RETRY_DELAY_SECS: u64 = 5;

/// Seconds to let the link settle after connecting and after discovering
/// services.
pub const LINK_SETTLE_SECS: u64 = 1;

/// Seconds between two liveness polls of the health monitor.
pub const MONITOR_TICK_SECS: u64 = 2;

/// Port the HTTP listener binds to unless told otherwise.
pub const DEFAULT_PORT: u16 = 57001;

/// The message written to a peripheral right after it was connected.
pub fn greeting() -> (text: &'static str)
    ensures
        text@ == "Connected"@,
{
    "Connected"
}

/// Host the HTTP listener binds to unless told otherwise: the loopback
/// address.
pub fn default_host() -> (host: &'static str)
    ensures
        host@ == "127.0.0.1"@,
{
    "127.0.0.1"
}

} // verus!
