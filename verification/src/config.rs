//! The gateway's settings: a fixed set of named strings, resolved once before
//! start-up and never changed afterwards.

use vstd::prelude::*;
use vstd::string::*;

verus! {

/// Most bytes a network name may hold.
pub const SSID_MAX_BYTES: usize = 32;

/// Most bytes a pre-shared key may hold.
pub const PSK_MAX_BYTES: usize = 64;

/// Most bytes the host name announced over DHCP may hold.
pub const HOSTNAME_MAX_BYTES: usize = 32;

/// The settings of one device.
#[derive(Clone, Copy, Debug)]
pub struct Settings {
    /// Name of the wireless network to join.
    pub wifi_ssid: &'static str,
    /// Pre-shared key of that network.
    pub wifi_psk: &'static str,
    /// Host name announced when an address is requested.
    pub hostname: &'static str,
    /// Key for the DNS provider's API.
    pub cf_apikey: &'static str,
    /// Zone that the DNS provider manages for this device.
    pub cf_zoneid: &'static str,
    /// Account at the DNS provider.
    pub cf_accountid: &'static str,
}

impl Default for Settings {
    /// Every field empty but the host name, which is the device's name.
    fn default() -> (config: Settings)
        ensures
            config.wifi_ssid@ == ""@,
            config.wifi_psk@ == ""@,
            config.hostname@ == "SalGate"@,
            config.cf_apikey@ == ""@,
            config.cf_zoneid@ == ""@,
            config.cf_accountid@ == ""@,
    {
        Settings {
            wifi_ssid: "",
            wifi_psk: "",
            hostname: "SalGate",
            cf_apikey: "",
            cf_zoneid: "",
            cf_accountid: "",
        }
    }
}

} // verus!
