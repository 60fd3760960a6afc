//! Role configurations and the credential collaborator's fixed values.

use vstd::prelude::*;
use crate::scan::AuthMethod;

verus! {

/// Configuration applied to the radio for the access-point role.
pub struct AccessPointConfig {
    pub ssid: String,
    pub passphrase: String,
    pub auth_method: AuthMethod,
}

/// Configuration applied to the radio for one station connection attempt.
pub struct StationConfig {
    pub ssid: String,
    pub passphrase: String,
}

/// A role configuration: exactly one of the two roles.
pub enum RoleConfig {
    AccessPoint(AccessPointConfig),
    Station(StationConfig),
}

/// The fixed access-point configuration: SSID `esp-wifi`, WPA2-Personal.
pub fn default_ap_config() -> (c: AccessPointConfig)
    ensures
        c.ssid@ == "esp-wifi"@,
        c.passphrase@ == "12345678"@,
        c.auth_method == AuthMethod::Wpa2Personal,
{
    AccessPointConfig {
        ssid: "esp-wifi".to_owned(),
        passphrase: "12345678".to_owned(),
        auth_method: AuthMethod::Wpa2Personal,
    }
}

/// The default credential collaborator: a fixed placeholder pair of
/// upstream SSID and passphrase, standing in until a real provisioning
/// source is wired in.
pub fn get_wifi_credentials() -> (r: (&'static str, &'static str))
    ensures
        r.0@ == "wifi_name"@,
        r.1@ == "wifi_password"@,
{
    ("wifi_name", "wifi_password")
}

} // verus!
