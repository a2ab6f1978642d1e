//! The immutable process configuration, validated once at startup, and the
//! small decisions the WiFi bring-up takes from it.

use vstd::prelude::*;

verus! {

/// The four values the process is built with: WiFi network name and
/// password, the remote-API credential, and the single authorized
/// operator's chat identifier. Constructed once and never mutated.
pub struct Config {
    pub wifi_ssid: String,
    pub wifi_pass: String,
    pub bot_token: String,
    pub bot_owner_id: i64,
}

/// Why a configuration or WiFi bring-up value was rejected.
#[derive(PartialEq, Eq, Structural, Clone, Copy, Debug)]
pub enum ConfigError {
    /// Both the WiFi network name and the WiFi password are empty.
    MissingWifiSettings,
    /// The WiFi network name is empty.
    MissingWifiName,
}

/// The WiFi settings are present when at least one of the two fields is
/// non-empty.
pub open spec fn wifi_settings_present(ssid: Seq<char>, pass: Seq<char>) -> bool {
    !(ssid.len() == 0 && pass.len() == 0)
}

/// Validates the startup configuration: succeeds exactly when the WiFi
/// settings are present, and then holds the four values unchanged.
pub fn create_config(wifi_ssid: String, wifi_pass: String, bot_token: String, bot_owner_id: i64) -> (r: Result<
    Config,
    ConfigError,
>)
    ensures
        match r {
            Ok(c) => wifi_settings_present(wifi_ssid@, wifi_pass@) && c.wifi_ssid@ == wifi_ssid@
                && c.wifi_pass@ == wifi_pass@ && c.bot_token@ == bot_token@ && c.bot_owner_id
                == bot_owner_id,
            Err(e) => !wifi_settings_present(wifi_ssid@, wifi_pass@) && e
                == ConfigError::MissingWifiSettings,
        },
{
    if wifi_ssid.as_str().is_empty() && wifi_pass.as_str().is_empty() {
        Err(ConfigError::MissingWifiSettings)
    } else {
        Ok(Config { wifi_ssid, wifi_pass, bot_token, bot_owner_id })
    }
}

/// How the device authenticates to the WiFi network.
#[derive(PartialEq, Eq, Structural, Clone, Copy, Debug)]
pub enum WifiAuth {
    /// Personal pre-shared-key authentication, used when a password is set.
    Wpa2Personal,
    /// Open network, used when the password is empty.
    Open,
}

/// Chooses the WiFi authentication method: an empty network name is
/// rejected; an empty password selects an open network, any other selects
/// pre-shared-key authentication.
pub fn select_auth(ssid: &str, pass: &str) -> (r: Result<WifiAuth, ConfigError>)
    ensures
        match r {
            Ok(a) => ssid@.len() != 0 && (a == WifiAuth::Open <==> pass@.len() == 0),
            Err(e) => ssid@.len() == 0 && e == ConfigError::MissingWifiName,
        },
{
    if ssid.is_empty() {
        Err(ConfigError::MissingWifiName)
    } else if pass.is_empty() {
        Ok(WifiAuth::Open)
    } else {
        Ok(WifiAuth::Wpa2Personal)
    }
}

} // verus!
