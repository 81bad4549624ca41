//! What the station side of the radio is configured with, and what it reports.

use crate::text::bounded_text;
use vstd::prelude::*;

verus! {

/// The configuration that the radio holds, as far as it bears on whether there
/// is a network to join.
pub enum Configuration {
    Unset,
    Client { ssid: String },
    AccessPoint,
    Mixed { ssid: String },
}

/// How the station authenticates.
#[derive(Clone, Copy, PartialEq, Eq, Structural, Debug)]
pub enum AuthMethod {
    WPA2Personal,
}

/// A network for the station to join.
pub struct ClientConfiguration {
    pub ssid: String,
    pub bssid: Option<[u8; 6]>,
    pub auth_method: AuthMethod,
    pub password: String,
    pub channel: Option<u8>,
}

pub struct ClientConfigurationView {
    pub ssid: Seq<char>,
    pub bssid: Option<[u8; 6]>,
    pub auth_method: AuthMethod,
    pub password: Seq<char>,
    pub channel: Option<u8>,
}

impl View for ClientConfiguration {
    type V = ClientConfigurationView;

    open spec fn view(&self) -> ClientConfigurationView {
        ClientConfigurationView {
            ssid: self.ssid@,
            bssid: self.bssid,
            auth_method: self.auth_method,
            password: self.password@,
            channel: self.channel,
        }
    }
}

/// A network on any access point and channel, joined with WPA2 personal.
pub open spec fn personal_network(ssid: Seq<char>, password: Seq<char>) -> ClientConfigurationView {
    ClientConfigurationView {
        ssid,
        bssid: None,
        auth_method: AuthMethod::WPA2Personal,
        password,
        channel: None,
    }
}

impl ClientConfiguration {
    /// A network on any access point and channel, joined with WPA2 personal.
    pub fn personal(ssid: String, password: String) -> (configuration: ClientConfiguration)
        ensures
            configuration@ == personal_network(ssid@, password@),
    {
        ClientConfiguration {
            ssid,
            bssid: None,
            auth_method: AuthMethod::WPA2Personal,
            password,
            channel: None,
        }
    }
}

/// The device's name does not fit into a host name.
#[derive(Clone, Copy, PartialEq, Eq, Structural, Debug)]
pub struct HostnameTooLong;

/// Whether a name fits into a host name: 30 bytes of UTF-8.
pub open spec fn fits_hostname(device_name: Seq<char>) -> bool {
    vstd::utf8::encode_utf8(device_name).len() <= 30
}

/// The host name that a device asks the DHCP server for.
pub fn dhcp_hostname(device_name: &str) -> (hostname: Result<String, HostnameTooLong>)
    ensures
        hostname is Ok <==> fits_hostname(device_name@),
        hostname matches Ok(name) ==> name@ == device_name@,
{
    match bounded_text::<30>(device_name) {
        Ok(name) => Ok(name),
        Err(_) => Err(HostnameTooLong),
    }
}

/// One network that WPS offered.
pub struct WpsCredentials {
    pub ssid: String,
    pub passphrase: String,
}

/// How WPS ended.
pub enum WpsStatus {
    SuccessConnected,
    SuccessMultipleAccessPoints(Vec<WpsCredentials>),
    Failure,
    Timeout,
    Pin(Option<u32>),
    PbcOverlap,
}

/// How WPS is triggered.
#[derive(Clone, Copy, PartialEq, Eq, Structural, Debug)]
pub enum WpsType {
    Pbc,
}

/// What the device tells of itself during WPS.
pub struct WpsConfig {
    pub wps_type: WpsType,
    pub manufacturer: String,
    pub model_name: String,
    pub model_number: String,
    pub device_name: String,
}

pub struct WpsConfigView {
    pub wps_type: WpsType,
    pub manufacturer: Seq<char>,
    pub model_name: Seq<char>,
    pub model_number: Seq<char>,
    pub device_name: Seq<char>,
}

impl View for WpsConfig {
    type V = WpsConfigView;

    open spec fn view(&self) -> WpsConfigView {
        WpsConfigView {
            wps_type: self.wps_type,
            manufacturer: self.manufacturer@,
            model_name: self.model_name@,
            model_number: self.model_number@,
            device_name: self.device_name@,
        }
    }
}

/// Push-button WPS for the device of the given name.
pub open spec fn push_button(device_name: Seq<char>) -> WpsConfigView {
    WpsConfigView {
        wps_type: WpsType::Pbc,
        manufacturer: "FarmHub"@,
        model_name: "Ugly Duckling"@,
        model_number: "MK6"@,
        device_name,
    }
}

impl WpsConfig {
    /// Push-button WPS for the device of the given name.
    pub fn push_button(device_name: &str) -> (config: WpsConfig)
        ensures
            config@ == push_button(device_name@),
    {
        WpsConfig {
            wps_type: WpsType::Pbc,
            manufacturer: String::from_str("FarmHub"),
            model_name: String::from_str("Ugly Duckling"),
            model_number: String::from_str("MK6"),
            device_name: String::from_str(device_name),
        }
    }
}

/// A view tells every part of a network.
pub proof fn law_network_views_are_whole(network: ClientConfiguration)
    ensures
        network@.ssid == network.ssid@,
        network@.bssid == network.bssid,
        network@.auth_method == network.auth_method,
        network@.password == network.password@,
        network@.channel == network.channel,
{
}

/// A network is joined under the name and with the password that were given, whatever
/// they are, with WPA2 personal, and on any access point and channel.
pub proof fn law_networks_keep_name_and_password(ssid: Seq<char>, password: Seq<char>)
    ensures
        personal_network(ssid, password).ssid == ssid,
        personal_network(ssid, password).password == password,
        personal_network(ssid, password).bssid is None,
        personal_network(ssid, password).channel is None,
        personal_network(ssid, password).auth_method is WPA2Personal,
{
}

/// A view tells every part of what WPS is run with.
pub proof fn law_wps_views_are_whole(config: WpsConfig)
    ensures
        config@.wps_type == config.wps_type,
        config@.manufacturer == config.manufacturer@,
        config@.model_name == config.model_name@,
        config@.model_number == config.model_number@,
        config@.device_name == config.device_name@,
{
}

/// In WPS every device goes by its own name, and all devices tell the same of their make.
pub proof fn law_wps_tells_the_device_name(device_name: Seq<char>)
    ensures
        push_button(device_name).device_name == device_name,
        push_button(device_name).wps_type is Pbc,
        push_button(device_name).manufacturer == "FarmHub"@,
        push_button(device_name).model_name == "Ugly Duckling"@,
        push_button(device_name).model_number == "MK6"@,
{
}

/// A name fits exactly if it takes at most thirty bytes.
pub proof fn law_hostnames_take_thirty_bytes(device_name: Seq<char>)
    ensures
        fits_hostname(device_name) <==> vstd::utf8::encode_utf8(device_name).len() < 31,
{
}

/// A host name is the device's whole name, and is refused exactly if that takes more than
/// thirty bytes.
pub proof fn law_hostnames_are_whole(device_name: &str, hostname: Result<String, HostnameTooLong>)
    requires
        call_ensures(dhcp_hostname, (device_name,), hostname),
    ensures
        hostname is Err <==> vstd::utf8::encode_utf8(device_name@).len() > 30,
        hostname matches Ok(name) ==> name@ == device_name@,
{
}

} // verus!
