//! The network of a device: its station, and its connection to the broker.

use crate::bring_up::WifiBringUp;
use crate::kernel::mqtt::{EventPayload, Mqtt, MqttSetup};
use crate::kernel::wifi::WifiEvent;
use crate::network::Service;
use crate::wireless::{dhcp_hostname, HostnameTooLong};
use vstd::prelude::*;

verus! {

/// What the network of a device is brought up with.
pub struct WifiInit {
    /// The host name to ask the DHCP server for.
    pub hostname: String,
    /// The steps of bringing it up.
    pub bring_up: WifiBringUp,
}

/// Begins to bring the network of a device up. Its address is read at the end.
pub fn init_wifi(device_name: &str) -> (init: Result<WifiInit, HostnameTooLong>)
    ensures
        init is Ok <==> crate::wireless::fits_hostname(device_name@),
        init matches Ok(i) ==> i.hostname@ == device_name@ && i.bring_up.device_name()
            == device_name@ && i.bring_up.report_ip() && i.bring_up.stage() is Starting,
{
    match dhcp_hostname(device_name) {
        Ok(hostname) => Ok(
            WifiInit { hostname, bring_up: WifiBringUp::new(device_name, true) },
        ),
        Err(error) => Err(error),
    }
}

/// Whether an event of the radio makes the station connect again. Not being able
/// to is fatal.
pub fn reconnects_on(event: &WifiEvent) -> (reconnects: bool)
    ensures
        reconnects == (event is StaDisconnected),
{
    match event {
        WifiEvent::StaDisconnected => true,
        _ => false,
    }
}

/// Sets the connection of a device to its broker up, by what the query for a
/// broker was answered with.
pub fn init_mqtt<E>(found: Result<Option<Service>, E>, instance: &str) -> (setup: Result<
    MqttSetup,
    E,
>)
    ensures
        match found {
            Ok(service) => setup matches Ok(s) && s.describes(
                crate::kernel::mqtt::broker_of(service),
                instance@,
            ),
            Err(error) => setup == Err::<MqttSetup, E>(error),
        },
{
    Mqtt::create(found, instance)
}

/// Whether an event of the connection lets whoever waits for it go on.
pub fn connects_on(event: &EventPayload) -> (connects: bool)
    ensures
        connects == (event is Connected),
{
    match event {
        EventPayload::Connected(_) => true,
        _ => false,
    }
}

/// The station connects again on a disconnection and on nothing else, and whoever waits for
/// the broker goes on with a connection, whether the session is new or not, and with nothing
/// else.
pub proof fn law_connections_and_disconnections_are_told(
    event: WifiEvent,
    reconnects: bool,
    payload: EventPayload,
    connects: bool,
)
    requires
        call_ensures(reconnects_on, (&event,), reconnects),
        call_ensures(connects_on, (&payload,), connects),
    ensures
        reconnects <==> event == WifiEvent::StaDisconnected,
        connects <==> payload == EventPayload::Connected(true) || payload
            == EventPayload::Connected(false),
{
}

/// The network of a device is brought up under the device's whole name, if that takes at most
/// thirty bytes, and its address is read.
pub proof fn law_networks_go_by_the_device_name(
    device_name: &str,
    init: Result<WifiInit, HostnameTooLong>,
)
    requires
        call_ensures(init_wifi, (device_name,), init),
    ensures
        init is Ok <==> vstd::utf8::encode_utf8(device_name@).len() <= 30,
        init matches Ok(network) ==> {
            &&& network.hostname@ == device_name@
            &&& network.bring_up.device_name() == device_name@
            &&& network.bring_up.report_ip()
            &&& network.bring_up.stage() is Starting
        },
{
}

/// A device connects to the broker that was found, whichever it is, as its own instance; a
/// failed query is passed on.
pub proof fn law_devices_connect_to_the_broker_found<E>(
    found: Result<Option<Service>, E>,
    instance: &str,
    setup: Result<MqttSetup, E>,
)
    requires
        call_ensures(init_mqtt::<E>, (found, instance), setup),
    ensures
        found matches Ok(Some(service)) ==> (setup matches Ok(made) && made.url@ == "mqtt://"@
            + service.hostname@ + ":"@ + crate::text::decimal(service.port as nat)),
        found matches Ok(None) ==> (setup matches Ok(made) && made.url@ == "mqtt://"@
            + "bumblebee.local"@ + ":"@ + "1883"@),
        setup matches Ok(made) ==> {
            &&& made.client_id@ == instance@
            &&& made.prefix@ == "devices/ugly-duckling/"@ + instance@ + "/"@
            &&& made.mqtt.topic_root() == "devices/ugly-duckling/"@ + instance@
        },
        found matches Err(error) ==> setup == Err::<MqttSetup, E>(error),
{
    if let Ok(made) = setup {
        crate::kernel::mqtt::law_found_brokers_are_connected_to(made, found->Ok_0, instance@);
    }
}

} // verus!
