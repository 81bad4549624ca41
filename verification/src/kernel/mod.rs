//! What every device does: it has a configuration, a clock, and messages.

pub mod command;
pub mod console;
pub mod init;
pub mod mdns;
pub mod mqtt;
pub mod network;
pub mod rtc;
pub mod wifi;

use crate::kernel::init::DeviceInit;
use crate::kernel::mqtt::{make_message, make_topic, MqttMessage, QoS, Subscription};
use crate::payload::value_text;
use vstd::prelude::*;

verus! {

/// The clock rate of the processor under load.
pub const MAX_FREQ_MHZ: i32 = 160;

/// The clock rate of the processor at rest.
pub const MIN_FREQ_MHZ: i32 = 40;

/// Which device this is, and whether it sleeps when it is idle.
#[derive(Debug)]
pub struct DeviceConfig {
    pub instance: String,
    pub id: String,
    pub sleep_when_idle: bool,
}

/// How the processor saves power.
#[derive(Clone, Copy, PartialEq, Eq, Structural, Debug)]
pub struct PowerConfig {
    pub max_freq_mhz: i32,
    pub min_freq_mhz: i32,
    pub light_sleep_enable: bool,
}

impl DeviceConfig {
    /// How the processor of the device saves power: it sleeps when it is idle if the
    /// device does.
    pub open spec fn saves_power(self) -> PowerConfig {
        PowerConfig {
            max_freq_mhz: 160,
            min_freq_mhz: 40,
            light_sleep_enable: self.sleep_when_idle,
        }
    }

    /// How the processor of the device saves power.
    pub fn power(&self) -> (power: PowerConfig)
        ensures
            power == self.saves_power(),
    {
        PowerConfig {
            max_freq_mhz: MAX_FREQ_MHZ,
            min_freq_mhz: MIN_FREQ_MHZ,
            light_sleep_enable: self.sleep_when_idle,
        }
    }
}

/// A device that is up: its configuration, what keeps its network, its clock and
/// its connection alive, and the topic under which everything of it stands.
pub struct Device<W, S, M, C> {
    pub config: DeviceConfig,
    pub wifi: W,
    pub sntp: S,
    pub mqtt: M,
    pub conn: C,
    pub topic_root: String,
}

impl<W, S, M, C> Device<W, S, M, C> {
    /// Begins to start a device, with the system's event loop being taken.
    pub fn init() -> (init: DeviceInit<W>)
        ensures
            init.stage() is TakingEventLoop,
    {
        DeviceInit::new()
    }

    /// The device whose network is up, from how setting the clock and connecting to
    /// the broker went. If both failed, the broker's error counts.
    pub open spec fn assembled<E>(
        config: DeviceConfig,
        wifi: W,
        sntp: Result<S, E>,
        mqtts: Result<(M, C, String), E>,
    ) -> Result<Self, E> {
        match mqtts {
            Err(error) => Err(error),
            Ok(connection) => match sntp {
                Err(error) => Err(error),
                Ok(clock) => Ok(
                    Device {
                        config,
                        wifi,
                        sntp: clock,
                        mqtt: connection.0,
                        conn: connection.1,
                        topic_root: connection.2,
                    },
                ),
            },
        }
    }

    /// Puts a device together once its network is up, from how setting the clock
    /// and connecting to the broker went. If both failed, the broker's error counts.
    pub fn assemble<E>(
        config: DeviceConfig,
        wifi: W,
        sntp: Result<S, E>,
        mqtts: Result<(M, C, String), E>,
    ) -> (device: Result<Self, E>)
        ensures
            device == Self::assembled(config, wifi, sntp, mqtts),
    {
        let (mqtt, conn, topic_root): (M, C, String) = match mqtts {
            Ok(connection) => connection,
            Err(error) => return Err(error),
        };
        match sntp {
            Ok(clock) => Ok(Device { config, wifi, sntp: clock, mqtt, conn, topic_root }),
            Err(error) => Err(error),
        }
    }

    /// The message that publishes a JSON value under `topic`.
    pub fn publish_mqtt(&self, topic: &str, payload: serde_json::Value) -> (message: MqttMessage)
        ensures
            message@ == mqtt::plain_message(
                mqtt::topic_under(self.topic_root@, topic@),
                crate::payload::json_text(payload),
            ),
    {
        make_message(self.topic_root.as_str(), topic, value_text(&payload))
    }

    /// The subscription to `topic`.
    pub fn subscribe_mqtt(&self, topic: &str) -> (subscription: Subscription)
        ensures
            subscription.topic@ == mqtt::topic_under(self.topic_root@, topic@),
            subscription.qos is AtMostOnce,
    {
        Subscription { topic: make_topic(self.topic_root.as_str(), topic), qos: QoS::AtMostOnce }
    }
}

/// Everything of a device stands under its own instance: one that is put together with
/// the topic root of its instance's messages keeps that root.
pub proof fn law_topics_stand_under_the_instance<W, S, M, C, E>(
    config: DeviceConfig,
    wifi: W,
    sntp: Result<S, E>,
    connection: (M, C, String),
    setup: mqtt::MqttSetup,
    broker: crate::network::ServiceView,
)
    requires
        setup.describes(broker, config.instance@),
        connection.2@ == setup.mqtt.topic_root(),
    ensures
        Device::<W, S, M, C>::assembled(config, wifi, sntp, Ok(connection)) matches Ok(device)
            ==> device.topic_root@ == mqtt::root_of(device.config.instance@),
{
}

/// A processor sleeps exactly if its device is to sleep when it is idle; its clock rates do
/// not depend on the device.
pub proof fn law_power_follows_the_configuration(config: DeviceConfig)
    ensures
        config.saves_power().light_sleep_enable == config.sleep_when_idle,
        config.saves_power().max_freq_mhz == 160,
        config.saves_power().min_freq_mhz == 40,
{
}

/// A device is put together exactly if both its clock and its connection were set up, and
/// keeps every part that it was given; otherwise the broker's error counts, and the clock's
/// only without one.
pub proof fn law_devices_keep_their_parts<W, S, M, C, E>(
    config: DeviceConfig,
    wifi: W,
    clock: S,
    connection: (M, C, String),
    clock_error: E,
    broker_error: E,
)
    ensures
        Device::<W, S, M, C>::assembled(config, wifi, Ok::<S, E>(clock), Ok(connection)) matches Ok(
            device,
        ) && {
            &&& device.config == config
            &&& device.wifi == wifi
            &&& device.sntp == clock
            &&& device.mqtt == connection.0
            &&& device.conn == connection.1
            &&& device.topic_root == connection.2
        },
        Device::<W, S, M, C>::assembled(config, wifi, Ok::<S, E>(clock), Err(broker_error)) == Err::<
            Device<W, S, M, C>,
            E,
        >(broker_error),
        Device::<W, S, M, C>::assembled(config, wifi, Err::<S, E>(clock_error), Err(broker_error))
            == Err::<Device<W, S, M, C>, E>(broker_error),
        Device::<W, S, M, C>::assembled(config, wifi, Err::<S, E>(clock_error), Ok(connection))
            == Err::<Device<W, S, M, C>, E>(clock_error),
{
}

/// A JSON value is published as its whole text, under the device's root and a slash; a
/// subscription stands there too.
pub proof fn law_devices_publish_under_their_root<W, S, M, C>(
    device: Device<W, S, M, C>,
    topic: &str,
    payload: serde_json::Value,
    message: MqttMessage,
    subscription: Subscription,
)
    requires
        call_ensures(Device::<W, S, M, C>::publish_mqtt, (&device, topic, payload), message),
        call_ensures(Device::<W, S, M, C>::subscribe_mqtt, (&device, topic), subscription),
    ensures
        message.topic@ == device.topic_root@ + "/"@ + topic@,
        message.payload@ == crate::payload::json_text(payload),
        message.qos is AtMostOnce,
        !message.retain,
        subscription.topic@ == device.topic_root@ + "/"@ + topic@,
        subscription.qos is AtMostOnce,
{
}

} // verus!
