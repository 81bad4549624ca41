use std::cell::RefCell;
use ugly_duckling::kernel::mqtt::{
    deliver, handle_mqtt_event, respond, EventPayload, IncomingMessageResponse, Mqtt, MqttSetup,
    QoS, Reaction,
};
use ugly_duckling::kernel::network::{connects_on, init_mqtt};
use ugly_duckling::network::Service;

fn setup(found: Option<Service>) -> MqttSetup {
    Mqtt::create::<String>(Ok(found), "test-mk6").ok().unwrap()
}

fn received(topic: Option<&str>, data: &[u8]) -> EventPayload {
    EventPayload::Received { topic: topic.map(|t| t.to_string()), data: data.to_vec() }
}

#[test]
fn default_broker_is_used() {
    let setup = setup(None);
    assert_eq!(setup.url, "mqtt://bumblebee.local:1883");
    assert_eq!(setup.client_id, "test-mk6");
    assert_eq!(setup.prefix, "devices/ugly-duckling/test-mk6/");
    assert_eq!(setup.mqtt.root(), "devices/ugly-duckling/test-mk6");
}

#[test]
fn found_broker_is_used() {
    for (port, url) in vec![
        (0, "mqtt://broker.local:0"),
        (7, "mqtt://broker.local:7"),
        (10, "mqtt://broker.local:10"),
        (65535, "mqtt://broker.local:65535"),
    ] {
        let found = Service { hostname: "broker.local".to_string(), port };
        assert_eq!(setup(Some(found)).url, url);
    }
}

#[test]
fn failed_query_is_passed_on() {
    let failed = Mqtt::create(Err("no network".to_string()), "test-mk6");
    assert_eq!(failed.err(), Some("no network".to_string()));
    let failed = init_mqtt(Err("no network".to_string()), "test-mk6");
    assert_eq!(failed.err(), Some("no network".to_string()));
    let setup = init_mqtt::<String>(Ok(None), "test-mk6").ok().unwrap();
    assert_eq!(setup.url, "mqtt://bumblebee.local:1883");
}

#[test]
fn messages_are_published_under_the_root() {
    let mqtt = setup(None).mqtt;
    let message = mqtt.publish::<String>("init", Ok("{}".to_string())).ok().unwrap();
    assert_eq!(message.topic, "devices/ugly-duckling/test-mk6/init");
    assert_eq!(message.qos, QoS::AtMostOnce);
    assert!(!message.retain);
    assert_eq!(message.payload, "{}");
    let failed = mqtt.publish("init", Err("not written".to_string()));
    assert_eq!(failed.err(), Some("not written".to_string()));
}

#[test]
fn topics_are_subscribed_to_under_the_root() {
    let subscription = setup(None).mqtt.subscribe("commands/ping");
    assert_eq!(subscription.topic, "devices/ugly-duckling/test-mk6/commands/ping");
    assert_eq!(subscription.qos, QoS::AtMostOnce);
}

#[test]
fn own_topics_come_back_as_paths() {
    let setup = setup(None);
    for path in vec!["commands/ping", "", "a/b/c", "\u{1f986}"] {
        let message = setup.mqtt.publish::<String>(path, Ok("x".to_string())).ok().unwrap();
        let event = received(Some(&message.topic), b"x");
        assert_eq!(deliver(&setup.prefix, &event), Some((path, "x")));
    }
}

#[test]
fn other_messages_are_not_delivered() {
    let prefix = setup(None).prefix;
    assert_eq!(deliver(&prefix, &received(None, b"x")), None);
    assert_eq!(deliver(&prefix, &received(Some("devices/ugly-duckling/other/a"), b"x")), None);
    assert_eq!(deliver(&prefix, &received(Some("devices/ugly-duckling/test-mk6"), b"x")), None);
    let not_text = received(Some("devices/ugly-duckling/test-mk6/a"), &[0xff]);
    assert_eq!(deliver(&prefix, &not_text), None);
    let text = received(Some("devices/ugly-duckling/test-mk6/a"), "\u{e9}".as_bytes());
    assert_eq!(deliver(&prefix, &text), Some(("a", "\u{e9}")));
    assert_eq!(deliver(&prefix, &EventPayload::Disconnected), None);
}

#[test]
fn answers_are_published_under_the_prefix() {
    let answer: Result<IncomingMessageResponse, String> =
        Ok(Some(("responses/ping".to_string(), "pong".to_string())));
    match respond("root/", answer) {
        Reaction::Publish(message) => {
            assert_eq!(message.topic, "root/responses/ping");
            assert_eq!(message.payload, "pong");
            assert_eq!(message.qos, QoS::AtMostOnce);
            assert!(!message.retain);
        }
        _ => panic!("the answer is published"),
    }
    assert!(matches!(respond::<String>("root/", Ok(None)), Reaction::Ignore));
    assert!(matches!(respond("root/", Err("bad".to_string())), Reaction::Ignore));
}

#[test]
fn handler_sees_own_messages_only() {
    let seen: RefCell<Vec<(String, String)>> = RefCell::new(Vec::new());
    let handler = |path: &str, data: &str| -> Result<IncomingMessageResponse, String> {
        seen.borrow_mut().push((path.to_string(), data.to_string()));
        Ok(Some((format!("re/{}", path), data.to_string())))
    };
    let prefix = "devices/ugly-duckling/test-mk6/";
    let own = received(Some("devices/ugly-duckling/test-mk6/commands/ping"), b"hi");
    match handle_mqtt_event(prefix, &own, &handler) {
        Reaction::Publish(message) => {
            assert_eq!(message.topic, "devices/ugly-duckling/test-mk6/re/commands/ping");
            assert_eq!(message.payload, "hi");
        }
        _ => panic!("the answer is published"),
    }
    let other = received(Some("elsewhere"), b"hi");
    assert!(matches!(handle_mqtt_event(prefix, &other, &handler), Reaction::Ignore));
    let neighbour = received(Some("devices/ugly-duckling/test-mk60/commands/ping"), b"{}");
    assert!(matches!(handle_mqtt_event(prefix, &neighbour, &handler), Reaction::Ignore));
    let garbled = received(Some("devices/ugly-duckling/test-mk6/commands/ping"), b"\xff");
    assert!(matches!(handle_mqtt_event(prefix, &garbled, &handler), Reaction::Ignore));
    let connected = EventPayload::Connected(false);
    assert!(matches!(handle_mqtt_event(prefix, &connected, &handler), Reaction::SignalConnected));
    let lost = EventPayload::Disconnected;
    assert!(matches!(handle_mqtt_event(prefix, &lost, &handler), Reaction::Ignore));
    assert!(matches!(handle_mqtt_event(prefix, &EventPayload::Other, &handler), Reaction::Ignore));
    assert_eq!(*seen.borrow(), vec![("commands/ping".to_string(), "hi".to_string())]);
}

#[test]
fn devices_do_not_hear_each_other() {
    let first = Mqtt::create::<String>(Ok(None), "duck").ok().unwrap();
    let second = Mqtt::create::<String>(Ok(None), "duckling").ok().unwrap();
    let message = second.mqtt.publish::<String>("a", Ok(String::new())).ok().unwrap();
    assert_eq!(deliver(&first.prefix, &received(Some(&message.topic), b"")), None);
    assert_eq!(deliver(&second.prefix, &received(Some(&message.topic), b"")), Some(("a", "")));
}

#[test]
fn connection_is_signalled() {
    assert!(connects_on(&EventPayload::Connected(true)));
    assert!(!connects_on(&EventPayload::Disconnected));
    assert!(!connects_on(&received(None, b"x")));
}

#[test]
fn published_messages_come_back_whole() {
    let setup = Mqtt::create::<()>(Ok(None), "duck").ok().unwrap();
    let message = setup.mqtt.publish::<()>("echo", Ok("gr\u{fc}n".to_string())).ok().unwrap();
    let event = received(Some(&message.topic), message.payload.as_bytes());
    assert_eq!(deliver(&setup.prefix, &event), Some(("echo", "gr\u{fc}n")));
}
