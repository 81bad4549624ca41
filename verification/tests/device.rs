use std::cell::RefCell;
use std::rc::Rc;
use ugly_duckling::config;
use ugly_duckling::kernel::command::{Command, CommandHandler, CommandManager};
use ugly_duckling::kernel::console::{console_step, ConsoleCommand};
use ugly_duckling::kernel::init::{DeviceInit, InitAction, InitReply};
use ugly_duckling::kernel::mqtt::{Mqtt, QoS};
use ugly_duckling::kernel::{Device, DeviceConfig, PowerConfig};
use ugly_duckling::payload::Payload;
use ugly_duckling::tasks::{
    blink, init_message, reset_watcher, start_device, telemetry_message, DeviceAction, ResetAction,
    ResetEvent,
};

fn device_config(sleep_when_idle: bool) -> DeviceConfig {
    DeviceConfig { instance: "duck".to_string(), id: "D-1".to_string(), sleep_when_idle }
}

fn mqtt() -> Mqtt {
    Mqtt::create::<String>(Ok(None), "duck").ok().unwrap().mqtt
}

struct Recorder {
    name: &'static str,
    runs: Rc<RefCell<Vec<String>>>,
}

impl CommandHandler for Recorder {
    fn execute(&self, payload: &str) {
        self.runs.borrow_mut().push(format!("{}:{}", self.name, payload));
    }
}

#[test]
fn commands_run_by_name() {
    let runs = Rc::new(RefCell::new(Vec::new()));
    let recorder = |name: &'static str| Recorder { name, runs: runs.clone() };
    let mut manager = CommandManager::new();
    manager.register("ping", recorder("first"));
    manager.register("echo", recorder("echo"));
    manager.register("ping", recorder("second"));
    assert_eq!(manager.handle("ping", "1"), Ok(()));
    assert_eq!(manager.handle("echo", "2"), Ok(()));
    let unknown = manager.handle("pong", "3");
    assert_eq!(unknown, Err("Unregistered registered: pong".to_string()));
    assert_eq!(*runs.borrow(), vec!["second:1".to_string(), "echo:2".to_string()]);
}

#[test]
fn paths_are_told_apart_exactly() {
    let runs = Rc::new(RefCell::new(Vec::new()));
    let mut manager = CommandManager::new();
    manager.register("ping", Recorder { name: "ping", runs: runs.clone() });
    for path in vec!["Ping", "ping/", "", "pin"] {
        assert!(manager.handle(path, "5").is_err());
    }
    assert!(runs.borrow().is_empty());
}

#[test]
fn no_commands_at_first() {
    let manager: CommandManager<Recorder> = CommandManager::new();
    assert_eq!(manager.handle("", ""), Err("Unregistered registered: ".to_string()));
}

#[test]
fn delegate_gets_what_was_read() {
    let got = RefCell::new(Vec::new());
    let command = Command { delegate: |n: u32| got.borrow_mut().push(n) };
    assert_eq!(command.execute(Ok(7)), None);
    let report = command.execute(Err("not a number".to_string()));
    assert_eq!(report, Some("Failed to deserialize payload: not a number".to_string()));
    assert_eq!(*got.borrow(), vec![7]);
}

#[test]
fn idle_devices_sleep_when_told() {
    for sleep in vec![true, false] {
        let expected =
            PowerConfig { max_freq_mhz: 160, min_freq_mhz: 40, light_sleep_enable: sleep };
        assert_eq!(device_config(sleep).power(), expected);
    }
}

#[test]
fn test_device_has_a_configuration() {
    let config = config::DeviceConfig { instance: "duck".to_string(), id: "D-1".to_string() };
    assert_eq!(config.instance, "duck");
    assert_eq!(config.id, "D-1");
}

type TestDevice = Device<char, u8, u16, u32>;
type TestReply = Result<InitReply<char, u8, u16, u32, String>, String>;

fn assemble(
    sntp: Result<u8, String>,
    mqtts: Result<(u16, u32, String), String>,
) -> Result<TestDevice, String> {
    Device::assemble(device_config(true), 'w', sntp, mqtts)
}

fn init_step(
    init: &mut DeviceInit<char>,
    reply: TestReply,
) -> InitAction<char, u8, u16, u32, String> {
    assert!(init.awaits(&reply));
    init.step(reply)
}

/// A start that has the configuration loaded.
fn loaded() -> DeviceInit<char> {
    let mut init = TestDevice::init();
    assert!(matches!(init_step(&mut init, Ok(InitReply::Done)), InitAction::TakeTimer));
    assert!(matches!(init_step(&mut init, Ok(InitReply::Done)), InitAction::TakeNvs));
    assert!(matches!(init_step(&mut init, Ok(InitReply::Done)), InitAction::LoadConfig));
    match init_step(&mut init, Ok(InitReply::Config(device_config(true)))) {
        InitAction::ConfigurePower(power) => assert_eq!(power, device_config(true).power()),
        _ => panic!("power is configured"),
    }
    init
}

fn connecting() -> DeviceInit<char> {
    let mut init = loaded();
    match init_step(&mut init, Ok(InitReply::Done)) {
        InitAction::InitWifi { device_name } => assert_eq!(device_name, "duck"),
        _ => panic!("the network is initialised"),
    }
    assert!(matches!(init_step(&mut init, Ok(InitReply::Wifi('w'))), InitAction::TakeMdns));
    match init_step(&mut init, Ok(InitReply::Done)) {
        InitAction::Connect { instance } => assert_eq!(instance, "duck"),
        _ => panic!("the device is connected"),
    }
    init
}

#[test]
fn device_starts_in_order() {
    let mut init = connecting();
    let refused: TestReply = Err("join".to_string());
    assert!(!init.awaits(&refused));
    let connected =
        InitReply::Connected { sntp: Ok(1), mqtts: Ok((2, 3, "root".to_string())) };
    match init_step(&mut init, Ok(connected)) {
        InitAction::Finish(device) => {
            assert_eq!((device.wifi, device.sntp, device.mqtt, device.conn), ('w', 1, 2, 3));
            assert_eq!(device.config.instance, "duck");
            assert_eq!(device.topic_root, "root");
        }
        _ => panic!("the device is up"),
    }
    let more: TestReply = Ok(InitReply::Done);
    assert!(!init.awaits(&more));
}

#[test]
fn started_device_stands_under_its_instance() {
    let mut init = connecting();
    let topic_root = mqtt().root().to_string();
    let connected = InitReply::Connected { sntp: Ok(1), mqtts: Ok((2, 3, topic_root)) };
    match init_step(&mut init, Ok(connected)) {
        InitAction::Finish(device) => {
            assert_eq!(device.topic_root, "devices/ugly-duckling/duck");
            assert_eq!(
                device.subscribe_mqtt("commands/ping").topic,
                "devices/ugly-duckling/duck/commands/ping"
            );
        }
        _ => panic!("the device is up"),
    }
}

#[test]
fn configuration_that_does_not_load_ends_the_start() {
    let mut init = TestDevice::init();
    for _ in 0..3 {
        init_step(&mut init, Ok(InitReply::Done));
    }
    let unasked: TestReply = Ok(InitReply::Done);
    assert!(!init.awaits(&unasked));
    match init_step(&mut init, Err("no config".to_string())) {
        InitAction::Fail(error) => assert_eq!(error, "no config"),
        _ => panic!("the start failed"),
    }
    assert!(!init.awaits(&unasked));
}

#[test]
fn power_that_is_not_configured_ends_the_start() {
    let mut init = loaded();
    match init_step(&mut init, Err("no power".to_string())) {
        InitAction::Fail(error) => assert_eq!(error, "no power"),
        _ => panic!("the start failed"),
    }
    let more: TestReply = Ok(InitReply::Done);
    assert!(!init.awaits(&more));
}

#[test]
fn failed_connection_ends_the_start() {
    let mut init = connecting();
    let failed = InitReply::Connected {
        sntp: Err("clock".to_string()),
        mqtts: Err("broker".to_string()),
    };
    match init_step(&mut init, Ok(failed)) {
        InitAction::Fail(error) => assert_eq!(error, "broker"),
        _ => panic!("the start failed"),
    }
}

#[test]
fn device_is_put_together() {
    let device = assemble(Ok(1), Ok((2, 3, "root".to_string()))).ok().unwrap();
    assert_eq!(device.config.id, "D-1");
    assert_eq!((device.wifi, device.sntp, device.mqtt, device.conn), ('w', 1, 2, 3));
    let mut payload = Payload::new();
    payload.set_number("n", 1);
    let message = device.publish_mqtt("init", payload.into_value());
    assert_eq!(message.topic, "root/init");
    assert_eq!(message.payload, "{\"n\":1}");
    assert_eq!(message.qos, QoS::AtMostOnce);
    assert!(!message.retain);
    let subscription = device.subscribe_mqtt("commands/ping");
    assert_eq!(subscription.topic, "root/commands/ping");
    assert_eq!(subscription.qos, QoS::AtMostOnce);
}

#[test]
fn any_json_value_is_published() {
    let device = assemble(Ok(1), Ok((2, 3, "root".to_string()))).ok().unwrap();
    let list = serde_json::Value::Array(vec![
        serde_json::Value::Null,
        serde_json::Value::from(true),
        serde_json::Value::from(-1.5),
        serde_json::Value::from("a b"),
    ]);
    assert_eq!(device.publish_mqtt("list", list).payload, "[null,true,-1.5,\"a b\"]");
}

#[test]
fn broker_error_counts_first() {
    let both = assemble(Err("clock".to_string()), Err("broker".to_string()));
    assert_eq!(both.err(), Some("broker".to_string()));
    let clock = assemble(Err("clock".to_string()), Ok((2, 3, String::new())));
    assert_eq!(clock.err(), Some("clock".to_string()));
    let broker = assemble(Ok(1), Err("broker".to_string()));
    assert_eq!(broker.err(), Some("broker".to_string()));
}

#[test]
fn payload_is_compact_json_in_key_order() {
    assert_eq!(Payload::new().into_text(), "{}");
    let mut payload = Payload::new();
    payload.set_number("b", u64::MAX);
    payload.set_text("a", "x");
    payload.set_text("B", "y");
    payload.set_text("ab", "z");
    payload.set_number("b", 0);
    assert_eq!(payload.into_text(), "{\"B\":\"y\",\"a\":\"x\",\"ab\":\"z\",\"b\":0}");
}

#[test]
fn payload_strings_are_escaped() {
    let mut payload = Payload::new();
    payload.set_text("k\"", "q\" b\\ \u{8}\t\n\u{c}\r \u{1}\u{1f}\u{7f} \u{e9}\u{1f986}/");
    assert_eq!(
        payload.into_text(),
        "{\"k\\\"\":\"q\\\" b\\\\ \\b\\t\\n\\f\\r \\u0001\\u001f\u{7f} \u{e9}\u{1f986}/\"}"
    );
}

#[test]
fn telemetry_is_reported_in_milliseconds() {
    let message = telemetry_message(&mqtt(), 1_234_999, 4096);
    assert_eq!(message.topic, "devices/ugly-duckling/duck/telemetry");
    assert_eq!(message.payload, "{\"memory\":4096,\"uptime\":1234}");
    let longest = telemetry_message(&mqtt(), u64::MAX - 1, 0);
    assert_eq!(longest.payload, "{\"memory\":0,\"uptime\":18446744073709551}");
    assert_eq!(telemetry_message(&mqtt(), 999, 1).payload, "{\"memory\":1,\"uptime\":0}");
}

#[test]
fn device_announces_itself() {
    let written: Result<String, String> = Ok("{\"id\":\"D-1\"}".to_string());
    let message = init_message(&mqtt(), &device_config(false), written, "v1.0", Ok(1_700_000_000));
    let message = message.unwrap();
    assert_eq!(message.topic, "devices/ugly-duckling/duck/init");
    assert_eq!(
        message.payload,
        "{\"app\":\"ugly-duckling-rs\",\"deviceConfig\":\"{\\\"id\\\":\\\"D-1\\\"}\",\
         \"id\":\"D-1\",\"instance\":\"duck\",\"model\":\"mk6\",\"time\":1700000000,\
         \"type\":\"ugly-duckling\",\"version\":\"v1.0\"}"
    );
}

#[test]
fn announcement_fails_with_the_configuration_first() {
    let config = device_config(false);
    let written = || Err::<String, String>("config".to_string());
    let both = init_message(&mqtt(), &config, written(), "v", Err("time".to_string()));
    assert_eq!(both.err(), Some("config".to_string()));
    let first = init_message(&mqtt(), &config, written(), "v", Ok(1));
    assert_eq!(first.err(), Some("config".to_string()));
    let time = init_message(&mqtt(), &config, Ok(String::new()), "v", Err("time".to_string()));
    assert_eq!(time.err(), Some("time".to_string()));
}

#[test]
fn device_subscribes_announces_and_reports() {
    let mut task = start_device();
    match task.step::<String>(Ok(())) {
        DeviceAction::Subscribe { topic } => assert_eq!(topic, "commands/ping"),
        _ => panic!("the device subscribes"),
    }
    assert!(matches!(task.step::<String>(Ok(())), DeviceAction::Announce));
    for _ in 0..3 {
        assert!(matches!(task.step::<String>(Ok(())), DeviceAction::Report));
        assert!(matches!(task.step::<String>(Ok(())), DeviceAction::Rest { secs: 5 }));
        assert!(!task.awaits(&Err("rest".to_string())));
    }
    task.step::<String>(Ok(()));
    match task.step(Err("lost".to_string())) {
        DeviceAction::Fail(error) => assert_eq!(error, "lost"),
        _ => panic!("the report failed"),
    }
    assert!(!task.awaits::<String>(&Ok(())));
}

#[test]
fn reset_needs_a_full_hold() {
    let mut watcher = reset_watcher();
    assert!(!watcher.awaits::<String>(&ResetEvent::HoldElapsed));
    for _ in 0..2 {
        let pressed = watcher.step::<String>(ResetEvent::Pressed(Ok(())));
        assert!(matches!(pressed, ResetAction::TimeHold { secs: 5 }));
        assert!(!watcher.awaits::<String>(&ResetEvent::Pressed(Ok(()))));
        assert!(matches!(watcher.step::<String>(ResetEvent::Released), ResetAction::AwaitPress));
    }
    watcher.step::<String>(ResetEvent::Pressed(Ok(())));
    let held = watcher.step::<String>(ResetEvent::HoldElapsed);
    assert!(matches!(held, ResetAction::RestoreAndRestart));
    assert!(!watcher.awaits::<String>(&ResetEvent::Released));
}

#[test]
fn broken_button_ends_the_watcher() {
    let mut watcher = reset_watcher();
    match watcher.step(ResetEvent::Pressed(Err("pin".to_string()))) {
        ResetAction::Fail(error) => assert_eq!(error, "pin"),
        _ => panic!("the watcher ends"),
    }
}

#[test]
fn light_blinks() {
    let mut light = blink();
    for i in 0..4 {
        let step = light.step();
        assert_eq!(step.high, i % 2 == 0);
        assert_eq!(step.secs, 1);
    }
}

#[test]
fn light_flickers_for_every_byte() {
    assert_eq!(
        console_step(true),
        vec![
            ConsoleCommand::SetLow,
            ConsoleCommand::Sleep { millis: 250 },
            ConsoleCommand::SetHigh,
            ConsoleCommand::Sleep { millis: 250 },
        ]
    );
    assert_eq!(console_step(false), vec![ConsoleCommand::Sleep { millis: 100 }]);
}
