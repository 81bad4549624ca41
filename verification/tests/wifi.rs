use ugly_duckling::kernel::wifi::{
    has_stored_client_configuration, has_stored_ssid, StationInput, Wifi, WifiCommand, WifiEvent,
    WifiEventTask,
};
use ugly_duckling::wireless::{
    dhcp_hostname, AuthMethod, Configuration, HostnameTooLong, WpsCredentials, WpsType,
};

fn client(ssid: &str) -> Configuration {
    Configuration::Client { ssid: ssid.to_string() }
}

fn mixed(ssid: &str) -> Configuration {
    Configuration::Mixed { ssid: ssid.to_string() }
}

fn event(task: &mut WifiEventTask, event: WifiEvent) -> Vec<WifiCommand> {
    task.step(StationInput::Event(event))
}

fn configuration(task: &mut WifiEventTask, configuration: Configuration) -> Vec<WifiCommand> {
    task.step(StationInput::Configuration(configuration))
}

fn credentials() -> Vec<WpsCredentials> {
    vec![
        WpsCredentials { ssid: "home".to_string(), passphrase: "secret".to_string() },
        WpsCredentials { ssid: "guests".to_string(), passphrase: "open".to_string() },
    ]
}

#[test]
fn ssid_is_stored_unless_empty() {
    assert!(has_stored_ssid("home", ""));
    assert!(has_stored_ssid("home", " (mixed)"));
    assert!(!has_stored_ssid("", ""));
    assert!(!has_stored_ssid("", " (mixed)"));
}

#[test]
fn configuration_is_stored_with_an_ssid() {
    assert!(has_stored_client_configuration(client("home")));
    assert!(!has_stored_client_configuration(client("")));
    assert!(has_stored_client_configuration(mixed("home")));
    assert!(!has_stored_client_configuration(mixed("")));
    assert!(!has_stored_client_configuration(Configuration::Unset));
    assert!(!has_stored_client_configuration(Configuration::AccessPoint));
}

#[test]
fn hostname_holds_thirty_bytes() {
    let fits = "a".repeat(30);
    assert_eq!(dhcp_hostname(&fits), Ok(fits.clone()));
    assert_eq!(dhcp_hostname(&"a".repeat(31)), Err(HostnameTooLong));
    let umlauts = "\u{fc}".repeat(15);
    assert_eq!(dhcp_hostname(&umlauts), Ok(umlauts.clone()));
    assert_eq!(dhcp_hostname(&"\u{fc}".repeat(16)), Err(HostnameTooLong));
    assert_eq!(dhcp_hostname(""), Ok(String::new()));
}

#[test]
fn wifi_is_created_with_the_device_name() {
    let mut wifi = Wifi::create("duck").ok().unwrap();
    assert_eq!(wifi.hostname, "duck");
    event(&mut wifi.task, WifiEvent::StaStarted);
    let commands = configuration(&mut wifi.task, Configuration::Unset);
    match &commands[1] {
        WifiCommand::StartWps(config) => assert_eq!(config.device_name, "duck"),
        _ => panic!("WPS is started"),
    }
    assert!(matches!(Wifi::create(&"x".repeat(31)), Err(HostnameTooLong)));
}

#[test]
fn stored_network_is_connected_to() {
    let mut task = WifiEventTask::new("duck");
    let commands = event(&mut task, WifiEvent::StaStarted);
    assert_eq!(commands.len(), 1);
    assert!(matches!(commands[0], WifiCommand::ReadConfiguration));
    let commands = configuration(&mut task, client("home"));
    assert_eq!(commands.len(), 1);
    assert!(matches!(commands[0], WifiCommand::Connect));
    assert!(configuration(&mut task, client("home")).is_empty());
}

#[test]
fn wps_is_started_without_a_stored_network() {
    let mut task = WifiEventTask::new("duck");
    event(&mut task, WifiEvent::StaStarted);
    let commands = configuration(&mut task, client(""));
    assert_eq!(commands.len(), 2);
    assert!(matches!(commands[0], WifiCommand::ClearConfiguration));
    match &commands[1] {
        WifiCommand::StartWps(config) => {
            assert_eq!(config.wps_type, WpsType::Pbc);
            assert_eq!(config.manufacturer, "FarmHub");
            assert_eq!(config.model_name, "Ugly Duckling");
            assert_eq!(config.model_number, "MK6");
            assert_eq!(config.device_name, "duck");
        }
        _ => panic!("WPS is started"),
    }
}

#[test]
fn running_wps_is_not_disturbed() {
    let mut task = WifiEventTask::new("duck");
    event(&mut task, WifiEvent::StaConnected);
    event(&mut task, WifiEvent::StaStarted);
    configuration(&mut task, Configuration::Unset);
    assert!(event(&mut task, WifiEvent::StaStarted).is_empty());
    assert!(event(&mut task, WifiEvent::StaDisconnected).is_empty());
    assert!(configuration(&mut task, Configuration::Unset).is_empty());
}

#[test]
fn wps_without_credentials_connects() {
    let mut task = WifiEventTask::new("duck");
    let commands = event(&mut task, WifiEvent::StaWpsSuccess(vec![]));
    assert_eq!(commands.len(), 2);
    assert!(matches!(commands[0], WifiCommand::StopWps));
    assert!(matches!(commands[1], WifiCommand::Connect));
}

#[test]
fn wps_with_credentials_stores_the_first_network() {
    let mut task = WifiEventTask::new("duck");
    let commands = event(&mut task, WifiEvent::StaWpsSuccess(credentials()));
    assert_eq!(commands.len(), 3);
    assert!(matches!(commands[0], WifiCommand::StopWps));
    match &commands[1] {
        WifiCommand::SetConfiguration(network) => {
            assert_eq!(network.ssid, "home");
            assert_eq!(network.password, "secret");
            assert_eq!(network.auth_method, AuthMethod::WPA2Personal);
            assert_eq!(network.bssid, None);
            assert_eq!(network.channel, None);
        }
        _ => panic!("a network is stored"),
    }
    assert!(matches!(commands[2], WifiCommand::Connect));
}

#[test]
fn wps_starts_again_only_after_success() {
    let mut task = WifiEventTask::new("duck");
    let mut started = 0;
    for _ in 0..3 {
        event(&mut task, WifiEvent::StaStarted);
        for command in configuration(&mut task, Configuration::Unset) {
            if matches!(command, WifiCommand::StartWps(_)) {
                started += 1;
            }
        }
    }
    assert_eq!(started, 1);
    event(&mut task, WifiEvent::StaWpsSuccess(credentials()));
    event(&mut task, WifiEvent::StaStarted);
    assert_eq!(configuration(&mut task, Configuration::AccessPoint).len(), 2);
}

#[test]
fn wps_failures_end_the_task() {
    let failures = vec![
        WifiEvent::StaWpsFailed,
        WifiEvent::StaWpsTimeout,
        WifiEvent::StaWpsPin(Some(1234)),
        WifiEvent::StaWpsPbcOverlap,
    ];
    for failure in failures {
        let mut task = WifiEventTask::new("duck");
        event(&mut task, WifiEvent::StaConnected);
        event(&mut task, WifiEvent::StaStarted);
        let commands = event(&mut task, failure);
        assert_eq!(commands.len(), 1);
        assert!(matches!(commands[0], WifiCommand::AbortWps));
        assert!(configuration(&mut task, client("home")).is_empty());
        assert!(event(&mut task, WifiEvent::StaStarted).is_empty());
        assert!(event(&mut task, WifiEvent::StaDisconnected).is_empty());
        assert!(event(&mut task, WifiEvent::StaWpsSuccess(credentials())).is_empty());
        assert!(event(&mut task, WifiEvent::Ready).is_empty());
        assert!(event(&mut task, WifiEvent::StaWpsFailed).is_empty());
    }
}

#[test]
fn lost_connection_is_made_again_once() {
    let mut task = WifiEventTask::new("duck");
    assert!(event(&mut task, WifiEvent::StaDisconnected).is_empty());
    assert!(event(&mut task, WifiEvent::StaConnected).is_empty());
    let commands = event(&mut task, WifiEvent::StaDisconnected);
    assert_eq!(commands.len(), 1);
    assert!(matches!(commands[0], WifiCommand::Reconnect));
    assert!(event(&mut task, WifiEvent::StaDisconnected).is_empty());
}

#[test]
fn two_reports_of_a_connection_reconnect_once() {
    let mut task = WifiEventTask::new("duck");
    event(&mut task, WifiEvent::StaConnected);
    event(&mut task, WifiEvent::StaConnected);
    assert_eq!(event(&mut task, WifiEvent::StaDisconnected).len(), 1);
    assert!(event(&mut task, WifiEvent::StaDisconnected).is_empty());
    event(&mut task, WifiEvent::StaConnected);
    assert_eq!(event(&mut task, WifiEvent::StaDisconnected).len(), 1);
}

#[test]
fn readiness_is_signalled() {
    let mut task = WifiEventTask::new("duck");
    let commands = event(&mut task, WifiEvent::Ready);
    assert_eq!(commands.len(), 2);
    assert!(matches!(commands[0], WifiCommand::SignalReady));
    assert!(matches!(commands[1], WifiCommand::ReportIpInfo));
    assert!(event(&mut task, WifiEvent::Other).is_empty());
}
