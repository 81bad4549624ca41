use ugly_duckling::bring_up::{
    has_stored_client_configuration, Action, BringUpError, Reply, WifiBringUp, WpsFailure,
};
use ugly_duckling::kernel::network::{init_wifi, reconnects_on};
use ugly_duckling::kernel::wifi::WifiEvent;
use ugly_duckling::network::connect_wifi;
use ugly_duckling::wireless::{Configuration, HostnameTooLong, WpsCredentials, WpsStatus};

type Outcome = Result<Reply, String>;

fn done() -> Outcome {
    Ok(Reply::Done)
}

fn step(bring_up: &mut WifiBringUp, reply: Outcome) -> Action<String> {
    assert!(bring_up.awaits(&reply));
    bring_up.step(reply)
}

fn stored(ssid: &str) -> Outcome {
    Ok(Reply::Configuration(Configuration::Mixed { ssid: ssid.to_string() }))
}

fn credentials(ssid: &str, passphrase: &str) -> WpsCredentials {
    WpsCredentials { ssid: ssid.to_string(), passphrase: passphrase.to_string() }
}

#[test]
fn station_configuration_joins_without_wps() {
    let empty = String::new();
    assert!(has_stored_client_configuration(Configuration::Client { ssid: empty.clone() }));
    assert!(!has_stored_client_configuration(Configuration::Mixed { ssid: empty }));
    assert!(has_stored_client_configuration(Configuration::Mixed { ssid: "home".to_string() }));
    assert!(!has_stored_client_configuration(Configuration::Unset));
    assert!(!has_stored_client_configuration(Configuration::AccessPoint));
}

#[test]
fn stored_network_comes_up() {
    let init = init_wifi("duck").ok().unwrap();
    assert_eq!(init.hostname, "duck");
    let mut bring_up = init.bring_up;
    assert!(matches!(step(&mut bring_up, done()), Action::ReadConfiguration));
    assert!(matches!(step(&mut bring_up, stored("home")), Action::Connect));
    assert!(matches!(step(&mut bring_up, done()), Action::AwaitNetif));
    assert!(matches!(step(&mut bring_up, done()), Action::ReadIpInfo));
    assert!(matches!(step(&mut bring_up, done()), Action::Finish));
    assert!(!bring_up.awaits(&done()));
}

#[test]
fn test_device_does_not_read_its_address() {
    let mut bring_up = connect_wifi();
    step(&mut bring_up, done());
    match step(&mut bring_up, stored("")) {
        Action::StartWps(config) => assert_eq!(config.device_name, "test-mk6-rs-1"),
        _ => panic!("WPS is started"),
    }
    let connected = Ok(Reply::Wps(WpsStatus::SuccessConnected));
    assert!(matches!(step(&mut bring_up, connected), Action::Connect));
    assert!(matches!(step(&mut bring_up, done()), Action::AwaitNetif));
    assert!(matches!(step(&mut bring_up, done()), Action::Finish));
}

fn offered(credentials: Vec<WpsCredentials>) -> Outcome {
    Ok(Reply::Wps(WpsStatus::SuccessMultipleAccessPoints(credentials)))
}

#[test]
fn first_offered_network_is_stored() {
    let offers = vec![
        vec![credentials("first", "one")],
        vec![credentials("first", "one"), credentials("second", "two")],
    ];
    for offer in offers {
        let mut bring_up = connect_wifi();
        step(&mut bring_up, done());
        step(&mut bring_up, Ok(Reply::Configuration(Configuration::Unset)));
        assert!(!bring_up.awaits(&offered(vec![])));
        match step(&mut bring_up, offered(offer)) {
            Action::SetConfiguration(network) => {
                assert_eq!(network.ssid, "first");
                assert_eq!(network.password, "one");
            }
            _ => panic!("a network is stored"),
        }
        assert!(matches!(step(&mut bring_up, done()), Action::Connect));
    }
}

#[test]
fn failed_wps_is_told_in_words() {
    let failures = vec![
        (WpsStatus::Failure, WpsFailure::Failure, "WPS failure"),
        (WpsStatus::Timeout, WpsFailure::Timeout, "WPS timeout"),
        (WpsStatus::Pin(None), WpsFailure::Pin, "WPS pin"),
        (WpsStatus::PbcOverlap, WpsFailure::PbcOverlap, "WPS PBC overlap"),
    ];
    for (status, expected, words) in failures {
        let mut bring_up = connect_wifi();
        step(&mut bring_up, done());
        step(&mut bring_up, Ok(Reply::Configuration(Configuration::AccessPoint)));
        match step(&mut bring_up, Ok(Reply::Wps(status))) {
            Action::Fail(BringUpError::Wps(failure)) => {
                assert_eq!(failure, expected);
                assert_eq!(failure.message(), words);
            }
            _ => panic!("WPS failed"),
        }
        assert!(!bring_up.awaits(&done()));
    }
}

#[test]
fn failed_step_ends_with_its_error() {
    let mut bring_up = connect_wifi();
    step(&mut bring_up, done());
    assert!(!bring_up.awaits(&done()));
    match step(&mut bring_up, Err("no radio".to_string())) {
        Action::Fail(BringUpError::Step(error)) => assert_eq!(error, "no radio"),
        _ => panic!("the step failed"),
    }
    assert!(!bring_up.awaits(&done()));
}

#[test]
fn long_names_are_refused() {
    assert!(matches!(init_wifi(&"d".repeat(31)), Err(HostnameTooLong)));
    assert!(init_wifi(&"d".repeat(30)).is_ok());
}

#[test]
fn only_disconnection_reconnects() {
    assert!(reconnects_on(&WifiEvent::StaDisconnected));
    assert!(!reconnects_on(&WifiEvent::StaConnected));
    assert!(!reconnects_on(&WifiEvent::Other));
}
