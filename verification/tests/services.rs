use ugly_duckling::kernel::mdns::{
    query_mdns, query_mdns_address, IpAddr, QueryFailure, QueryResult, ESP_ERR_NOT_FOUND,
};
use ugly_duckling::kernel::mqtt::broker_query;
use ugly_duckling::kernel::rtc::{
    init_rtc, ntp_query, ntp_service, RtcAction, RtcReply, RTC_INITIALIZED_SECS,
};
use ugly_duckling::network::{query_mdns as query_by_name, Service};
use ugly_duckling::text::decimal_text;

fn answer() -> QueryResult {
    QueryResult {
        hostname: Some("broker".to_string()),
        addr: vec![IpAddr::V4([10, 0, 0, 7]), IpAddr::V6([0; 16])],
        port: 1883,
    }
}

fn failure(code: i32) -> QueryFailure {
    QueryFailure { code, text: "ESP_FAIL".to_string() }
}

#[test]
fn decimals_are_written_out() {
    assert_eq!(decimal_text(0), "0");
    assert_eq!(decimal_text(9), "9");
    assert_eq!(decimal_text(10), "10");
    assert_eq!(decimal_text(1234567890), "1234567890");
    assert_eq!(decimal_text(u64::MAX), "18446744073709551615");
}

#[test]
fn address_is_found() {
    let found = query_mdns_address(Ok([192, 168, 1, 2]), "host", 80).unwrap().unwrap();
    assert_eq!(found.hostname, "host");
    assert_eq!(found.addr, IpAddr::V4([192, 168, 1, 2]));
    assert_eq!(found.port, 80);
}

#[test]
fn missing_address_is_no_error() {
    let missing = query_mdns_address(Err(failure(ESP_ERR_NOT_FOUND)), "host", 80);
    assert!(matches!(missing, Ok(None)));
    let failed = query_mdns_address(Err(failure(-1)), "host", 80);
    assert_eq!(failed.err(), Some("ESP_FAIL".to_string()));
}

#[test]
fn service_is_found_with_its_first_address() {
    let found = query_mdns::<String>(Ok(answer())).unwrap().unwrap();
    assert_eq!(found.hostname, "broker.local");
    assert_eq!(found.addr, IpAddr::V4([10, 0, 0, 7]));
    assert_eq!(found.port, 1883);
    assert!(matches!(query_mdns::<String>(Ok(QueryResult::empty())), Ok(None)));
    assert_eq!(query_mdns(Err("down".to_string())).err(), Some("down".to_string()));
}

#[test]
fn service_is_found_by_name() {
    let found = query_by_name::<String>(Ok(answer())).unwrap().unwrap();
    assert_eq!(found.hostname, "broker.local");
    assert_eq!(found.port, 1883);
    assert!(matches!(query_by_name::<String>(Ok(QueryResult::empty())), Ok(None)));
    assert_eq!(query_by_name(Err("down".to_string())).err(), Some("down".to_string()));
}

#[test]
fn public_pool_is_the_default() {
    let default = ntp_service(None);
    assert_eq!(default.hostname, "pool.ntp.org");
    assert_eq!(default.port, 123);
    let found = ntp_service(Some(Service { hostname: "ntp.local".to_string(), port: 1123 }));
    assert_eq!(found.hostname, "ntp.local");
    assert_eq!(found.port, 1123);
}

#[test]
fn unset_clock_is_waited_for() {
    assert_eq!(RTC_INITIALIZED_SECS, 1_639_872_000);
    for clock in vec![None, Some(0), Some(RTC_INITIALIZED_SECS - 1)] {
        let mut rtc = init_rtc();
        assert!(rtc.awaits::<String>(&Ok(RtcReply::Found(None))));
        match rtc.step::<String>(Ok(RtcReply::Found(None))) {
            RtcAction::StartSntp { server } => assert_eq!(server, "pool.ntp.org"),
            _ => panic!("the time server is started"),
        }
        assert!(!rtc.awaits::<String>(&Ok(RtcReply::Synced)));
        assert!(matches!(rtc.step::<String>(Ok(RtcReply::Started)), RtcAction::ReadClock));
        assert!(!rtc.awaits(&Err("late".to_string())));
        assert!(matches!(rtc.step::<String>(Ok(RtcReply::Clock(clock))), RtcAction::AwaitSync));
        assert!(matches!(rtc.step::<String>(Ok(RtcReply::Synced)), RtcAction::Finish));
        assert!(!rtc.awaits::<String>(&Ok(RtcReply::Synced)));
    }
}

#[test]
fn set_clock_is_not_waited_for() {
    let mut rtc = init_rtc();
    let found = Some(Service { hostname: "ntp.local".to_string(), port: 123 });
    match rtc.step::<String>(Ok(RtcReply::Found(found))) {
        RtcAction::StartSntp { server } => assert_eq!(server, "ntp.local"),
        _ => panic!("the time server is started"),
    }
    rtc.step::<String>(Ok(RtcReply::Started));
    let clock = Ok(RtcReply::Clock(Some(RTC_INITIALIZED_SECS)));
    assert!(matches!(rtc.step::<String>(clock), RtcAction::Finish));
}

#[test]
fn clock_fails_with_the_query_or_the_server() {
    let mut rtc = init_rtc();
    match rtc.step(Err("no query".to_string())) {
        RtcAction::Fail(error) => assert_eq!(error, "no query"),
        _ => panic!("the query failed"),
    }
    let mut rtc = init_rtc();
    rtc.step::<String>(Ok(RtcReply::Found(None)));
    match rtc.step(Err("no server".to_string())) {
        RtcAction::Fail(error) => assert_eq!(error, "no server"),
        _ => panic!("the server failed"),
    }
    assert!(!rtc.awaits::<String>(&Ok(RtcReply::Started)));
}

#[test]
fn queries_ask_for_one_service() {
    let ntp = ntp_query();
    assert_eq!((ntp.service.as_str(), ntp.proto.as_str()), ("_ntp", "_udp"));
    assert_eq!((ntp.timeout_secs, ntp.max_results), (5, 1));
    let broker = broker_query();
    assert_eq!((broker.service.as_str(), broker.proto.as_str()), ("_mqtt", "_tcp"));
    assert_eq!((broker.timeout_secs, broker.max_results), (5, 1));
}
