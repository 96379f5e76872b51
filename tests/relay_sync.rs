use relay_sync::bank::{Level, RelayBank};
use relay_sync::cycle::{apply_reading, reconcile};
use relay_sync::decode::{decide, decode_desired, desired_from_integer};
use relay_sync::identity::{device_id_from_mac, make_device_id};
use relay_sync::link::{ConnectWait, WaitStep};
use relay_sync::paths::{firebase_url, relay_path, status_path, RemoteConfig};
use relay_sync::plan::{cycle_plan, startup_plan, Cadence, Command};

fn names() -> Vec<String> {
    vec![
        "relay1".to_string(),
        "relay2".to_string(),
        "relay3".to_string(),
        "relay4".to_string(),
    ]
}

fn readings(items: &[Option<&str>]) -> Vec<Option<String>> {
    items.iter().map(|r| r.map(|s| s.to_string())).collect()
}

fn levels(bank: &RelayBank) -> Vec<Level> {
    (0..bank.len()).map(|i| bank.level(i)).collect()
}

#[test]
fn device_id_is_prefix_and_upper_hex() {
    let id = device_id_from_mac([0x24, 0x0a, 0xc4, 0x12, 0x34, 0x56]);
    assert_eq!(id, "ESP32_240AC4123456");
    assert_eq!(device_id_from_mac([0, 0, 0, 0, 0, 0]), "ESP32_000000000000");
    assert_eq!(device_id_from_mac([0xff; 6]), "ESP32_FFFFFFFFFFFF");
}

#[test]
fn device_id_is_stable_across_derivations() {
    let mac = [0xde, 0xad, 0xbe, 0xef, 0x01, 0x02];
    let first = device_id_from_mac(mac);
    let second = device_id_from_mac(mac);
    assert_eq!(first, second);
    assert_ne!(first, device_id_from_mac([0xde, 0xad, 0xbe, 0xef, 0x01, 0x03]));
}

#[test]
fn fallback_id_is_sixteen_upper_hex_digits() {
    assert_eq!(make_device_id(0x0000_240a_c412_3456), "ESP32_0000240AC4123456");
    assert_eq!(make_device_id(0), "ESP32_0000000000000000");
    assert_eq!(make_device_id(0x0000_0001_0000_000f), "ESP32_000000010000000F");
    assert_eq!(make_device_id(0x0000_0001_020a_0bff), "ESP32_00000001020A0BFF");
    assert_eq!(make_device_id(u64::MAX), "ESP32_FFFFFFFFFFFFFFFF");
}

#[test]
fn fallback_id_tells_values_apart() {
    let a = make_device_id(0x1_0000_0023);
    let b = make_device_id(0x12_0000_0003);
    assert_eq!(a, "ESP32_0000000100000023");
    assert_eq!(b, "ESP32_0000001200000003");
    assert_ne!(a, b);
    assert_eq!(a, make_device_id(0x1_0000_0023));
}

#[test]
fn record_paths() {
    assert_eq!(status_path("ESP32_AB"), "devices/ESP32_AB/status");
    assert_eq!(relay_path("ESP32_AB", "relay3"), "devices/ESP32_AB/relays/relay3");
}

#[test]
fn url_with_token() {
    let config = RemoteConfig {
        database_url: "https://example-rtdb.firebaseio.com//".to_string(),
        auth: Some("SECRET-REDACTED".to_string()),
    };
    assert_eq!(
        firebase_url(&config, "/devices/X/status"),
        "https://example-rtdb.firebaseio.com/devices/X/status.json?auth=SECRET-REDACTED"
    );
}

#[test]
fn url_without_token() {
    let config = RemoteConfig {
        database_url: "https://example-rtdb.firebaseio.com".to_string(),
        auth: None,
    };
    assert_eq!(
        firebase_url(&config, "devices/X/relays/relay1"),
        "https://example-rtdb.firebaseio.com/devices/X/relays/relay1.json"
    );
}

#[test]
fn integer_polarity() {
    assert!(desired_from_integer(1));
    assert!(!desired_from_integer(0));
    assert!(!desired_from_integer(2));
    assert!(!desired_from_integer(-1));
    assert!(!desired_from_integer(i64::MIN));
    assert_eq!(decide(Some(1)), Some(true));
    assert_eq!(decide(Some(7)), Some(false));
    assert_eq!(decide(None), None);
}

#[test]
fn decode_integers() {
    assert_eq!(decode_desired("1"), Some(true));
    assert_eq!(decode_desired("0"), Some(false));
    assert_eq!(decode_desired("2"), Some(false));
    assert_eq!(decode_desired("-1"), Some(false));
    assert_eq!(decode_desired("  1\r\n"), Some(true));
    assert_eq!(decode_desired("\t0 "), Some(false));
    assert_eq!(decode_desired("\u{a0}1\u{2003}"), Some(true));
}

#[test]
fn decode_malformed() {
    assert_eq!(decode_desired(""), None);
    assert_eq!(decode_desired("   \n"), None);
    assert_eq!(decode_desired("on"), None);
    assert_eq!(decode_desired("\"on\""), None);
    assert_eq!(decode_desired("\"1\""), None);
    assert_eq!(decode_desired("[1]"), None);
    assert_eq!(decode_desired("{\"value\":1}"), None);
    assert_eq!(decode_desired("1.0"), None);
    assert_eq!(decode_desired("true"), None);
    assert_eq!(decode_desired("null"), None);
    assert_eq!(decode_desired("1 1"), None);
    assert_eq!(decode_desired("18446744073709551615"), None);
}

#[test]
fn new_bank_is_all_high() {
    let bank = RelayBank::new(4);
    assert_eq!(levels(&bank), vec![Level::High; 4]);
}

#[test]
fn set_desired_is_active_low_and_idempotent() {
    let mut bank = RelayBank::new(2);
    assert_eq!(bank.set_desired(1, true), Level::Low);
    assert_eq!(bank.set_desired(1, true), Level::Low);
    assert_eq!(levels(&bank), vec![Level::High, Level::Low]);
    assert_eq!(bank.set_desired(1, false), Level::High);
    assert_eq!(levels(&bank), vec![Level::High, Level::High]);
}

#[test]
fn failed_read_keeps_level() {
    let mut bank = RelayBank::new(1);
    bank.set_desired(0, true);
    assert_eq!(apply_reading(&mut bank, 0, None), None);
    assert_eq!(bank.level(0), Level::Low);
    assert_eq!(apply_reading(&mut bank, 0, Some("0")), Some(Level::High));
    assert_eq!(bank.level(0), Level::High);
}

#[test]
fn end_to_end_mixed_values() {
    let mut bank = RelayBank::new(4);
    let out = reconcile(&mut bank, &readings(&[Some("1"), Some("0"), Some("1"), Some("0")]));
    assert_eq!(levels(&bank), vec![Level::Low, Level::High, Level::Low, Level::High]);
    assert_eq!(
        out,
        vec![Some(Level::Low), Some(Level::High), Some(Level::Low), Some(Level::High)]
    );
}

#[test]
fn end_to_end_text_on_keeps_prior_level() {
    let mut bank = RelayBank::new(4);
    reconcile(&mut bank, &readings(&[Some("0"), Some("0"), Some("1"), Some("0")]));
    assert_eq!(bank.level(2), Level::Low);
    let out = reconcile(&mut bank, &readings(&[Some("1"), Some("0"), Some("\"on\""), Some("1")]));
    assert_eq!(out[2], None);
    assert_eq!(levels(&bank), vec![Level::Low, Level::High, Level::Low, Level::Low]);
}

#[test]
fn failure_on_one_relay_does_not_block_others() {
    let mut bank = RelayBank::new(4);
    let out = reconcile(&mut bank, &readings(&[Some("1"), None, Some("1"), Some("1")]));
    assert_eq!(out, vec![Some(Level::Low), None, Some(Level::Low), Some(Level::Low)]);
    assert_eq!(levels(&bank), vec![Level::Low, Level::High, Level::Low, Level::Low]);
}

#[test]
fn malformed_payloads_change_nothing() {
    let mut bank = RelayBank::new(4);
    reconcile(&mut bank, &readings(&[Some("1"), Some("0"), Some("1"), Some("0")]));
    let before = levels(&bank);
    let out = reconcile(&mut bank, &readings(&[Some(""), Some("xyz"), Some("[0]"), Some("{}")]));
    assert_eq!(out, vec![None, None, None, None]);
    assert_eq!(levels(&bank), before);
}

#[test]
fn startup_drives_high_before_any_read() {
    let plan = startup_plan("ESP32_AB", &names());
    assert_eq!(plan.len(), 9);
    for (i, c) in plan.iter().take(4).enumerate() {
        assert!(matches!(c, Command::Drive { relay, level: Level::High } if *relay == i));
    }
    assert!(matches!(&plan[4], Command::Write { path, body }
        if path == "devices/ESP32_AB/status" && body == "\"online\""));
    for (i, c) in plan.iter().skip(5).enumerate() {
        let want = format!("devices/ESP32_AB/relays/relay{}", i + 1);
        assert!(matches!(c, Command::Write { path, body } if *path == want && body == "0"));
    }
    assert!(!plan.iter().any(|c| matches!(c, Command::Read { .. })));
}

#[test]
fn cycle_with_link_up_reads_every_relay() {
    let cadence = Cadence { reconnect_pause_ms: 500, poll_interval_ms: 2000 };
    let plan = cycle_plan("ESP32_AB", &names(), true, &cadence);
    assert_eq!(plan.len(), 5);
    for (i, c) in plan.iter().take(4).enumerate() {
        let want = format!("devices/ESP32_AB/relays/relay{}", i + 1);
        assert!(matches!(c, Command::Read { relay, path } if *relay == i && *path == want));
    }
    assert!(matches!(plan[4], Command::Sleep { ms: 2000 }));
}

#[test]
fn link_loss_reconnects_and_polling_resumes() {
    let cadence = Cadence { reconnect_pause_ms: 500, poll_interval_ms: 2000 };
    let plan = cycle_plan("ESP32_AB", &names(), false, &cadence);
    assert_eq!(plan.len(), 8);
    assert!(matches!(plan[0], Command::Disconnect));
    assert!(matches!(plan[1], Command::Connect));
    assert!(matches!(plan[2], Command::Sleep { ms: 500 }));
    for (i, c) in plan.iter().skip(3).take(4).enumerate() {
        assert!(matches!(c, Command::Read { relay, .. } if *relay == i));
    }
    assert!(matches!(plan[7], Command::Sleep { ms: 2000 }));

    let mut bank = RelayBank::new(4);
    reconcile(&mut bank, &readings(&[None, None, None, None]));
    assert_eq!(levels(&bank), vec![Level::High; 4]);
    reconcile(&mut bank, &readings(&[Some("1"), Some("1"), Some("0"), Some("1")]));
    assert_eq!(levels(&bank), vec![Level::Low, Level::Low, Level::High, Level::Low]);
}

#[test]
fn connect_wait_is_bounded() {
    let mut wait = ConnectWait::new(3);
    assert_eq!(wait.observe(false), WaitStep::Retry);
    assert_eq!(wait.observe(false), WaitStep::Retry);
    assert_eq!(wait.observe(false), WaitStep::Exhausted);
    assert_eq!(wait.observe(true), WaitStep::Connected);
    assert_eq!(wait.observe(false), WaitStep::Exhausted);

    let mut quick = ConnectWait::new(40);
    assert_eq!(quick.observe(true), WaitStep::Connected);
    assert_eq!(quick.failed_polls, 0);
    assert_eq!(ConnectWait::new(0).observe(false), WaitStep::Exhausted);
}
