use esp_feed::server::WifiData;
use esp_feed::wifi::{config_or_default, pick_channel, WifiConfig};

#[test]
fn the_first_matching_scan_entry_gives_the_channel() {
    let aps = vec![
        ("other".to_string(), 1u8),
        ("home".to_string(), 6u8),
        ("home".to_string(), 11u8),
    ];
    assert_eq!(pick_channel(&aps, &"home".to_string()), Some(6));
}

#[test]
fn an_unseen_network_gives_no_channel() {
    let aps = vec![("other".to_string(), 1u8)];
    assert_eq!(pick_channel(&aps, &"home".to_string()), None);
    assert_eq!(pick_channel(&Vec::new(), &"home".to_string()), None);
}

#[test]
fn saved_credentials_win_over_the_fallback() {
    let saved = WifiConfig { ssid: "saved".to_string(), pass: "a".to_string() };
    let fallback = WifiConfig { ssid: "builtin".to_string(), pass: "b".to_string() };
    let chosen = config_or_default(Some(saved), fallback);
    assert_eq!(chosen.ssid, "saved");
    let fallback2 = WifiConfig { ssid: "builtin".to_string(), pass: "b".to_string() };
    let chosen2 = config_or_default(None, fallback2);
    assert_eq!(chosen2.ssid, "builtin");
}

#[test]
fn wifi_form_data_becomes_credentials() {
    let cfg: WifiConfig = WifiData { ssid: "net".to_string(), pass: "pw".to_string() }.into();
    assert_eq!(cfg.ssid, "net");
    assert_eq!(cfg.pass, "pw");
}
