use esp_feed::codec::Persist;
use esp_feed::nvs::{NvsController, StoreError};
use esp_feed::pages::{PageType, StockPage};
use esp_feed::server::{ConfigData, PersonalData, RssData, StockData, WifiData};

#[test]
fn personal_config_round_trips() {
    let mut nvs = NvsController::new();
    nvs.store_config(&PersonalData { name: "Ada".to_string(), location: "Berlin".to_string() });
    let loaded: PersonalData = nvs.get_config().unwrap();
    assert_eq!(loaded.name, "Ada");
    assert_eq!(loaded.location, "Berlin");
}

#[test]
fn wifi_config_round_trips() {
    let mut nvs = NvsController::new();
    nvs.store_config(&WifiData { ssid: "net".to_string(), pass: "secret".to_string() });
    let loaded: WifiData = nvs.get_config().unwrap();
    assert_eq!(loaded.ssid, "net");
    assert_eq!(loaded.pass, "secret");
}

#[test]
fn rss_config_round_trips() {
    let mut nvs = NvsController::new();
    nvs.store_config(&RssData { url: "https://example.org/feed.rdf".to_string() });
    let loaded: RssData = nvs.get_config().unwrap();
    assert_eq!(loaded.url, "https://example.org/feed.rdf");
}

#[test]
fn stock_config_round_trips() {
    let mut nvs = NvsController::new();
    nvs.store_config(&StockData { symbol: "IBM".to_string() });
    let loaded: StockData = nvs.get_config().unwrap();
    assert_eq!(loaded.symbol, "IBM");
}

#[test]
fn empty_strings_round_trip() {
    let mut nvs = NvsController::new();
    nvs.store_config(&PersonalData { name: String::new(), location: String::new() });
    let loaded: PersonalData = nvs.get_config().unwrap();
    assert_eq!(loaded.name, "");
    assert_eq!(loaded.location, "");
}

#[test]
fn non_ascii_strings_round_trip() {
    let mut nvs = NvsController::new();
    nvs.store_config(&PersonalData {
        name: "Grüße".to_string(),
        location: "Zürich".to_string(),
    });
    let loaded: PersonalData = nvs.get_config().unwrap();
    assert_eq!(loaded.name, "Grüße");
    assert_eq!(loaded.location, "Zürich");
}

#[test]
fn page_round_trips_under_its_key() {
    let mut nvs = NvsController::new();
    let page = PageType::StockPage(StockPage);
    nvs.store("last_page", &page);
    let loaded: PageType = nvs.get("last_page").unwrap();
    assert_eq!(loaded, page);
}

#[test]
fn absent_key_reports_missing() {
    let nvs = NvsController::new();
    let r: Result<PersonalData, StoreError> = nvs.get_config();
    assert_eq!(r.err(), Some(StoreError::Missing));
    let p: Result<PageType, StoreError> = nvs.get("last_page");
    assert_eq!(p.err(), Some(StoreError::Missing));
}

#[test]
fn undecodable_bytes_report_invalid() {
    let mut nvs = NvsController::new();
    // A page tag stored where a wifi record is expected does not decode.
    nvs.store(WifiData::key(), &PageType::default());
    let r: Result<WifiData, StoreError> = nvs.get_config();
    assert_eq!(r.err(), Some(StoreError::Invalid));
}

#[test]
fn a_second_store_overwrites_the_first() {
    let mut nvs = NvsController::new();
    nvs.store_config(&StockData { symbol: "IBM".to_string() });
    nvs.store_config(&StockData { symbol: "ACME".to_string() });
    let loaded: StockData = nvs.get_config().unwrap();
    assert_eq!(loaded.symbol, "ACME");
}

#[test]
fn keys_do_not_collide() {
    let mut nvs = NvsController::new();
    nvs.store_config(&RssData { url: "one".to_string() });
    nvs.store_config(&StockData { symbol: "TWO".to_string() });
    nvs.store_config(&PersonalData { name: "a".to_string(), location: "b".to_string() });
    let rss: RssData = nvs.get_config().unwrap();
    let stock: StockData = nvs.get_config().unwrap();
    assert_eq!(rss.url, "one");
    assert_eq!(stock.symbol, "TWO");
}

#[test]
fn encoding_frames_each_field_with_its_length() {
    let record = RssData { url: "abc".to_string() };
    let bytes = record.encoded();
    // 8-byte little-endian length, then the UTF-8 bytes.
    assert_eq!(bytes, vec![3, 0, 0, 0, 0, 0, 0, 0, b'a', b'b', b'c']);
}
