use esp_feed::dispatch::dispatch_command;
use esp_feed::nvs::NvsController;
use esp_feed::pages::{FeedPage, PageType, StockPage};
use esp_feed::server::{PersonalData, RssData, StockData, WifiData};
use esp_feed::state::State;
use esp_feed::trigger::RenderTrigger;
use esp_feed::Command;

fn fresh_state() -> State {
    State::new(false, None, "Berlin".to_string(), Some(PageType::FeedPage(FeedPage)))
}

#[test]
fn switch_page_advances_persists_and_signals() {
    let mut state = fresh_state();
    let mut nvs = NvsController::new();
    let mut trig = RenderTrigger::new();
    dispatch_command(&mut state, &mut nvs, &mut trig, Command::SwitchPage);
    assert_eq!(state.page, PageType::StockPage(StockPage));
    let persisted: PageType = nvs.get("last_page").unwrap();
    assert_eq!(persisted, PageType::StockPage(StockPage));
    assert!(trig.take());
}

#[test]
fn save_personal_config_updates_live_location() {
    let mut state = fresh_state();
    let mut nvs = NvsController::new();
    let mut trig = RenderTrigger::new();
    let cmd = Command::SavePersonalConfig(PersonalData {
        name: "Ada".to_string(),
        location: "Lisbon".to_string(),
    });
    dispatch_command(&mut state, &mut nvs, &mut trig, cmd);
    assert_eq!(state.location, "Lisbon");
    let saved: PersonalData = nvs.get_config().unwrap();
    assert_eq!(saved.location, "Lisbon");
    // Config saves do not redraw.
    assert!(!trig.take());
}

#[test]
fn other_config_saves_only_persist() {
    let mut state = fresh_state();
    let mut nvs = NvsController::new();
    let mut trig = RenderTrigger::new();
    dispatch_command(&mut state, &mut nvs, &mut trig, Command::SaveWifiConfig(WifiData {
        ssid: "net".to_string(),
        pass: "pw".to_string(),
    }));
    dispatch_command(&mut state, &mut nvs, &mut trig, Command::SaveRssConfig(RssData {
        url: "https://example.org/f".to_string(),
    }));
    dispatch_command(&mut state, &mut nvs, &mut trig, Command::SaveStockConfig(StockData {
        symbol: "ACME".to_string(),
    }));
    // The live session is untouched: location, page, trigger.
    assert_eq!(state.location, "Berlin");
    assert_eq!(state.page, PageType::FeedPage(FeedPage));
    assert!(!trig.take());
    let wifi: WifiData = nvs.get_config().unwrap();
    let rss: RssData = nvs.get_config().unwrap();
    let stock: StockData = nvs.get_config().unwrap();
    assert_eq!(wifi.ssid, "net");
    assert_eq!(rss.url, "https://example.org/f");
    assert_eq!(stock.symbol, "ACME");
}

#[test]
fn every_switch_persists_the_new_page() {
    let mut state = fresh_state();
    let mut nvs = NvsController::new();
    let mut trig = RenderTrigger::new();
    for _ in 0..2 {
        dispatch_command(&mut state, &mut nvs, &mut trig, Command::SwitchPage);
        let persisted: PageType = nvs.get("last_page").unwrap();
        assert_eq!(persisted, state.page);
    }
}

#[test]
fn trigger_signals_coalesce_into_one_wakeup() {
    let mut trig = RenderTrigger::new();
    assert!(!trig.take());
    trig.signal();
    trig.signal();
    trig.signal();
    assert!(trig.take());
    assert!(!trig.take());
}
