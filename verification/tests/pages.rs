use esp_feed::dispatch::process_commands;
use esp_feed::interrupt::Debouncer;
use esp_feed::nvs::NvsController;
use esp_feed::pages::{ConfigPage, ExamplePage, FeedPage, PageType, StockPage, WeatherPage,
    WeatherPageType};
use esp_feed::state::State;
use esp_feed::trigger::RenderTrigger;
use esp_feed::Command;

fn feed() -> PageType {
    PageType::FeedPage(FeedPage)
}

fn stock() -> PageType {
    PageType::StockPage(StockPage)
}

fn hourly() -> PageType {
    PageType::WeatherPage(WeatherPage(WeatherPageType::Hourly))
}

fn daily() -> PageType {
    PageType::WeatherPage(WeatherPage(WeatherPageType::Daily))
}

fn config() -> PageType {
    PageType::ConfigPage(ConfigPage)
}

#[test]
fn rotation_follows_the_fixed_cycle() {
    assert_eq!(feed().next_page(), stock());
    assert_eq!(stock().next_page(), hourly());
    assert_eq!(hourly().next_page(), daily());
    assert_eq!(daily().next_page(), feed());
    assert_eq!(PageType::ExamplePage(ExamplePage).next_page(), feed());
}

#[test]
fn config_page_is_a_fixed_point() {
    assert_eq!(config().next_page(), config());
    let mut p = config();
    for _ in 0..7 {
        p = p.next_page();
    }
    assert_eq!(p, config());
}

#[test]
fn rotation_never_enters_config_page() {
    let mut p = PageType::default();
    for _ in 0..20 {
        p = p.next_page();
        assert!(p != config());
    }
}

#[test]
fn default_page_is_hourly_weather() {
    assert_eq!(PageType::default(), hourly());
}

#[test]
fn n_switch_commands_advance_n_steps() {
    // Replaying the same commands from the same page lands on the same page.
    for _round in 0..2 {
        let mut state = State::new(false, None, String::new(), Some(feed()));
        let mut nvs = NvsController::new();
        let mut trig = RenderTrigger::new();
        let cmds = vec![Command::SwitchPage, Command::SwitchPage, Command::SwitchPage];
        process_commands(&mut state, &mut nvs, &mut trig, cmds);
        // feed -> stock -> hourly -> daily
        assert_eq!(state.page, daily());
        assert!(trig.take());
    }
}

#[test]
fn setup_mode_starts_and_stays_on_config_page() {
    // Even with another page persisted, setup mode pins the config page,
    // and switches do not leave it.
    let mut state = State::new(true, None, String::new(), Some(feed()));
    assert_eq!(state.page, config());
    let mut nvs = NvsController::new();
    let mut trig = RenderTrigger::new();
    let cmds = vec![Command::SwitchPage, Command::SwitchPage, Command::SwitchPage];
    process_commands(&mut state, &mut nvs, &mut trig, cmds);
    assert_eq!(state.page, config());
}

#[test]
fn persisted_config_page_is_not_resumed() {
    let state = State::new(false, None, String::new(), Some(config()));
    assert_eq!(state.page, PageType::default());
}

#[test]
fn persisted_ordinary_page_is_resumed() {
    let state = State::new(false, None, String::new(), Some(stock()));
    assert_eq!(state.page, stock());
    let fresh = State::new(false, None, String::new(), None);
    assert_eq!(fresh.page, PageType::default());
}

#[test]
fn drained_presses_switch_exactly_that_often() {
    let mut state = State::new(false, None, String::new(), Some(feed()));
    let mut nvs = NvsController::new();
    let mut trig = RenderTrigger::new();
    let mut button = Debouncer::new();
    // Two presses: four well-spaced edges.
    button.on_edge(10);
    button.on_edge(20);
    button.on_edge(30);
    button.on_edge(40);
    assert_eq!(button.count, 2);
    esp_feed::dispatch::drain_button_presses(&mut state, &mut nvs, &mut trig, &mut button);
    assert_eq!(button.count, 0);
    // feed -> stock -> hourly
    assert_eq!(state.page, hourly());
}
