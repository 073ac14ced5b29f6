use esp_feed::pages::PageType;
use esp_feed::refresh::refresh_cycle;
use esp_feed::state::State;
use esp_feed::stock::PlotPoint;
use esp_feed::trigger::RenderTrigger;
use esp_feed::weather::{Description, WeatherReport};

fn report(description: &str, temp_centi: i32, dt: i64) -> WeatherReport {
    WeatherReport {
        name: None,
        description: Description {
            description: description.to_string(),
            icon: "01d".to_string(),
        },
        temp_centi,
        pressure: 1013,
        humidity: 60,
        sun: None,
        dt,
    }
}

fn window(start: i32) -> Vec<PlotPoint> {
    (0..48).map(|i| PlotPoint { x: start + i, y: 100 + i }).collect()
}

fn feed_body() -> Vec<u8> {
    "<rss><title>Feed</title><item><title>h</title></item></rss>".as_bytes().to_vec()
}

#[test]
fn failed_feed_keeps_its_snapshot_while_others_update() {
    let mut state = State::new(false, None, "Berlin".to_string(), None);
    let mut trig = RenderTrigger::new();

    // A first cycle where everything succeeds.
    refresh_cycle(
        &mut state,
        Some(vec![feed_body()]),
        Some(report("clear", 2150, 1000)),
        Some((vec![report("hazy", 2000, 2000)], vec![report("rain", 1800, 3000)])),
        Some(window(-48)),
        Some(1000),
        &mut trig,
    );
    assert!(trig.take());
    assert_eq!(state.feed_controller.feeds().len(), 1);
    assert_eq!(state.battery, 2000);

    // A second cycle: the feed fetch fails, weather and stock succeed.
    refresh_cycle(
        &mut state,
        None,
        Some(report("cloudy", 1900, 5000)),
        Some((vec![report("fog", 1500, 6000)], vec![report("snow", -200, 7000)])),
        Some(window(-24)),
        Some(1100),
        &mut trig,
    );

    // The feed snapshot is unchanged from before the cycle.
    assert_eq!(state.feed_controller.feeds().len(), 1);
    assert_eq!(state.feed_controller.feeds()[0].title, "Feed");
    // Weather and stock reflect the new values.
    assert_eq!(state.weather_controller.current().unwrap().description.description, "cloudy");
    assert_eq!(state.weather_controller.hourly(0).unwrap().description.description, "fog");
    assert_eq!(state.weather_controller.daily(0).unwrap().description.description, "snow");
    assert_eq!(state.stock_controller.stock_data().unwrap()[0].x, -24);
    assert_eq!(state.battery, 2200);
    // The render trigger fired exactly once.
    assert!(trig.take());
    assert!(!trig.take());
}

#[test]
fn failed_weather_keeps_the_previous_reports() {
    let mut state = State::new(false, None, String::new(), None);
    let mut trig = RenderTrigger::new();
    refresh_cycle(
        &mut state,
        None,
        Some(report("clear", 2000, 1)),
        Some((vec![report("h", 1, 2)], vec![report("d", 2, 3)])),
        None,
        None,
        &mut trig,
    );
    refresh_cycle(&mut state, None, None, None, None, None, &mut trig);
    assert_eq!(state.weather_controller.current().unwrap().description.description, "clear");
    assert_eq!(state.weather_controller.hourly(0).unwrap().description.description, "h");
    assert_eq!(state.weather_controller.daily(0).unwrap().description.description, "d");
}

#[test]
fn cycle_always_signals_even_when_everything_failed() {
    let mut state = State::new(false, None, String::new(), None);
    let mut trig = RenderTrigger::new();
    refresh_cycle(&mut state, None, None, None, None, None, &mut trig);
    assert!(trig.take());
}

#[test]
fn battery_reading_is_doubled_by_the_divider() {
    let mut state = State::new(false, None, String::new(), None);
    let mut trig = RenderTrigger::new();
    refresh_cycle(&mut state, None, None, None, None, Some(1234), &mut trig);
    assert_eq!(state.battery, 2468);
    refresh_cycle(&mut state, None, None, None, None, None, &mut trig);
    assert_eq!(state.battery, 2468);
    refresh_cycle(&mut state, None, None, None, None, Some(u16::MAX), &mut trig);
    assert_eq!(state.battery, u16::MAX);
}

#[test]
fn refresh_leaves_the_page_alone() {
    let mut state = State::new(false, None, String::new(), None);
    let before = state.page;
    let mut trig = RenderTrigger::new();
    refresh_cycle(&mut state, None, Some(report("x", 0, 0)), None, None, None, &mut trig);
    assert_eq!(state.page, before);
    assert_eq!(state.page, PageType::default());
}
