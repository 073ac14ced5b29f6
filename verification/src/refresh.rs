//! One cycle of the periodic data-refresh task.
//!
//! On its timer the refresh task fetches the three content sources — feed,
//! weather, stock, in that fixed order — then samples the battery and
//! signals the render trigger once, whatever succeeded.  The fetches
//! themselves are network work done outside the library; their outcomes
//! come in as plain values, a `None` standing for a failed fetch.  A
//! failed source keeps its previous snapshot: one bad response never
//! erases what the display already shows, and never stops the others.

use vstd::prelude::*;
use crate::state::State;
use crate::stock::{spec_sort_points, PlotPoint, NUM_ENTRIES};
use crate::trigger::RenderTrigger;
use crate::weather::WeatherReport;

verus! {

/// The battery field value for a raw sample: doubled through the on-board
/// voltage divider, saturating at the top of the range.
pub open spec fn spec_battery_value(sample: u16) -> u16 {
    if sample <= 0x7fff {
        (2 * sample) as u16
    } else {
        0xffff
    }
}

/// Law: one refresh cycle installs exactly what was fetched, keeps every
/// snapshot whose source failed, and signals the render trigger exactly
/// once at the end.
pub fn refresh_cycle(
    state: &mut State,
    feed_bodies: Option<Vec<Vec<u8>>>,
    weather_current: Option<WeatherReport>,
    weather_forecast: Option<(Vec<WeatherReport>, Vec<WeatherReport>)>,
    stock_points: Option<Vec<PlotPoint>>,
    battery_sample: Option<u16>,
    trig: &mut RenderTrigger,
)
    requires
        old(state).wf(),
    ensures
        final(state).wf(),
        // A failed feed fetch leaves the feed snapshot untouched; a
        // successful one replaces it with what parsed, one feed per body.
        match feed_bodies {
            Some(b) => final(state).feed_controller.spec_feeds().len() <= b@.len()
                && final(state).feed_controller.spec_urls()
                == old(state).feed_controller.spec_urls(),
            None => final(state).feed_controller == old(state).feed_controller,
        },
        match weather_current {
            Some(c) => final(state).weather_controller.spec_current() == Some(c),
            None => final(state).weather_controller.spec_current()
                == old(state).weather_controller.spec_current(),
        },
        match weather_forecast {
            Some(f) => final(state).weather_controller.spec_hourly() == f.0@
                && final(state).weather_controller.spec_daily() == f.1@,
            None => final(state).weather_controller.spec_hourly()
                == old(state).weather_controller.spec_hourly()
                && final(state).weather_controller.spec_daily()
                == old(state).weather_controller.spec_daily(),
        },
        match stock_points {
            Some(p) => if p@.len() >= NUM_ENTRIES {
                final(state).stock_controller.spec_data() == Some(
                    spec_sort_points(p@.subrange(0, NUM_ENTRIES as int)),
                )
            } else {
                final(state).stock_controller.spec_data()
                    == old(state).stock_controller.spec_data()
            },
            None => final(state).stock_controller.spec_data()
                == old(state).stock_controller.spec_data(),
        },
        match battery_sample {
            Some(v) => final(state).battery == spec_battery_value(v),
            None => final(state).battery == old(state).battery,
        },
        final(state).page == old(state).page,
        final(state).setup_mode == old(state).setup_mode,
        final(state).location == old(state).location,
        final(state).wifi == old(state).wifi,
        final(trig).pending,
{
    match feed_bodies {
        Some(bodies) => {
            state.feed_controller.refresh(&bodies);
        },
        None => {},
    }
    state.weather_controller.refresh(weather_current, weather_forecast);
    match stock_points {
        Some(points) => {
            let _enough = state.stock_controller.refresh(&points);
        },
        None => {},
    }
    match battery_sample {
        Some(v) => {
            state.battery = if v <= 0x7fff {
                2 * v
            } else {
                0xffff
            };
        },
        None => {},
    }
    trig.signal();
}

} // verus!
