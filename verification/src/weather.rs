//! The weather controller and its snapshot model.
//!
//! Fetching and JSON parsing happen outside the library; what comes in is
//! an already-parsed report in plain values, with temperatures in
//! hundredths of a degree.  The controller installs new reports and keeps
//! the previous ones when a fetch came back empty-handed.

use vstd::prelude::*;

verus! {

/// The textual description of the sky, with its icon name.
#[derive(Debug)]
pub struct Description {
    pub description: String,
    pub icon: String,
}

impl Default for Description {
    /// An empty description.
    fn default() -> (r: Self)
        ensures
            r.description@.len() == 0,
            r.icon@.len() == 0,
    {
        Description { description: String::new(), icon: String::new() }
    }
}

/// Cloud cover in percent.
#[derive(Debug, Clone, Copy, PartialEq, Eq, Structural)]
pub struct Clouds {
    pub all: i32,
}

impl Default for Clouds {
    /// No cloud cover reported.
    fn default() -> (r: Self)
        ensures
            r.all == 0,
    {
        Clouds { all: 0 }
    }
}

/// Sunrise and sunset as Unix timestamps.
#[derive(Debug, Clone, Copy, PartialEq, Eq, Structural)]
pub struct Sun {
    pub sunrise: i64,
    pub sunset: i64,
}

impl Default for Sun {
    /// No sun times reported.
    fn default() -> (r: Self)
        ensures
            r.sunrise == 0,
            r.sunset == 0,
    {
        Sun { sunrise: 0, sunset: 0 }
    }
}

/// Station metadata of a weather response.
#[derive(Debug)]
pub struct Sys {
    pub kind: i32,
    pub id: i32,
    pub country: String,
    pub sunrise: i64,
    pub sunset: i64,
}

impl Default for Sys {
    /// No station metadata reported.
    fn default() -> (r: Self)
        ensures
            r.kind == 0,
            r.id == 0,
            r.country@.len() == 0,
            r.sunrise == 0,
            r.sunset == 0,
    {
        Sys { kind: 0, id: 0, country: String::new(), sunrise: 0, sunset: 0 }
    }
}

/// One weather report, current or forecast, in plain integer values:
/// temperatures in hundredths of a degree, pressure in whole hectopascal,
/// humidity in percent.
#[derive(Debug)]
pub struct WeatherReport {
    /// Name of the place, on current-weather reports only.
    pub name: Option<String>,
    pub description: Description,
    pub temp_centi: i32,
    pub pressure: i32,
    pub humidity: i32,
    pub sun: Option<Sun>,
    /// Timestamp of the report.
    pub dt: i64,
}

/// Keeps the latest weather: the current report and the hourly and daily
/// forecasts.
#[derive(Debug)]
pub struct WeatherController {
    current: Option<WeatherReport>,
    hourly: Vec<WeatherReport>,
    daily: Vec<WeatherReport>,
}

impl WeatherController {
    /// The current report, if one arrived yet.
    pub closed spec fn spec_current(&self) -> Option<WeatherReport> {
        self.current
    }

    /// The hourly forecast.
    pub closed spec fn spec_hourly(&self) -> Seq<WeatherReport> {
        self.hourly@
    }

    /// The daily forecast.
    pub closed spec fn spec_daily(&self) -> Seq<WeatherReport> {
        self.daily@
    }

    /// A controller that has not seen any weather yet.
    pub fn new() -> (r: Self)
        ensures
            r.spec_current() is None,
            r.spec_hourly().len() == 0,
            r.spec_daily().len() == 0,
    {
        WeatherController { current: None, hourly: Vec::new(), daily: Vec::new() }
    }

    /// Installs freshly fetched reports.  A source that came back
    /// empty-handed leaves its previous snapshot untouched: a failed fetch
    /// never erases what the display already shows.
    pub fn refresh(
        &mut self,
        current: Option<WeatherReport>,
        forecast: Option<(Vec<WeatherReport>, Vec<WeatherReport>)>,
    )
        ensures
            match current {
                Some(c) => final(self).spec_current() == Some(c),
                None => final(self).spec_current() == old(self).spec_current(),
            },
            match forecast {
                Some(f) => final(self).spec_hourly() == f.0@ && final(self).spec_daily() == f.1@,
                None => final(self).spec_hourly() == old(self).spec_hourly() && final(self)
                    .spec_daily() == old(self).spec_daily(),
            },
    {
        match current {
            Some(c) => {
                self.current = Some(c);
            },
            None => {},
        }
        match forecast {
            Some(f) => {
                let (hourly, daily) = f;
                self.hourly = hourly;
                self.daily = daily;
            },
            None => {},
        }
    }

    /// The current report, if one arrived yet.
    pub fn current(&self) -> (r: Option<&WeatherReport>)
        ensures
            match r {
                Some(c) => self.spec_current() == Some(*c),
                None => self.spec_current() is None,
            },
    {
        self.current.as_ref()
    }

    /// The forecast for the given hour, when the forecast reaches it.
    pub fn hourly(&self, hour: usize) -> (r: Option<&WeatherReport>)
        ensures
            match r {
                Some(c) => hour < self.spec_hourly().len() && *c == self.spec_hourly()[hour as int],
                None => hour >= self.spec_hourly().len(),
            },
    {
        if hour < self.hourly.len() {
            Some(&self.hourly[hour])
        } else {
            None
        }
    }

    /// The forecast for the given day, when the forecast reaches it.
    pub fn daily(&self, day: usize) -> (r: Option<&WeatherReport>)
        ensures
            match r {
                Some(c) => day < self.spec_daily().len() && *c == self.spec_daily()[day as int],
                None => day >= self.spec_daily().len(),
            },
    {
        if day < self.daily.len() {
            Some(&self.daily[day])
        } else {
            None
        }
    }
}

} // verus!
