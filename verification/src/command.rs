//! Commands the main task listens for.
//!
//! Commands come from the button-debounce adapter and from the
//! configuration web interface; the dispatch loop is their only consumer.
//! Each command carries everything needed to apply itself.

use vstd::prelude::*;
use crate::server::{PersonalData, RssData, StockData, WifiData};

verus! {

/// One unit of work for the dispatch loop.
#[derive(Debug)]
pub enum Command {
    SavePersonalConfig(PersonalData),
    SaveWifiConfig(WifiData),
    SaveRssConfig(RssData),
    SaveStockConfig(StockData),
    SwitchPage,
}

} // verus!
