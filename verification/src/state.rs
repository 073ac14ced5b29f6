//! The shared application state.
//!
//! One value of `State` holds everything the tasks share: the current
//! page, the setup-mode flag, the saved network credentials, the location,
//! the three content controllers, and the battery reading.  The host wraps
//! it in a mutual-exclusion lock and hands a reference-counted handle to
//! each task; the lock is held only for a read-or-mutate step, never
//! across a fetch, a draw, or a persistence write.

use vstd::prelude::*;
use crate::feed::FeedController;
use crate::pages::{lemma_config_page_fixed, nth_next_page, spec_default_page, spec_next_page,
    ConfigPage, PageType};
use crate::stock::StockController;
use crate::weather::WeatherController;
use crate::wifi::WifiConfig;

verus! {

/// The complete shared state of the application.
#[derive(Debug)]
pub struct State {
    pub feed_controller: FeedController,
    pub weather_controller: WeatherController,
    pub stock_controller: StockController,
    pub setup_mode: bool,
    pub page: PageType,
    pub wifi: Option<WifiConfig>,
    pub location: String,
    /// Battery voltage reading, doubled through the on-board divider.
    pub battery: u16,
}

/// The page the process starts on.  Setup mode always starts on the
/// configuration page.  Otherwise the persisted last page is resumed —
/// except the configuration page, which must never be resumed from
/// persistence alone and falls back to the default.
pub open spec fn spec_initial_page(setup_mode: bool, persisted: Option<PageType>) -> PageType {
    if setup_mode {
        PageType::ConfigPage(ConfigPage)
    } else {
        match persisted {
            Some(p) => if p is ConfigPage {
                spec_default_page()
            } else {
                p
            },
            None => spec_default_page(),
        }
    }
}

/// Law: without live setup mode the process never starts on the
/// configuration page, whatever was persisted.
pub proof fn lemma_persisted_config_page_not_resumed(persisted: Option<PageType>)
    ensures
        !(spec_initial_page(false, persisted) is ConfigPage),
{
}

/// Law: in setup mode the process starts on the configuration page, and
/// any number of page switches leaves it there — the configuration page
/// stands outside the ordinary rotation.
pub proof fn lemma_setup_mode_keeps_config_page(persisted: Option<PageType>, n: nat)
    ensures
        spec_initial_page(true, persisted) == PageType::ConfigPage(ConfigPage),
        nth_next_page(spec_initial_page(true, persisted), n) == PageType::ConfigPage(ConfigPage),
{
    lemma_config_page_fixed(n);
}

impl State {
    /// Validity of the state: what its constructor establishes and every
    /// method preserves.
    pub open spec fn wf(&self) -> bool {
        self.stock_controller.wf()
    }

    /// The state at process start: fresh controllers, no battery reading,
    /// and the start page computed from the setup-mode flag and the
    /// persisted last page.
    pub fn new(
        setup_mode: bool,
        wifi_config: Option<WifiConfig>,
        location: String,
        persisted_page: Option<PageType>,
    ) -> (r: Self)
        ensures
            r.wf(),
            r.setup_mode == setup_mode,
            r.page == spec_initial_page(setup_mode, persisted_page),
            r.wifi == wifi_config,
            r.location == location,
            r.battery == 0,
            r.feed_controller.spec_feeds().len() == 0,
            r.feed_controller.spec_urls().len() == 0,
            r.weather_controller.spec_current() is None,
            r.stock_controller.spec_data() is None,
    {
        let page = if setup_mode {
            PageType::ConfigPage(ConfigPage)
        } else {
            match persisted_page {
                Some(p) => match p {
                    PageType::ConfigPage(_) => PageType::default(),
                    _ => p,
                },
                None => PageType::default(),
            }
        };
        State {
            feed_controller: FeedController::new(),
            weather_controller: WeatherController::new(),
            stock_controller: StockController::new(),
            setup_mode,
            page,
            wifi: wifi_config,
            location,
            battery: 0,
        }
    }

    /// Advances the current page one step along the rotation; everything
    /// else stays as it is.
    pub fn next_page(&mut self)
        ensures
            final(self).page == spec_next_page(old(self).page),
            final(self).feed_controller == old(self).feed_controller,
            final(self).weather_controller == old(self).weather_controller,
            final(self).stock_controller == old(self).stock_controller,
            final(self).setup_mode == old(self).setup_mode,
            final(self).wifi == old(self).wifi,
            final(self).location == old(self).location,
            final(self).battery == old(self).battery,
    {
        self.page = self.page.next_page();
    }
}

} // verus!
