//! Page identifiers and the cyclic page rotation.
//!
//! A page is one of a fixed set of display layouts.  A button press advances
//! the current page along a fixed cyclic order.  The configuration page is
//! reachable only through setup mode: the rotation never enters it from
//! another page and never leaves it once setup mode selected it.

use vstd::prelude::*;
use crate::codec::Persist;

verus! {

/// Which of the two weather layouts is shown.
#[derive(Debug, Clone, Copy, PartialEq, Eq, Structural)]
pub enum WeatherPageType {
    Hourly,
    Daily,
}

/// The news-feed page.
#[derive(Debug, Clone, Copy, PartialEq, Eq, Structural)]
pub struct FeedPage;

/// The weather page, in its hourly or daily layout.
#[derive(Debug, Clone, Copy, PartialEq, Eq, Structural)]
pub struct WeatherPage(pub WeatherPageType);

/// The demo page.
#[derive(Debug, Clone, Copy, PartialEq, Eq, Structural)]
pub struct ExamplePage;

/// The setup-mode page showing the access-point credentials.
#[derive(Debug, Clone, Copy, PartialEq, Eq, Structural)]
pub struct ConfigPage;

/// The stock-quote page.
#[derive(Debug, Clone, Copy, PartialEq, Eq, Structural)]
pub struct StockPage;

/// Identifier of the page currently shown on the display.
#[derive(Debug, Clone, Copy, PartialEq, Eq, Structural)]
pub enum PageType {
    FeedPage(FeedPage),
    WeatherPage(WeatherPage),
    StockPage(StockPage),
    ExamplePage(ExamplePage),
    ConfigPage(ConfigPage),
}

/// The fixed cyclic order of the page rotation: feed, stock, hourly weather,
/// daily weather, and back to the feed.  The demo page leads into the cycle;
/// the configuration page is a fixed point.
pub open spec fn spec_next_page(p: PageType) -> PageType {
    match p {
        PageType::FeedPage(_) => PageType::StockPage(StockPage),
        PageType::StockPage(_) => PageType::WeatherPage(WeatherPage(WeatherPageType::Hourly)),
        PageType::WeatherPage(WeatherPage(WeatherPageType::Hourly)) => PageType::WeatherPage(
            WeatherPage(WeatherPageType::Daily),
        ),
        PageType::WeatherPage(WeatherPage(WeatherPageType::Daily)) => PageType::FeedPage(FeedPage),
        PageType::ExamplePage(_) => PageType::FeedPage(FeedPage),
        PageType::ConfigPage(_) => PageType::ConfigPage(ConfigPage),
    }
}

/// The page reached from `p` after `n` button presses.
pub open spec fn nth_next_page(p: PageType, n: nat) -> PageType
    decreases n,
{
    if n == 0 {
        p
    } else {
        spec_next_page(nth_next_page(p, (n - 1) as nat))
    }
}

/// The page shown when nothing was persisted: the hourly weather page.
pub open spec fn spec_default_page() -> PageType {
    PageType::WeatherPage(WeatherPage(WeatherPageType::Hourly))
}

impl PageType {
    /// Advance one step along the page rotation.
    pub fn next_page(&self) -> (r: PageType)
        ensures
            r == spec_next_page(*self),
    {
        match self {
            PageType::FeedPage(p) => p.next_page(),
            PageType::WeatherPage(p) => p.next_page(),
            PageType::StockPage(p) => p.next_page(),
            PageType::ExamplePage(p) => p.next_page(),
            PageType::ConfigPage(p) => p.next_page(),
        }
    }
}

impl Default for PageType {
    /// The page shown when nothing was persisted.
    fn default() -> (r: Self)
        ensures
            r == spec_default_page(),
    {
        PageType::WeatherPage(WeatherPage(WeatherPageType::Hourly))
    }
}

impl FeedPage {
    pub fn next_page(&self) -> (r: PageType)
        ensures
            r == PageType::StockPage(StockPage),
    {
        PageType::StockPage(StockPage)
    }
}

impl StockPage {
    pub fn next_page(&self) -> (r: PageType)
        ensures
            r == PageType::WeatherPage(WeatherPage(WeatherPageType::Hourly)),
    {
        PageType::WeatherPage(WeatherPage(WeatherPageType::Hourly))
    }
}

impl WeatherPage {
    pub fn next_page(&self) -> (r: PageType)
        ensures
            r == spec_next_page(PageType::WeatherPage(*self)),
    {
        match self.0 {
            WeatherPageType::Hourly => PageType::WeatherPage(WeatherPage(WeatherPageType::Daily)),
            WeatherPageType::Daily => PageType::FeedPage(FeedPage),
        }
    }
}

impl ExamplePage {
    pub fn next_page(&self) -> (r: PageType)
        ensures
            r == PageType::FeedPage(FeedPage),
    {
        PageType::FeedPage(FeedPage)
    }
}

impl ConfigPage {
    pub fn next_page(&self) -> (r: PageType)
        ensures
            r == PageType::ConfigPage(ConfigPage),
    {
        PageType::ConfigPage(ConfigPage)
    }
}

/// The tag byte a page identifier is persisted as.
pub open spec fn spec_page_tag(p: PageType) -> u8 {
    match p {
        PageType::FeedPage(_) => 0,
        PageType::WeatherPage(WeatherPage(WeatherPageType::Hourly)) => 1,
        PageType::WeatherPage(WeatherPage(WeatherPageType::Daily)) => 2,
        PageType::StockPage(_) => 3,
        PageType::ExamplePage(_) => 4,
        PageType::ConfigPage(_) => 5,
    }
}

/// The page identifier a tag byte stands for, if any.
pub open spec fn spec_page_of_tag(t: u8) -> Option<PageType> {
    if t == 0 {
        Some(PageType::FeedPage(FeedPage))
    } else if t == 1 {
        Some(PageType::WeatherPage(WeatherPage(WeatherPageType::Hourly)))
    } else if t == 2 {
        Some(PageType::WeatherPage(WeatherPage(WeatherPageType::Daily)))
    } else if t == 3 {
        Some(PageType::StockPage(StockPage))
    } else if t == 4 {
        Some(PageType::ExamplePage(ExamplePage))
    } else if t == 5 {
        Some(PageType::ConfigPage(ConfigPage))
    } else {
        None
    }
}

impl Persist for PageType {
    open spec fn spec_encoded(&self) -> Seq<u8> {
        seq![spec_page_tag(*self)]
    }

    open spec fn spec_fits(&self) -> bool {
        true
    }

    open spec fn spec_decodable(bytes: Seq<u8>) -> bool {
        bytes.len() == 1 && spec_page_of_tag(bytes[0]) is Some
    }

    open spec fn spec_matches(bytes: Seq<u8>, v: &Self) -> bool {
        bytes.len() == 1 && spec_page_of_tag(bytes[0]) == Some(*v)
    }

    open spec fn spec_same(&self, other: &Self) -> bool {
        *self == *other
    }

    fn encoded(&self) -> (r: Vec<u8>) {
        let tag: u8 = match self {
            PageType::FeedPage(_) => 0,
            PageType::WeatherPage(WeatherPage(WeatherPageType::Hourly)) => 1,
            PageType::WeatherPage(WeatherPage(WeatherPageType::Daily)) => 2,
            PageType::StockPage(_) => 3,
            PageType::ExamplePage(_) => 4,
            PageType::ConfigPage(_) => 5,
        };
        let mut out: Vec<u8> = Vec::new();
        out.push(tag);
        proof {
            assert(out@ =~= seq![spec_page_tag(*self)]);
        }
        out
    }

    fn decoded(bytes: &Vec<u8>) -> (r: Option<Self>) {
        if bytes.len() != 1 {
            return None;
        }
        let t = bytes[0];
        if t == 0 {
            Some(PageType::FeedPage(FeedPage))
        } else if t == 1 {
            Some(PageType::WeatherPage(WeatherPage(WeatherPageType::Hourly)))
        } else if t == 2 {
            Some(PageType::WeatherPage(WeatherPage(WeatherPageType::Daily)))
        } else if t == 3 {
            Some(PageType::StockPage(StockPage))
        } else if t == 4 {
            Some(PageType::ExamplePage(ExamplePage))
        } else if t == 5 {
            Some(PageType::ConfigPage(ConfigPage))
        } else {
            None
        }
    }

    proof fn lemma_round_trip(&self) {
    }
}

/// The rotation never enters the configuration page: starting anywhere else,
/// a button press lands anywhere else.
pub proof fn lemma_rotation_avoids_config_page(p: PageType)
    requires
        !(p is ConfigPage),
    ensures
        !(spec_next_page(p) is ConfigPage),
{
}

/// The configuration page is a fixed point of the rotation: any number of
/// button presses leaves it in place.
pub proof fn lemma_config_page_fixed(n: nat)
    ensures
        nth_next_page(PageType::ConfigPage(ConfigPage), n) == PageType::ConfigPage(ConfigPage),
    decreases n,
{
    if n > 0 {
        lemma_config_page_fixed((n - 1) as nat);
    }
}

} // verus!
