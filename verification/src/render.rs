//! The render task's snapshot of the shared state.
//!
//! The render task owns the physical display and must never hold the state
//! lock while driving it — a draw takes hundreds of milliseconds on
//! e-paper, and the dispatch loop must not wait that long.  So on each
//! wake-up it takes this owned snapshot under the lock, releases the lock,
//! and draws from the snapshot alone.  The types enforce the rule: drawing
//! code receives a `RenderSnapshot` by value, never the locked state.

use vstd::prelude::*;
use crate::feed::Feed;
use crate::pages::PageType;
use crate::state::State;
use crate::stock::PlotPoint;

verus! {

/// The read-only view the render task draws from.
#[derive(Debug)]
pub struct RenderSnapshot {
    pub page: PageType,
    pub battery: u16,
    pub location: String,
    pub feeds: Vec<Feed>,
    pub stock: Option<Vec<PlotPoint>>,
}

/// Copies one feed, content for content.
fn clone_feed(feed: &Feed) -> (r: Feed)
    ensures
        r.title@ == feed.title@,
        r.headlines.deep_view() == feed.headlines.deep_view(),
{
    let title = feed.title.clone();
    let mut headlines: Vec<String> = Vec::new();
    let mut i: usize = 0;
    while i < feed.headlines.len()
        invariant
            i <= feed.headlines@.len(),
            headlines.deep_view() =~= feed.headlines.deep_view().subrange(0, i as int),
        decreases feed.headlines@.len() - i,
    {
        let ghost before = headlines.deep_view();
        let part = feed.headlines[i].clone();
        let ghost part_view = part@;
        headlines.push(part);
        i = i + 1;
        proof {
            assert(headlines.deep_view() =~= before.push(part_view));
            assert(feed.headlines.deep_view().subrange(0, i as int) =~= feed.headlines.deep_view()
                .subrange(0, i - 1).push(feed.headlines@[i - 1].deep_view()));
        }
    }
    proof {
        assert(headlines.deep_view() =~= feed.headlines.deep_view());
    }
    Feed { title, headlines }
}

/// Copies the point list of the stock plot.
fn clone_points(points: &Vec<PlotPoint>) -> (r: Vec<PlotPoint>)
    ensures
        r@ == points@,
{
    let mut out: Vec<PlotPoint> = Vec::new();
    let mut i: usize = 0;
    while i < points.len()
        invariant
            i <= points@.len(),
            out@ =~= points@.subrange(0, i as int),
        decreases points@.len() - i,
    {
        out.push(points[i]);
        i = i + 1;
    }
    proof {
        assert(out@ =~= points@);
    }
    out
}

/// Takes the snapshot the render task draws from: the current page, the
/// battery reading, the location, and the content the page may show —
/// copied, so the lock can be released before the draw begins.
pub fn take_render_snapshot(state: &State) -> (r: RenderSnapshot)
    ensures
        r.page == state.page,
        r.battery == state.battery,
        r.location@ == state.location@,
        r.feeds.deep_view() == spec_feeds_view(state.feed_controller.spec_feeds()),
        match state.stock_controller.spec_data() {
            Some(d) => r.stock matches Some(s) && s@ == d,
            None => r.stock is None,
        },
{
    let feeds_src = state.feed_controller.feeds();
    let mut feeds: Vec<Feed> = Vec::new();
    let mut i: usize = 0;
    while i < feeds_src.len()
        invariant
            i <= feeds_src@.len(),
            feeds_src@ == state.feed_controller.spec_feeds(),
            feeds.deep_view() =~= spec_feeds_view(feeds_src@.subrange(0, i as int)),
        decreases feeds_src@.len() - i,
    {
        proof {
            assert(spec_feeds_view(feeds_src@.subrange(0, i + 1)) =~= spec_feeds_view(
                feeds_src@.subrange(0, i as int),
            ).push((feeds_src@[i as int].title@, feeds_src@[i as int].headlines.deep_view())));
        }
        let copied = clone_feed(&feeds_src[i]);
        feeds.push(copied);
        i = i + 1;
    }
    proof {
        assert(feeds_src@.subrange(0, feeds_src@.len() as int) =~= feeds_src@);
    }
    let stock = match state.stock_controller.stock_data() {
        Some(points) => Some(clone_points(points)),
        None => None,
    };
    RenderSnapshot {
        page: state.page,
        battery: state.battery,
        location: state.location.clone(),
        feeds,
        stock,
    }
}

/// The content of a feed list: each feed as its title and headlines.
pub open spec fn spec_feeds_view(feeds: Seq<Feed>) -> Seq<(Seq<char>, Seq<Seq<char>>)> {
    feeds.map(|i: int, f: Feed| (f.title@, f.headlines.deep_view()))
}

} // verus!
