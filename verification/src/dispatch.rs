//! The dispatch loop's work: applying commands to the shared state.
//!
//! The main task receives commands from a multi-producer channel with a
//! short timeout; on a command it mutates the state, persists what changed,
//! and signals the render trigger; on a timeout it drains the button
//! counter and turns every counted press into a page switch.  The channel
//! and the timeout live in the host; everything the loop decides is here.

use vstd::prelude::*;
use crate::codec::Persist;
use crate::command::Command;
use crate::interrupt::Debouncer;
use crate::nvs::NvsController;
use crate::pages::{nth_next_page, spec_next_page};
use crate::server::{ConfigData, PersonalData, RssData, StockData, WifiData};
use crate::state::State;
use crate::trigger::RenderTrigger;

verus! {

/// The key the current page is persisted under on every change.
pub open spec fn spec_last_page_key() -> Seq<char> {
    "last_page"@
}

/// How many of these commands switch the page.
pub open spec fn spec_count_switches(cmds: Seq<Command>) -> nat
    decreases cmds.len(),
{
    if cmds.len() == 0 {
        0
    } else {
        spec_count_switches(cmds.drop_last()) + (if cmds.last() is SwitchPage {
            1nat
        } else {
            0nat
        })
    }
}

/// Applies one command, exactly as the dispatch loop does:
///
/// * `SwitchPage` advances the page, persists the new page under its fixed
///   key, and signals the render trigger.
/// * Every `Save…Config` persists its record under the record's own key.
///   `SavePersonalConfig` additionally installs the new location in the
///   live state; the other saves take effect on the next start.
pub fn dispatch_command(
    state: &mut State,
    nvs: &mut NvsController,
    trig: &mut RenderTrigger,
    cmd: Command,
)
    requires
        old(state).wf(),
        old(nvs).wf(),
    ensures
        final(state).wf(),
        final(nvs).wf(),
        final(state).setup_mode == old(state).setup_mode,
        final(state).wifi == old(state).wifi,
        final(state).battery == old(state).battery,
        final(state).feed_controller == old(state).feed_controller,
        final(state).weather_controller == old(state).weather_controller,
        final(state).stock_controller == old(state).stock_controller,
        match cmd {
            Command::SwitchPage => {
                &&& final(state).page == spec_next_page(old(state).page)
                &&& final(state).location == old(state).location
                &&& final(nvs)@ == old(nvs)@.insert(
                    spec_last_page_key(),
                    final(state).page.spec_encoded(),
                )
                &&& final(trig).pending
            },
            Command::SavePersonalConfig(c) => {
                &&& final(state).page == old(state).page
                &&& final(state).location@ == c.location@
                &&& final(nvs)@ == old(nvs)@.insert(PersonalData::spec_key(), c.spec_encoded())
                &&& *final(trig) == *old(trig)
            },
            Command::SaveWifiConfig(c) => {
                &&& final(state).page == old(state).page
                &&& final(state).location == old(state).location
                &&& final(nvs)@ == old(nvs)@.insert(WifiData::spec_key(), c.spec_encoded())
                &&& *final(trig) == *old(trig)
            },
            Command::SaveRssConfig(c) => {
                &&& final(state).page == old(state).page
                &&& final(state).location == old(state).location
                &&& final(nvs)@ == old(nvs)@.insert(RssData::spec_key(), c.spec_encoded())
                &&& *final(trig) == *old(trig)
            },
            Command::SaveStockConfig(c) => {
                &&& final(state).page == old(state).page
                &&& final(state).location == old(state).location
                &&& final(nvs)@ == old(nvs)@.insert(StockData::spec_key(), c.spec_encoded())
                &&& *final(trig) == *old(trig)
            },
        },
{
    match cmd {
        Command::SwitchPage => {
            state.next_page();
            nvs.store("last_page", &state.page);
            trig.signal();
        },
        Command::SavePersonalConfig(c) => {
            nvs.store_config(&c);
            state.location = c.location;
        },
        Command::SaveWifiConfig(c) => {
            nvs.store_config(&c);
        },
        Command::SaveRssConfig(c) => {
            nvs.store_config(&c);
        },
        Command::SaveStockConfig(c) => {
            nvs.store_config(&c);
        },
    }
}

/// Law: processing a batch of commands moves the page exactly as many
/// rotation steps forward as the batch holds `SwitchPage` commands —
/// replaying the same batch from the same page always lands on the same
/// page.  Configuration saves never move the page.
pub fn process_commands(
    state: &mut State,
    nvs: &mut NvsController,
    trig: &mut RenderTrigger,
    cmds: Vec<Command>,
)
    requires
        old(state).wf(),
        old(nvs).wf(),
    ensures
        final(state).wf(),
        final(nvs).wf(),
        final(state).page == nth_next_page(old(state).page, spec_count_switches(cmds@)),
        final(state).setup_mode == old(state).setup_mode,
        final(state).wifi == old(state).wifi,
        final(state).battery == old(state).battery,
        final(state).feed_controller == old(state).feed_controller,
        final(state).weather_controller == old(state).weather_controller,
        final(state).stock_controller == old(state).stock_controller,
        spec_count_switches(cmds@) > 0 ==> final(trig).pending,
{
    let ghost all = cmds@;
    let ghost start_page = state.page;
    let mut cmds = cmds;
    let n = cmds.len();
    let mut i: usize = 0;
    proof {
        assert(all.subrange(0, 0) =~= Seq::<Command>::empty());
        assert(all.subrange(0, all.len() as int) =~= all);
    }
    while i < n
        invariant
            i <= n,
            n == all.len(),
            cmds@ == all.subrange(i as int, n as int),
            state.wf(),
            nvs.wf(),
            state.page == nth_next_page(start_page, spec_count_switches(all.subrange(0, i as int))),
            start_page == old(state).page,
            state.setup_mode == old(state).setup_mode,
            state.wifi == old(state).wifi,
            state.battery == old(state).battery,
            state.feed_controller == old(state).feed_controller,
            state.weather_controller == old(state).weather_controller,
            state.stock_controller == old(state).stock_controller,
            spec_count_switches(all.subrange(0, i as int)) > 0 ==> trig.pending,
        decreases n - i,
    {
        let ghost prefix = all.subrange(0, i as int);
        let cmd = cmds.remove(0);
        proof {
            assert(cmd == all[i as int]);
            assert(cmds@ =~= all.subrange(i + 1, n as int));
            let prefix2 = all.subrange(0, i + 1);
            assert(prefix2.drop_last() =~= prefix);
            assert(prefix2.last() == all[i as int]);
        }
        dispatch_command(state, nvs, trig, cmd);
        i = i + 1;
    }
}

/// Law: on a receive timeout the loop drains the button counter and issues
/// one page switch per counted press — N rapid presses advance the page
/// exactly N steps, none lost and none doubled — and the counter reads
/// zero afterwards.
pub fn drain_button_presses(
    state: &mut State,
    nvs: &mut NvsController,
    trig: &mut RenderTrigger,
    button: &mut Debouncer,
)
    requires
        old(state).wf(),
        old(nvs).wf(),
    ensures
        final(state).wf(),
        final(nvs).wf(),
        final(state).page == nth_next_page(old(state).page, old(button).count as nat),
        final(button).count == 0,
        final(button).pressed == old(button).pressed,
        final(button).last_tick == old(button).last_tick,
        final(state).setup_mode == old(state).setup_mode,
        final(state).location == old(state).location,
        old(button).count > 0 ==> final(trig).pending,
{
    let presses = button.read_and_reset();
    let mut k: u8 = 0;
    while k < presses
        invariant
            k <= presses,
            state.wf(),
            nvs.wf(),
            state.page == nth_next_page(old(state).page, k as nat),
            state.setup_mode == old(state).setup_mode,
            state.location == old(state).location,
            k > 0 ==> trig.pending,
        decreases presses - k,
    {
        dispatch_command(state, nvs, trig, Command::SwitchPage);
        k = k + 1;
    }
}

} // verus!
