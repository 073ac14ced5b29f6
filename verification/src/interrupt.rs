//! The interrupt-driven button debouncer.
//!
//! Every electrical edge of the button pin invokes `on_edge` from interrupt
//! context with the hardware tick counter.  Edges closer to the last
//! accepted edge than the debounce interval are ignored; an accepted edge
//! toggles the pressed flag, and only the leading (press) edge counts.  The
//! main task later takes the count with `read_and_reset`.  The caller keeps
//! the two sides mutually exclusive with an interrupt-safe lock; under that
//! lock the counter never decreases except by the read's reset to zero.

use vstd::prelude::*;

verus! {

/// Edges within this many ticks of the last accepted edge are noise.
/// At the 100 Hz tick rate this is 50 ms.
pub const DEBOUNCE_TICKS: u32 = 5;

/// State of the debouncer for one button.
#[derive(Debug, Clone, Copy, PartialEq, Eq, Structural)]
pub struct Debouncer {
    /// Presses seen since the last read, saturating at its maximum.
    pub count: u8,
    /// Tick of the last accepted edge.
    pub last_tick: u32,
    /// Whether the button is currently held down.
    pub pressed: bool,
}

/// Ticks elapsed from `last` to `now` on the wrapping hardware counter.
pub open spec fn spec_tick_delta(last: u32, now: u32) -> nat {
    if now >= last {
        (now - last) as nat
    } else {
        (now + 0x1_0000_0000 - last) as nat
    }
}

impl Debouncer {
    /// What one edge at `tick` does to the state: nothing within the
    /// debounce interval; otherwise the pressed flag toggles and a leading
    /// edge bumps the count, saturating at its maximum.
    pub open spec fn spec_on_edge(self, tick: u32) -> Debouncer {
        if spec_tick_delta(self.last_tick, tick) < DEBOUNCE_TICKS {
            self
        } else if self.pressed {
            Debouncer { pressed: false, last_tick: tick, count: self.count }
        } else {
            Debouncer {
                pressed: true,
                last_tick: tick,
                count: if self.count < 255 {
                    (self.count + 1) as u8
                } else {
                    255
                },
            }
        }
    }

    /// A fresh debouncer: nothing pressed, nothing counted.
    pub fn new() -> (r: Self)
        ensures
            r == (Debouncer { count: 0, last_tick: 0, pressed: false }),
    {
        Debouncer { count: 0, last_tick: 0, pressed: false }
    }

    /// Handles one electrical edge at hardware tick `tick`.  Runs in
    /// interrupt context: no allocation, no blocking, bounded time.
    pub fn on_edge(&mut self, tick: u32)
        ensures
            *final(self) == old(self).spec_on_edge(tick),
    {
        let delta: u32 = if tick >= self.last_tick {
            tick - self.last_tick
        } else {
            (u32::MAX - self.last_tick) + 1 + tick
        };
        if delta < DEBOUNCE_TICKS {
            return;
        }
        self.last_tick = tick;
        if self.pressed {
            self.pressed = false;
        } else {
            self.pressed = true;
            if self.count < 255 {
                self.count = self.count + 1;
            }
        }
    }

    /// Takes the press count and resets it to zero, atomically with
    /// respect to `on_edge` under the caller's lock.
    pub fn read_and_reset(&mut self) -> (r: u8)
        ensures
            r == old(self).count,
            *final(self) == (Debouncer { count: 0, ..*old(self) }),
    {
        let c = self.count;
        self.count = 0;
        c
    }
}

/// The debouncer run over a whole sequence of edges.
pub open spec fn spec_run(d: Debouncer, ticks: Seq<u32>) -> Debouncer
    decreases ticks.len(),
{
    if ticks.len() == 0 {
        d
    } else {
        spec_run(d.spec_on_edge(ticks[0]), ticks.drop_first())
    }
}

/// Edges at least the debounce interval apart, the first at least that far
/// past `last`, with no wrap of the tick counter among them.
pub open spec fn spec_well_spaced(last: u32, ticks: Seq<u32>) -> bool
    decreases ticks.len(),
{
    ticks.len() == 0 || (last + DEBOUNCE_TICKS <= ticks[0] && spec_well_spaced(
        ticks[0],
        ticks.drop_first(),
    ))
}

/// How many of `n` accepted edges are presses: every second edge starting
/// with the first when the button starts released, with the second when it
/// starts held.
pub open spec fn spec_presses(pressed: bool, n: nat) -> nat {
    if pressed {
        n / 2
    } else {
        (n + 1) / 2
    }
}

/// Law: the debouncer treats a stream of edges one at a time — splitting
/// the stream anywhere, as a concurrent read interleaved between two edges
/// does, changes nothing about how the rest is counted.
pub proof fn lemma_run_append(d: Debouncer, front: Seq<u32>, back: Seq<u32>)
    ensures
        spec_run(d, front + back) == spec_run(spec_run(d, front), back),
    decreases front.len(),
{
    if front.len() == 0 {
        assert(front + back =~= back);
    } else {
        let d1 = d.spec_on_edge(front[0]);
        assert((front + back).drop_first() =~= front.drop_first() + back);
        lemma_run_append(d1, front.drop_first(), back);
    }
}

/// Law: a sequence of edges spaced at least the debounce interval apart is
/// counted exactly — each press-release pair adds one, none is lost and
/// none is counted twice — as long as the saturating counter has room.
pub proof fn lemma_debounce_counts_exactly(d: Debouncer, ticks: Seq<u32>)
    requires
        spec_well_spaced(d.last_tick, ticks),
        d.count + spec_presses(d.pressed, ticks.len()) <= 255,
    ensures
        spec_run(d, ticks).count == d.count + spec_presses(d.pressed, ticks.len()),
        spec_run(d, ticks).pressed == (if ticks.len() % 2 == 0 {
            d.pressed
        } else {
            !d.pressed
        }),
        spec_run(d, ticks).last_tick == (if ticks.len() == 0 {
            d.last_tick
        } else {
            ticks.last()
        }),
    decreases ticks.len(),
{
    if ticks.len() > 0 {
        let d1 = d.spec_on_edge(ticks[0]);
        assert(spec_tick_delta(d.last_tick, ticks[0]) >= DEBOUNCE_TICKS);
        lemma_debounce_counts_exactly(d1, ticks.drop_first());
        if ticks.len() > 1 {
            assert(ticks.drop_first().last() == ticks.last());
        }
    }
}

} // verus!
