use esp_feed::interrupt::{Debouncer, DEBOUNCE_TICKS};

#[test]
fn well_spaced_pairs_count_once_each() {
    let mut d = Debouncer::new();
    // Three presses, each a press edge and a release edge, all spaced
    // at least the debounce interval apart.
    let mut tick = 100u32;
    for _ in 0..3 {
        d.on_edge(tick);
        tick += DEBOUNCE_TICKS;
        d.on_edge(tick);
        tick += DEBOUNCE_TICKS;
    }
    assert_eq!(d.read_and_reset(), 3);
    assert_eq!(d.count, 0);
}

#[test]
fn bouncing_edges_within_the_interval_are_ignored() {
    let mut d = Debouncer::new();
    d.on_edge(100);
    // A burst of bounces right after the press edge.
    d.on_edge(101);
    d.on_edge(102);
    d.on_edge(103);
    assert_eq!(d.count, 1);
    // The release, well clear of the press.
    d.on_edge(110);
    assert_eq!(d.count, 1);
}

#[test]
fn only_leading_edges_count() {
    let mut d = Debouncer::new();
    d.on_edge(50);  // press
    assert_eq!(d.count, 1);
    d.on_edge(60);  // release: consumed silently
    assert_eq!(d.count, 1);
    d.on_edge(70);  // press again
    assert_eq!(d.count, 2);
}

#[test]
fn read_resets_to_zero_until_the_next_edge() {
    let mut d = Debouncer::new();
    d.on_edge(10);
    d.on_edge(20);
    assert_eq!(d.read_and_reset(), 1);
    assert_eq!(d.read_and_reset(), 0);
    assert_eq!(d.read_and_reset(), 0);
    d.on_edge(40);
    assert_eq!(d.read_and_reset(), 1);
}

#[test]
fn tick_wraparound_still_accepts_a_spaced_edge() {
    let mut d = Debouncer::new();
    d.on_edge(u32::MAX - 1);
    assert_eq!(d.count, 1);
    // Three ticks later on the wrapped counter: still within the interval.
    d.on_edge(1);
    assert_eq!(d.count, 1);
    // Well past the interval after the wrap.
    d.on_edge(10);
    assert_eq!(d.count, 1);  // release edge
    d.on_edge(20);
    assert_eq!(d.count, 2);
}
