use esp_feed::stock::{sort_points, PlotPoint, StockController, NUM_ENTRIES};

fn p(x: i32, y: i32) -> PlotPoint {
    PlotPoint { x, y }
}

#[test]
fn points_are_sorted_by_day() {
    let sorted = sort_points(&vec![p(3, 30), p(-1, 10), p(0, 20)]);
    assert_eq!(sorted, vec![p(-1, 10), p(0, 20), p(3, 30)]);
}

#[test]
fn sorting_keeps_equal_days_and_all_points() {
    let sorted = sort_points(&vec![p(2, 1), p(2, 2), p(1, 3), p(2, 4)]);
    assert_eq!(sorted.len(), 4);
    assert_eq!(sorted[0], p(1, 3));
    for w in sorted.windows(2) {
        assert!(w[0].x <= w[1].x);
    }
    let mut ys: Vec<i32> = sorted.iter().map(|q| q.y).collect();
    ys.sort();
    assert_eq!(ys, vec![1, 2, 3, 4]);
}

#[test]
fn sorting_an_empty_list_gives_an_empty_list() {
    assert_eq!(sort_points(&Vec::new()).len(), 0);
}

#[test]
fn a_full_window_is_installed_sorted_and_truncated() {
    let mut sc = StockController::new();
    // 50 points, newest first, as the quote endpoint lists them.
    let points: Vec<PlotPoint> = (0..50).map(|i| p(-i, 100 + i)).collect();
    assert!(sc.refresh(&points));
    let data = sc.stock_data().unwrap();
    assert_eq!(data.len(), NUM_ENTRIES);
    // The first 48 points arrived first; sorted, the oldest of them leads.
    assert_eq!(data[0], p(-47, 147));
    assert_eq!(data[NUM_ENTRIES - 1], p(0, 100));
}

#[test]
fn too_few_points_keep_the_previous_window() {
    let mut sc = StockController::new();
    let full: Vec<PlotPoint> = (0..48).map(|i| p(i, i)).collect();
    assert!(sc.refresh(&full));
    let short: Vec<PlotPoint> = (0..47).map(|i| p(i, 1000 + i)).collect();
    assert!(!sc.refresh(&short));
    let data = sc.stock_data().unwrap();
    assert_eq!(data.len(), NUM_ENTRIES);
    assert_eq!(data[0], p(0, 0));
}

#[test]
fn no_quotes_before_the_first_refresh() {
    let sc = StockController::new();
    assert!(sc.stock_data().is_none());
}
