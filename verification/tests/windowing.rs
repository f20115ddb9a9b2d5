use listwindow::anchor::ScrollAnchor;
use listwindow::coordinator::{FetchCoordinator, FetchRequest, FetchResponse, ResponseOutcome};
use listwindow::policy::{ScrollMetrics, WindowPolicy};
use listwindow::service;
use listwindow::window::RangeWindow;

fn top() -> ScrollMetrics {
    ScrollMetrics { scroll_top: 0, scroll_height: 2000, client_height: 400 }
}

fn bottom() -> ScrollMetrics {
    ScrollMetrics { scroll_top: 1590, scroll_height: 2000, client_height: 400 }
}

fn mid() -> ScrollMetrics {
    ScrollMetrics { scroll_top: 800, scroll_height: 2000, client_height: 400 }
}

fn numbers(n: u64) -> Vec<u64> {
    let mut v: Vec<u64> = Vec::new();
    let mut i: u64 = 0;
    while i < n {
        v.push(i);
        i += 1;
    }
    v
}

/// Feed the coordinator the collection length, the way a pushed state
/// update announces it before any window was fetched.
fn seed_total(c: &mut FetchCoordinator<u64>, total_len: usize) {
    let outcome = c.on_response(FetchResponse {
        range: RangeWindow { start: 0, stop: 0 },
        total_len,
        items: Vec::new(),
        token: c.generation,
    });
    assert_eq!(outcome, ResponseOutcome::Applied);
}

/// Answer an emitted request from the collection and apply the response.
fn serve(c: &mut FetchCoordinator<u64>, collection: &Vec<u64>, req: FetchRequest) {
    let resp = service::load_range(collection, &req).unwrap();
    let outcome = c.on_response(resp);
    assert_eq!(outcome, ResponseOutcome::Applied);
}

#[test]
fn window_span_and_contains() {
    let w = RangeWindow::new(10, 40);
    assert_eq!(w.span(), 30);
    assert!(!w.contains(9));
    assert!(w.contains(10));
    assert!(w.contains(39));
    assert!(!w.contains(40));
    assert!(!w.is_reset());
    assert!(RangeWindow::empty().is_reset());
    assert_eq!(RangeWindow::empty().span(), 0);
}

#[test]
fn max_window_is_three_batches() {
    assert_eq!(WindowPolicy::new(30, 20).max_window_size(), 90);
    assert_eq!(WindowPolicy::new(10, 20).max_window_size(), 30);
}

#[test]
fn initial_window_is_newest_batch() {
    let p = WindowPolicy::new(30, 20);
    let r = p.next_window(RangeWindow::empty(), 100, top());
    assert_eq!(r, Some(RangeWindow { start: 70, stop: 100 }));
}

#[test]
fn initial_window_short_collection_starts_at_zero() {
    let p = WindowPolicy::new(30, 20);
    let r = p.next_window(RangeWindow::empty(), 5, mid());
    assert_eq!(r, Some(RangeWindow { start: 0, stop: 5 }));
}

#[test]
fn small_collection_loads_whole_regardless_of_scroll() {
    let p = WindowPolicy::new(30, 20);
    for m in [top(), bottom(), mid()] {
        assert_eq!(
            p.next_window(RangeWindow { start: 2, stop: 4 }, 5, m),
            Some(RangeWindow { start: 0, stop: 5 })
        );
        assert_eq!(p.next_window(RangeWindow { start: 0, stop: 5 }, 5, m), None);
    }
}

#[test]
fn empty_collection_never_fetches() {
    let p = WindowPolicy::new(30, 20);
    for m in [top(), bottom(), mid()] {
        assert_eq!(p.next_window(RangeWindow::empty(), 0, m), None);
    }
}

#[test]
fn top_scroll_grows_window_upward() {
    let p = WindowPolicy::new(30, 20);
    let w1 = p.next_window(RangeWindow { start: 70, stop: 100 }, 100, top());
    assert_eq!(w1, Some(RangeWindow { start: 40, stop: 100 }));
    let w2 = p.next_window(RangeWindow { start: 40, stop: 100 }, 100, top());
    assert_eq!(w2, Some(RangeWindow { start: 10, stop: 100 }));
    let w3 = p.next_window(RangeWindow { start: 10, stop: 100 }, 100, top());
    assert_eq!(w3, Some(RangeWindow { start: 0, stop: 100 }));
    let w4 = p.next_window(RangeWindow { start: 0, stop: 100 }, 100, top());
    assert_eq!(w4, None);
}

#[test]
fn top_scroll_trims_bottom_when_span_exceeds_three_batches() {
    let p = WindowPolicy::new(30, 20);
    let r = p.next_window(RangeWindow { start: 100, stop: 200 }, 200, top());
    assert_eq!(r, Some(RangeWindow { start: 70, stop: 100 }));
}

#[test]
fn bottom_scroll_grows_window_downward() {
    let p = WindowPolicy::new(30, 20);
    let r = p.next_window(RangeWindow { start: 0, stop: 90 }, 200, bottom());
    assert_eq!(r, Some(RangeWindow { start: 0, stop: 120 }));
    let clamped = p.next_window(RangeWindow { start: 150, stop: 190 }, 200, bottom());
    assert_eq!(clamped, Some(RangeWindow { start: 150, stop: 200 }));
}

#[test]
fn bottom_scroll_trims_top_when_span_exceeds_three_batches() {
    let p = WindowPolicy::new(30, 20);
    let r = p.next_window(RangeWindow { start: 0, stop: 100 }, 200, bottom());
    assert_eq!(r, Some(RangeWindow { start: 30, stop: 130 }));
}

#[test]
fn mid_scroll_needs_no_fetch() {
    let p = WindowPolicy::new(30, 20);
    assert_eq!(p.next_window(RangeWindow { start: 40, stop: 100 }, 200, mid()), None);
}

#[test]
fn boundary_candidate_equal_to_current_is_suppressed() {
    let p = WindowPolicy::new(30, 20);
    // At the very bottom the grown window clamps back to the current one.
    assert_eq!(p.next_window(RangeWindow { start: 70, stop: 100 }, 100, bottom()), None);
}

#[test]
fn policy_is_deterministic() {
    let p = WindowPolicy::new(10, 20);
    let w = RangeWindow { start: 20, stop: 50 };
    let first = p.next_window(w, 300, top());
    let second = p.next_window(w, 300, top());
    assert_eq!(first, second);
}

#[test]
fn coordinator_starts_reset() {
    let c = FetchCoordinator::<u64>::new(WindowPolicy::new(30, 20));
    assert_eq!(c.window, RangeWindow { start: 0, stop: 0 });
    assert_eq!(c.total_len, 0);
    assert_eq!(c.items.len(), 0);
    assert!(!c.loading);
    assert!(c.scroll_bottom_next);
    assert_eq!(c.generation, 0);
}

#[test]
fn scenario_hundred_items_walks_to_the_top() {
    let collection = numbers(100);
    let mut c = FetchCoordinator::<u64>::new(WindowPolicy::new(30, 20));
    seed_total(&mut c, 100);

    let req = c.on_scroll(top()).unwrap();
    assert_eq!((req.start_index, req.stop_index), (70, 100));
    serve(&mut c, &collection, req);
    assert_eq!(c.window, RangeWindow { start: 70, stop: 100 });
    assert_eq!(c.items, numbers(100)[70..100].to_vec());

    let req = c.on_scroll(top()).unwrap();
    assert_eq!((req.start_index, req.stop_index), (40, 100));
    serve(&mut c, &collection, req);

    let req = c.on_scroll(top()).unwrap();
    assert_eq!((req.start_index, req.stop_index), (10, 100));
    serve(&mut c, &collection, req);

    let req = c.on_scroll(top()).unwrap();
    assert_eq!((req.start_index, req.stop_index), (0, 100));
    serve(&mut c, &collection, req);
    assert_eq!(c.window, RangeWindow { start: 0, stop: 100 });
    assert_eq!(c.items, numbers(100));

    assert_eq!(c.on_scroll(top()), None);
}

#[test]
fn scenario_five_items_fetches_once_only() {
    let collection = numbers(5);
    let mut c = FetchCoordinator::<u64>::new(WindowPolicy::new(30, 20));
    seed_total(&mut c, 5);

    let mut requests: usize = 0;
    for m in [top(), bottom(), mid(), top(), bottom()] {
        if let Some(req) = c.on_scroll(m) {
            requests += 1;
            assert_eq!((req.start_index, req.stop_index), (0, 5));
            serve(&mut c, &collection, req);
        }
    }
    assert_eq!(requests, 1);
    assert_eq!(c.window, RangeWindow { start: 0, stop: 5 });
    assert_eq!(c.items, numbers(5));
}

#[test]
fn server_clamps_overlong_request_to_collection() {
    let collection = numbers(5);
    let resp = service::load_range(
        &collection,
        &FetchRequest { start_index: 0, stop_index: 30, token: 0 },
    )
    .unwrap();
    assert_eq!(resp.range, RangeWindow { start: 0, stop: 5 });
    assert_eq!(resp.total_len, 5);
    assert_eq!(resp.items, numbers(5));
}

#[test]
fn loading_gates_second_scroll() {
    let collection = numbers(100);
    let mut c = FetchCoordinator::<u64>::new(WindowPolicy::new(30, 20));
    seed_total(&mut c, 100);

    let req = c.on_scroll(top()).unwrap();
    assert!(c.loading);
    assert_eq!(c.on_scroll(top()), None);
    assert_eq!(c.on_scroll(bottom()), None);

    serve(&mut c, &collection, req);
    assert!(!c.loading);
    assert!(c.on_scroll(top()).is_some());
}

#[test]
fn selection_change_clears_loading() {
    let mut c = FetchCoordinator::<u64>::new(WindowPolicy::new(30, 20));
    seed_total(&mut c, 100);
    let _req = c.on_scroll(top()).unwrap();
    assert!(c.loading);
    c.on_selection_changed();
    assert!(!c.loading);
    assert_eq!(c.window, RangeWindow { start: 0, stop: 0 });
    assert_eq!(c.total_len, 0);
    assert!(c.scroll_bottom_next);
}

#[test]
fn stale_response_after_selection_change_is_discarded() {
    let collection = numbers(100);
    let mut c = FetchCoordinator::<u64>::new(WindowPolicy::new(30, 20));
    seed_total(&mut c, 100);

    let req = c.on_scroll(top()).unwrap();
    assert_eq!(req.token, 0);

    // The user switches chats before the response lands.
    c.on_selection_changed();
    assert_eq!(c.generation, 1);

    let late = service::load_range(&collection, &req).unwrap();
    assert_eq!(c.on_response(late), ResponseOutcome::Stale);
    assert_eq!(c.window, RangeWindow { start: 0, stop: 0 });
    assert_eq!(c.total_len, 0);
    assert_eq!(c.items.len(), 0);
}

#[test]
fn malformed_response_is_dropped_and_retried() {
    let collection = numbers(100);
    let mut c = FetchCoordinator::<u64>::new(WindowPolicy::new(30, 20));
    seed_total(&mut c, 100);

    let req = c.on_scroll(top()).unwrap();
    let bad = FetchResponse {
        range: RangeWindow { start: req.start_index, stop: req.stop_index },
        total_len: 100,
        items: vec![1u64, 2, 3],
        token: req.token,
    };
    assert_eq!(c.on_response(bad), ResponseOutcome::Malformed);
    assert_eq!(c.window, RangeWindow { start: 0, stop: 0 });
    assert_eq!(c.total_len, 100);
    assert!(!c.loading);

    let inverted = FetchResponse {
        range: RangeWindow { start: 10, stop: 5 },
        total_len: 100,
        items: Vec::new(),
        token: c.generation,
    };
    assert_eq!(c.on_response(inverted), ResponseOutcome::Malformed);

    // Loading is cleared again, so the same fetch can be retried.
    let retry = c.on_scroll(top()).unwrap();
    assert_eq!((retry.start_index, retry.stop_index), (70, 100));
    serve(&mut c, &collection, retry);
    assert_eq!(c.window, RangeWindow { start: 70, stop: 100 });
}

#[test]
fn fetch_error_keeps_cache_and_reopens() {
    let mut c = FetchCoordinator::<u64>::new(WindowPolicy::new(30, 20));
    seed_total(&mut c, 100);
    let _req = c.on_scroll(top()).unwrap();
    assert!(c.loading);
    c.on_fetch_error();
    assert!(!c.loading);
    assert_eq!(c.total_len, 100);
    assert!(c.on_scroll(top()).is_some());
}

#[test]
fn repeated_top_scrolls_reach_index_zero() {
    let collection = numbers(1000);
    let mut c = FetchCoordinator::<u64>::new(WindowPolicy::new(30, 20));
    seed_total(&mut c, 1000);

    let mut fetches: usize = 0;
    let mut last_start: Option<usize> = None;
    loop {
        match c.on_scroll(top()) {
            Some(req) => {
                assert!(req.start_index <= req.stop_index);
                assert!(req.stop_index <= 1000);
                if let Some(prev) = last_start {
                    assert!(req.start_index < prev, "each step moves the start upward");
                }
                last_start = Some(req.start_index);
                fetches += 1;
                assert!(fetches <= 64, "top scrolling must settle");
                serve(&mut c, &collection, req);
            }
            None => break,
        }
    }
    assert_eq!(c.window.start, 0);
}

#[test]
fn refresh_request_reissues_current_window() {
    let collection = numbers(100);
    let mut c = FetchCoordinator::<u64>::new(WindowPolicy::new(30, 20));
    seed_total(&mut c, 100);
    let req = c.on_scroll(top()).unwrap();
    serve(&mut c, &collection, req);

    // The engine reports new content: the client refetches the same window.
    let refresh = c.refresh_request();
    assert_eq!((refresh.start_index, refresh.stop_index), (70, 100));
    assert_eq!(refresh.token, c.generation);
    serve(&mut c, &collection, refresh);
    assert_eq!(c.window, RangeWindow { start: 70, stop: 100 });
}

#[test]
fn take_scroll_bottom_is_one_shot() {
    let mut c = FetchCoordinator::<u64>::new(WindowPolicy::new(10, 20));
    assert!(c.take_scroll_bottom());
    assert!(!c.take_scroll_bottom());
    c.on_selection_changed();
    assert!(c.take_scroll_bottom());
}

#[test]
fn anchor_restores_relative_position() {
    let mut a = ScrollAnchor::new();
    a.capture(100, 600);
    // The scroll range grew by 300 while older items were prepended.
    assert_eq!(a.restore_target(false, 900), 400);
}

#[test]
fn anchor_snaps_to_bottom_when_armed() {
    let mut a = ScrollAnchor::new();
    a.capture(100, 600);
    assert_eq!(a.restore_target(true, 900), 900);
}

#[test]
fn anchor_without_snapshot_goes_to_bottom() {
    let mut a = ScrollAnchor::new();
    assert_eq!(a.restore_target(false, 500), 500);
}

#[test]
fn anchor_clamps_into_valid_range() {
    let mut a = ScrollAnchor::new();
    a.capture(10, 600);
    assert_eq!(a.restore_target(false, 300), 0);
    a.capture(500, 100);
    assert_eq!(a.restore_target(false, 50), 50);
    a.capture(3, 4);
    assert_eq!(a.restore_target(false, -5), 0);
}

#[test]
fn anchor_snapshot_is_consumed_once() {
    let mut a = ScrollAnchor::new();
    a.capture(100, 600);
    assert_eq!(a.restore_target(false, 700), 200);
    // Consumed: a second restore falls back to the bottom.
    assert_eq!(a.restore_target(false, 700), 700);
}
