use syncoon::discovery::{
    collect_home_room_and_sub_room_ids, merge_node_pages, plan_page_offsets, PageResult, Room,
    FANOUT_CONCURRENCY, PAGE_FETCH_CONCURRENCY, PAGE_SIZE,
};
use syncoon::dispatch::BoundedDispatcher;
use syncoon::errors::AppError;

fn rooms(ids: &[u64]) -> Vec<Room> {
    ids.iter().map(|id| Room { id: *id, parent_id: None }).collect()
}

fn page(items: Vec<Room>, offset: u64, total: u64) -> PageResult {
    PageResult { items, offset, limit: PAGE_SIZE, total }
}

#[test]
fn test_offsets_for_total_1200() {
    // one synchronous request learns the total; exactly two follow-ups
    let offsets = plan_page_offsets(1200);
    assert_eq!(offsets, vec![500, 1000]);
}

#[test]
fn test_offsets_for_small_and_exact_totals() {
    assert_eq!(plan_page_offsets(0), Vec::<u64>::new());
    assert_eq!(plan_page_offsets(499), Vec::<u64>::new());
    assert_eq!(plan_page_offsets(500), vec![500]);
    assert_eq!(plan_page_offsets(1000), vec![500, 1000]);
}

#[test]
fn test_merged_item_count_is_1200() {
    let first_ids: Vec<u64> = (0..500).collect();
    let second_ids: Vec<u64> = (500..1000).collect();
    let third_ids: Vec<u64> = (1000..1200).collect();
    let merged = merge_node_pages(
        page(rooms(&first_ids), 0, 1200),
        vec![Ok(rooms(&second_ids)), Ok(rooms(&third_ids))],
    )
    .unwrap();
    assert_eq!(merged.len(), 1200);
    assert_eq!(merged[0].id, 0);
    assert_eq!(merged[1199].id, 1199);
}

#[test]
fn test_one_failed_page_fails_the_whole_listing() {
    let merged = merge_node_pages(
        page(rooms(&[1, 2]), 0, 1500),
        vec![
            Ok(rooms(&[3])),
            Err(AppError::ConnectionFailed),
            Ok(rooms(&[4])),
        ],
    );
    // the error surfaces and no partial listing does
    assert_eq!(merged, Err(AppError::ConnectionFailed));
}

#[test]
fn test_two_level_collection_flattens_ids() {
    let home = rooms(&[11, 12]);
    let collected = collect_home_room_and_sub_room_ids(
        7,
        &home,
        vec![Ok(rooms(&[121, 122])), Ok(rooms(&[111]))],
    )
    .unwrap();
    // root first, then its children, then the drained grandchildren
    assert_eq!(collected, vec![7, 11, 12, 121, 122, 111]);
}

#[test]
fn test_two_level_collection_aborts_on_first_error() {
    let home = rooms(&[11, 12]);
    let collected = collect_home_room_and_sub_room_ids(
        7,
        &home,
        vec![
            Ok(rooms(&[111])),
            Err(AppError::DracoonError("listing failed".into())),
        ],
    );
    assert_eq!(
        collected,
        Err(AppError::DracoonError("listing failed".into()))
    );
}

#[test]
fn test_concurrency_limits() {
    assert_eq!(PAGE_FETCH_CONCURRENCY, 5);
    assert_eq!(FANOUT_CONCURRENCY, 10);
}

#[test]
fn test_dispatcher_window_never_exceeds_limit() {
    let mut d = BoundedDispatcher::new(5, 12);
    let mut admitted = 0;
    while d.can_dispatch() {
        d.dispatch();
        admitted += 1;
        assert!(d.in_flight <= d.limit);
    }
    assert_eq!(admitted, 5);
    assert_eq!(d.in_flight, 5);
    assert_eq!(d.pending, 7);
    d.complete();
    assert!(d.can_dispatch());
    d.dispatch();
    assert_eq!(d.in_flight, 5);
    assert_eq!(d.pending, 6);
}

#[test]
fn test_dispatcher_drains_to_done() {
    let mut d = BoundedDispatcher::new(10, 3);
    while !d.is_done() {
        if d.can_dispatch() {
            d.dispatch();
        } else {
            d.complete();
        }
        assert!(d.in_flight <= d.limit);
    }
    assert_eq!(d.pending, 0);
    assert_eq!(d.in_flight, 0);
}
