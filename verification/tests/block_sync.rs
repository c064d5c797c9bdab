use sui_workers::block_sync::{BlockRange, BlockSync, MAX_BLOCK_RANGE};
use sui_workers::range_query::{get_events_in_range_with_retry, QueryStep};

struct Run {
    ranges: Vec<(u64, u64)>,
    latest: Vec<Option<u64>>,
    earliest: Vec<Option<u64>>,
}

fn run(current: u64, stored: (u64, u64), genesis: u64) -> Run {
    let mut sync = BlockSync::begin(current, stored, genesis);
    let mut run = Run { ranges: vec![], latest: vec![], earliest: vec![] };
    while let Some(range) = sync.next_range() {
        run.ranges.push((range.start_block, range.end_block));
        run.latest.push(sync.latest_update());
        assert!(sync.next_end_block() >= MAX_BLOCK_RANGE);
        run.earliest.push(sync.complete_range());
    }
    run
}

#[test]
fn fresh_store_is_filled_down_to_genesis() {
    let run = run(5000, (0, 0), 2500);
    assert_eq!(run.ranges, vec![(4000, 5000), (3000, 4000), (2500, 3000)]);
    assert_eq!(run.latest, vec![None, None, None]);
    assert_eq!(run.earliest, vec![Some(3000), Some(2500), Some(2500)]);
}

#[test]
fn grown_chain_skips_the_indexed_interval() {
    let run = run(10_000, (6000, 8500), 4200);
    assert_eq!(run.ranges, vec![(9000, 10_000), (8500, 9000), (5000, 6000), (4200, 5000)]);
    assert_eq!(run.latest, vec![None, Some(10_000), None, None]);
    assert_eq!(run.earliest, vec![None, Some(5000), Some(4200), Some(4200)]);
}

#[test]
fn range_that_ends_at_the_indexed_interval_joins_it() {
    let run = run(9500, (6000, 8500), 6000);
    assert_eq!(run.ranges, vec![(8500, 9500)]);
    assert_eq!(run.latest, vec![Some(9500)]);
    assert_eq!(run.earliest, vec![None]);
}

#[test]
fn chain_that_has_not_grown_is_walked_again() {
    let run = run(8000, (6000, 8000), 5500);
    assert_eq!(run.ranges, vec![(7000, 8000), (6000, 7000), (5500, 6000)]);
    assert_eq!(run.latest, vec![None, None, None]);
    assert_eq!(run.earliest, vec![None, Some(5500), Some(5500)]);
}

#[test]
fn store_without_a_latest_block_is_walked_again() {
    let run = run(5000, (2500, 0), 2500);
    assert_eq!(run.ranges, vec![(4000, 5000), (3000, 4000), (2500, 3000)]);
    assert_eq!(run.latest, vec![None, None, None]);
    assert_eq!(run.earliest, vec![None, None, None]);
}

#[test]
fn nothing_is_asked_for_at_genesis() {
    assert!(run(5000, (0, 0), 5000).ranges.is_empty());
    assert!(run(5000, (3000, 4000), 6000).ranges.is_empty());
}

#[test]
fn first_range_may_reach_below_genesis() {
    let run = run(3000, (0, 0), 2500);
    assert_eq!(run.ranges, vec![(2000, 3000)]);
    assert_eq!(run.earliest, vec![Some(2500)]);
}

#[test]
fn low_blocks_are_reported_before_a_range_is_completed() {
    let sync = BlockSync::begin(1500, (0, 0), 1200);
    assert_eq!(sync.next_range(), Some(BlockRange { start_block: 500, end_block: 1500 }));
    assert_eq!(sync.next_end_block(), 500);
}

#[test]
fn low_chain_that_joins_the_indexed_interval_is_completed() {
    let run = run(1900, (1300, 1500), 1000);
    assert_eq!(run.ranges, vec![(1500, 1900), (1000, 1300)]);
    assert_eq!(run.latest, vec![Some(1900), None]);
    assert_eq!(run.earliest, vec![Some(1000), Some(1000)]);
}

#[test]
fn low_genesis_leaves_the_last_range_incomplete() {
    let mut sync = BlockSync::begin(3000, (0, 0), 900);
    let mut ranges = 0;
    while sync.next_end_block() >= MAX_BLOCK_RANGE {
        sync.complete_range();
        ranges += 1;
    }
    assert_eq!(ranges, 2);
    assert_eq!(sync.next_range(), Some(BlockRange { start_block: 900, end_block: 1000 }));
    assert_eq!(sync.next_end_block(), 900);
}

/// The ranges that are asked for, up to the first one that cannot be completed, and whether one of
/// them joins the indexed interval.
fn asked(current: u64, stored: (u64, u64), genesis: u64) -> (Vec<(u64, u64)>, bool) {
    let mut sync = BlockSync::begin(current, stored, genesis);
    let mut ranges = vec![];
    let mut joined = false;
    while let Some(range) = sync.next_range() {
        ranges.push((range.start_block, range.end_block));
        joined = joined || sync.latest_update().is_some();
        if sync.next_end_block() < MAX_BLOCK_RANGE {
            break;
        }
        sync.complete_range();
    }
    (ranges, joined)
}

#[test]
fn blocks_behind_an_incomplete_range_are_not_asked_for() {
    assert_eq!(asked(2500, (0, 0), 100).0, vec![(1500, 2500), (500, 1500)]);
    assert_eq!(asked(3000, (0, 0), 0).0, vec![(2000, 3000), (1000, 2000), (0, 1000)]);
    assert_eq!(asked(1999, (0, 0), 998).0.len(), 1);
}

#[test]
fn low_interval_is_joined_only_from_complete_ranges() {
    assert_eq!(asked(2800, (300, 500), 100), (vec![(1800, 2800), (800, 1800)], false));
    assert_eq!(asked(2500, (300, 500), 100), (vec![(1500, 2500), (500, 1500)], true));
    assert_eq!(asked(2400, (300, 500), 100), (vec![(1400, 2400), (500, 1400)], true));
}

#[test]
fn ranges_descend_and_so_do_the_recorded_blocks() {
    let run = run(13_337, (5005, 9009), 2020);
    for pair in run.ranges.windows(2) {
        assert!(pair[1].1 <= pair[0].0);
    }
    for pair in run.earliest.windows(2) {
        if let Some(above) = pair[0] {
            assert!(pair[1].unwrap() <= above);
        }
    }
}

#[test]
fn fresh_store_takes_as_many_ranges_as_cover_the_chain() {
    assert_eq!(run(5000, (0, 0), 2000).ranges.len(), 3);
    assert_eq!(run(5001, (0, 0), 2000).ranges.len(), 4);
    assert_eq!(run(5000, (0, 7), 4999).ranges.len(), 1);
    assert_eq!(run(5000, (0, 7), 5000).ranges.len(), 0);
}

#[test]
fn every_block_is_asked_for_or_was_indexed() {
    let (current, stored, genesis) = (13_337, (5005, 9009), 2020);
    let ranges = run(current, stored, genesis).ranges;
    for block in genesis..current + 1 {
        let asked = ranges.iter().any(|(start, end)| *start <= block && block <= *end);
        assert!(asked || (stored.0 <= block && block <= stored.1));
    }
    for (start, end) in ranges {
        assert!(start < end && end - start <= MAX_BLOCK_RANGE);
        assert!(start >= stored.1 || end <= stored.0);
    }
}

#[test]
fn failing_query_is_narrowed_until_it_is_given_up() {
    let mut range = BlockRange { start_block: 0, end_block: 1000 };
    let mut starts: Vec<u64> = vec![];
    let mut attempts = 0;
    loop {
        attempts += 1;
        starts.push(range.start_block);
        match get_events_in_range_with_retry::<Vec<u8>, &str>(range, Err("too many")) {
            QueryStep::Retry(narrower) => range = narrower,
            QueryStep::Done(result) => {
                assert_eq!(result, Err("too many"));
                break;
            }
        }
        assert_eq!(range.end_block, 1000);
    }
    assert_eq!(starts, vec![0, 500, 750, 875, 937, 968, 984, 992, 996, 998, 999]);
    assert_eq!(attempts, 11);
}

#[test]
fn reply_ends_a_query() {
    let range = BlockRange { start_block: 10, end_block: 20 };
    match get_events_in_range_with_retry::<u8, &str>(range, Ok(Ok(7))) {
        QueryStep::Done(result) => assert_eq!(result, Ok(7)),
        QueryStep::Retry(_) => panic!("the query had a reply"),
    }
    match get_events_in_range_with_retry::<u8, &str>(range, Ok(Err("refused"))) {
        QueryStep::Done(result) => assert_eq!(result, Err("refused")),
        QueryStep::Retry(_) => panic!("the query had a reply"),
    }
    let narrow = BlockRange { start_block: 10, end_block: 11 };
    match get_events_in_range_with_retry::<u8, &str>(narrow, Err("late")) {
        QueryStep::Done(result) => assert_eq!(result, Err("late")),
        QueryStep::Retry(_) => panic!("the range is too narrow"),
    }
}
