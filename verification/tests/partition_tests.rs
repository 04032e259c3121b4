use bench_autocommit::partition::ThreadRange;

#[test]
fn partition_covers_the_key_space_exactly() {
    // Three workers over ten ids: contiguous, non-overlapping, the last one
    // absorbing the remainder.
    let total_threads: u64 = 3;
    let total_rows: u64 = 10;
    let ranges: Vec<ThreadRange> =
        (0..total_threads).map(|t| ThreadRange::new(t, total_threads, total_rows)).collect();
    assert_eq!((ranges[0].start, ranges[0].end), (0, 3));
    assert_eq!((ranges[1].start, ranges[1].end), (3, 6));
    assert_eq!((ranges[2].start, ranges[2].end), (6, 10));
    for k in 0..total_rows {
        let owners = ranges.iter().filter(|r| r.start <= k && k < r.end).count();
        assert_eq!(owners, 1, "id {} is owned by {} ranges", k, owners);
    }
}

#[test]
fn partition_one_id_per_worker() {
    let ranges: Vec<ThreadRange> = (0..4).map(|t| ThreadRange::new(t, 4, 4)).collect();
    for (t, r) in ranges.iter().enumerate() {
        assert_eq!((r.start, r.end), (t as u64, t as u64 + 1));
    }
}

#[test]
fn partition_single_worker_takes_everything() {
    let r = ThreadRange::new(0, 1, 7);
    assert_eq!((r.start, r.end), (0, 7));
}

#[test]
fn partition_more_workers_than_ids_degenerates_but_still_covers() {
    // With more workers than ids the early ranges are empty and the last
    // range holds the whole space; every id still has exactly one owner.
    let ranges: Vec<ThreadRange> = (0..3).map(|t| ThreadRange::new(t, 3, 2)).collect();
    assert_eq!((ranges[0].start, ranges[0].end), (0, 0));
    assert_eq!((ranges[1].start, ranges[1].end), (0, 0));
    assert_eq!((ranges[2].start, ranges[2].end), (0, 2));
    for k in 0..2u64 {
        let owners = ranges.iter().filter(|r| r.start <= k && k < r.end).count();
        assert_eq!(owners, 1);
    }
}
