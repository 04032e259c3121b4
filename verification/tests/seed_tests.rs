use bench_autocommit::seed::{rows_per_worker, seed_batch, seed_worker_range};

#[test]
fn the_ceil_split_covers_every_row() {
    assert_eq!(rows_per_worker(10, 3), 4);
    assert_eq!(rows_per_worker(9, 3), 3);
    assert_eq!(rows_per_worker(1, 3), 1);
    assert_eq!(rows_per_worker(0, 3), 0);
}

#[test]
fn worker_ranges_are_clipped_to_the_key_space() {
    // Ten rows over three workers, four each: the last worker gets the
    // two-row tail, a surplus worker gets nothing.
    let per_worker = rows_per_worker(10, 3);
    assert_eq!(seed_worker_range(0, 10, per_worker), (0, 4));
    assert_eq!(seed_worker_range(1, 10, per_worker), (4, 8));
    assert_eq!(seed_worker_range(2, 10, per_worker), (8, 10));
}

#[test]
fn seed_batches_carry_scattered_secondary_keys() {
    let rows = seed_batch(0, 3, 1000);
    assert_eq!(rows.len(), 3);
    assert_eq!((rows[0].id, rows[0].secondary), (0, 0));
    assert_eq!((rows[1].id, rows[1].secondary), (1, 619));
    assert_eq!((rows[2].id, rows[2].secondary), (2, 238));

    let tail = seed_batch(998, 2, 1000);
    assert_eq!(tail[0].id, 998);
    assert_eq!(tail[1].id, 999);
    // 999 scatters to 999 * 16777619 mod 1000.
    assert_eq!(tail[1].secondary, (999i64 * 16777619) % 1000);
}
