use std::sync::mpsc;
use std::time::Duration;

use hel_thread_pool::thread_pool::state::state_cell::StateCell;
use hel_thread_pool::thread_pool::MAX_THREADS;
use hel_thread_pool::utils::optimal_number_of_threads;
use hel_thread_pool::utils::threads_within;
use hel_thread_pool::utils::MINIMAL_NUMBER_OF_THREADS;
use hel_thread_pool::ThreadPool;

fn pause(millis: u64) {
    let _ = crossbeam_channel::after(Duration::from_millis(millis)).recv();
}

#[test]
fn capacity_matches_request() {
    let sizes: [usize; 4] = [0, 1, 7, 33];
    for n in sizes {
        let pool = ThreadPool::with_capacity(n);
        assert_eq!(pool.capacity(), n);
    }
}

#[test]
fn max_capacity_constructs() {
    let pool = ThreadPool::with_capacity(MAX_THREADS);
    assert_eq!(pool.capacity(), MAX_THREADS);
}

#[test]
fn iter_yields_ids_in_order() {
    let pool = ThreadPool::with_capacity(5);
    let ids: Vec<usize> = pool.iter().collect();
    assert_eq!(ids, vec![0, 1, 2, 3, 4]);

    let empty = ThreadPool::with_capacity(0);
    assert_eq!(empty.iter().count(), 0);
}

#[test]
fn fifo_on_single_worker() {
    let pool = ThreadPool::with_capacity(1);
    let (sender, receiver) = mpsc::channel();

    let n: usize = 50;
    for i in 0..n {
        let sender = sender.clone();
        pool.execute(move || {
            sender.send(i).unwrap();
        });
    }
    drop(sender);
    pool.join();

    let log: Vec<usize> = receiver.iter().collect();
    let expected: Vec<usize> = (0..n).collect();
    assert_eq!(log, expected);
}

#[test]
fn channel_roundtrip_count() {
    let pool = ThreadPool::with_capacity(3);
    let (sender, receiver) = mpsc::channel();

    let k: usize = 100;
    for _ in 0..k {
        let sender = sender.clone();
        pool.execute(move || {
            sender.send(1usize).unwrap();
        });
    }
    drop(sender);

    let received: usize = receiver.iter().count();
    assert_eq!(received, k);
}

#[test]
fn busy_drains_to_zero() {
    let pool = ThreadPool::new();
    let cap = pool.capacity();

    for _ in 0..cap * 3 {
        pool.execute(|| {});
    }

    let mut waited: u64 = 0;
    while pool.check_busy() != 0 && waited < 10_000 {
        pause(10);
        waited += 10;
    }
    assert_eq!(pool.check_busy(), 0);
}

#[test]
fn panics_never_decrease() {
    let pool = ThreadPool::with_capacity(8);

    pool.execute(|| panic!("first"));
    pause(100);
    let p1 = pool.check_panics();

    pool.execute(|| panic!("second"));
    pause(100);
    let p2 = pool.check_panics();

    assert!(p1 <= p2);
    assert_eq!(p2, 2);
}

#[test]
fn state_cell_set_clear() {
    let cell = StateCell::new();
    assert_eq!(cell.count(), 0);

    cell.add(0b1000);
    assert_eq!(cell.count(), 1);
    cell.add(0b1000);
    assert_eq!(cell.count(), 1);

    cell.remove(0b1000);
    assert_eq!(cell.count(), 0);
    cell.remove(0b1000);
    assert_eq!(cell.count(), 0);

    cell.add(0b1011);
    assert_eq!(cell.count(), 3);
    cell.add(0b0001);
    assert_eq!(cell.count(), 3);
    cell.remove(0b0010);
    assert_eq!(cell.count(), 2);
}

#[test]
fn popcount_exact_values() {
    assert_eq!(hel_thread_pool::bitmap::popcount64(0), 0);
    assert_eq!(hel_thread_pool::bitmap::popcount64(1), 1);
    assert_eq!(hel_thread_pool::bitmap::popcount64(0b1011), 3);
    assert_eq!(hel_thread_pool::bitmap::popcount64(u64::MAX), 64);
    assert_eq!(hel_thread_pool::bitmap::popcount64(1u64 << 63), 1);
}

#[test]
fn suggested_capacity_values() {
    assert_eq!(threads_within(65535, 0), MINIMAL_NUMBER_OF_THREADS);
    assert_eq!(threads_within(65535, 1), MINIMAL_NUMBER_OF_THREADS);
    assert_eq!(threads_within(0, 9), MINIMAL_NUMBER_OF_THREADS);
    assert_eq!(threads_within(1, 9), MINIMAL_NUMBER_OF_THREADS);
    assert_eq!(threads_within(65535, 7), 7);
    assert_eq!(threads_within(4, 7), 4);
    assert_eq!(threads_within(65535, 1000), MAX_THREADS);

    let n = optimal_number_of_threads(65535);
    assert!(MINIMAL_NUMBER_OF_THREADS <= n && n <= MAX_THREADS);
}

#[test]
fn default_pool_matches_suggestion() {
    let pool = ThreadPool::default();
    let cap = pool.capacity();
    assert!(MINIMAL_NUMBER_OF_THREADS <= cap && cap <= MAX_THREADS);
    assert_eq!(cap, optimal_number_of_threads(u16::MAX as usize));
}

#[test]
fn join_consumes_pool() {
    let pool = ThreadPool::with_capacity(2);
    let (sender, receiver) = mpsc::channel();

    for i in 0..2usize {
        let sender = sender.clone();
        pool.execute(move || {
            sender.send(i).unwrap();
        });
    }
    drop(sender);
    pool.join();

    let mut got: Vec<usize> = receiver.iter().collect();
    got.sort();
    assert_eq!(got, vec![0, 1]);
}
