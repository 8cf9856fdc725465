use project_manager::order::newest_first;
use project_manager::time::{refresh, Timestamp};

fn at(secs: i64, nanos: u32) -> Timestamp {
    Timestamp { secs, nanos }
}

#[test]
fn instants_compare_by_seconds_then_nanoseconds() {
    assert!(at(1, 0).before(&at(2, 0)));
    assert!(at(1, 5).before(&at(1, 6)));
    assert!(at(-1, 999).before(&at(0, 0)));
    assert!(!at(1, 5).before(&at(1, 5)));
    assert!(!at(2, 0).before(&at(1, 999_999_999)));
}

#[test]
fn newest_first_lists_every_position_once() {
    assert_eq!(newest_first(&vec![]), Vec::<usize>::new());
    assert_eq!(newest_first(&vec![at(5, 0)]), vec![0]);
    let keys = vec![at(10, 0), at(30, 0), at(20, 0), at(30, 0), at(10, 1), at(30, 0)];
    assert_eq!(newest_first(&keys), vec![1, 3, 5, 2, 4, 0]);
    let same = vec![at(1, 1); 5];
    assert_eq!(newest_first(&same), vec![0, 1, 2, 3, 4]);
    let rising: Vec<Timestamp> = (0..6).map(|i| at(i, 0)).collect();
    assert_eq!(newest_first(&rising), vec![5, 4, 3, 2, 1, 0]);
    let falling: Vec<Timestamp> = (0..6).map(|i| at(-i, 0)).collect();
    assert_eq!(newest_first(&falling), vec![0, 1, 2, 3, 4, 5]);
}

#[test]
fn the_next_instant_is_one_nanosecond_later_or_the_next_second() {
    assert_eq!(at(5, 0).next(), at(5, 1));
    assert_eq!(at(5, 999_999_998).next(), at(5, 999_999_999));
    assert_eq!(at(5, 999_999_999).next(), at(6, 0));
    assert_eq!(at(-1, 999_999_999).next(), at(0, 0));
    assert_eq!(at(59, 1_500_000_000).next(), at(60, 0));
    assert_eq!(at(i64::MAX, 999_999_999).next(), at(i64::MAX, 1_000_000_000));
    assert_eq!(at(i64::MAX, u32::MAX - 1).next(), at(i64::MAX, u32::MAX));
    assert_eq!(at(i64::MAX, u32::MAX).next(), at(i64::MAX, u32::MAX));
    for t in [at(0, 0), at(5, 999_999_999), at(i64::MIN, 0), at(i64::MAX, 7), at(3, u32::MAX)] {
        assert!(t.before(&t.next()));
    }
}

#[test]
fn a_refreshed_time_lies_after_the_last() {
    assert_eq!(refresh(at(5, 0), at(9, 3)), at(9, 3));
    assert_eq!(refresh(at(5, 0), at(5, 1)), at(5, 1));
    assert_eq!(refresh(at(5, 0), at(5, 0)), at(5, 1));
    assert_eq!(refresh(at(5, 0), at(4, 999_999_999)), at(5, 1));
    assert_eq!(refresh(at(5, 999_999_999), at(0, 0)), at(6, 0));
    assert_eq!(refresh(at(i64::MAX, u32::MAX), at(0, 0)), at(i64::MAX, u32::MAX));
    assert_eq!(refresh(refresh(at(5, 0), at(1, 0)), at(1, 0)), at(5, 2));
}
