use evdev_sync::time::{systime_to_timeval, timeval_now, timeval_to_systime};
use evdev_sync::TimeVal;
use std::time::{Duration, SystemTime};

#[test]
fn stamps_of_times_after_the_epoch() {
    let time = SystemTime::UNIX_EPOCH + Duration::new(5, 250_000_999);
    assert_eq!(systime_to_timeval(&time), TimeVal { tv_sec: 5, tv_usec: 250_000 });
    assert_eq!(systime_to_timeval(&SystemTime::UNIX_EPOCH), TimeVal { tv_sec: 0, tv_usec: 0 });
}

#[test]
fn stamps_of_times_before_the_epoch() {
    let time = SystemTime::UNIX_EPOCH - Duration::new(3, 500_000_000);
    assert_eq!(systime_to_timeval(&time), TimeVal { tv_sec: -3, tv_usec: 500_000 });
}

#[test]
fn stamps_from_offsets() {
    assert_eq!(TimeVal::from_offset(true, 7, 8), TimeVal { tv_sec: 7, tv_usec: 8 });
    assert_eq!(TimeVal::from_offset(false, 7, 8), TimeVal { tv_sec: -7, tv_usec: 8 });
    assert_eq!(TimeVal::from_offset(false, 0, 999_999), TimeVal { tv_sec: 0, tv_usec: 999_999 });
    assert_eq!(
        TimeVal::from_offset(true, i64::MAX as u64, 0),
        TimeVal { tv_sec: i64::MAX, tv_usec: 0 }
    );
    assert_eq!(
        TimeVal::from_offset(true, i64::MAX as u64 + 1, 0),
        TimeVal { tv_sec: i64::MIN, tv_usec: 0 }
    );
    assert_eq!(
        TimeVal::from_offset(false, i64::MAX as u64 + 1, 0),
        TimeVal { tv_sec: i64::MIN, tv_usec: 0 }
    );
    assert_eq!(TimeVal::from_offset(true, u64::MAX, 1), TimeVal { tv_sec: -1, tv_usec: 1 });
    assert_eq!(TimeVal::from_offset(false, u64::MAX, 1), TimeVal { tv_sec: 1, tv_usec: 1 });
}

#[test]
fn offsets_of_stamps() {
    assert_eq!(TimeVal { tv_sec: 5, tv_usec: 250_000 }.to_offset(), Some((true, 5, 250_000_000)));
    assert_eq!(TimeVal { tv_sec: -3, tv_usec: 1 }.to_offset(), Some((false, 3, 1000)));
    assert_eq!(TimeVal { tv_sec: 0, tv_usec: 0 }.to_offset(), Some((true, 0, 0)));
    assert_eq!(
        TimeVal { tv_sec: i64::MIN, tv_usec: 0 }.to_offset(),
        Some((false, 1u64 << 63, 0))
    );
    assert_eq!(
        TimeVal { tv_sec: 1, tv_usec: 4_294_967 }.to_offset(),
        Some((true, 1, 4_294_967_000))
    );
    assert_eq!(TimeVal { tv_sec: 1, tv_usec: 4_294_968 }.to_offset(), None);
    assert_eq!(TimeVal { tv_sec: 1, tv_usec: -1 }.to_offset(), None);
}

#[test]
fn times_of_stamps() {
    assert_eq!(
        timeval_to_systime(&TimeVal { tv_sec: 5, tv_usec: 250_000 }),
        Some(SystemTime::UNIX_EPOCH + Duration::new(5, 250_000_000))
    );
    assert_eq!(
        timeval_to_systime(&TimeVal { tv_sec: -3, tv_usec: 500_000 }),
        Some(SystemTime::UNIX_EPOCH - Duration::new(3, 500_000_000))
    );
    assert_eq!(
        timeval_to_systime(&TimeVal { tv_sec: 2, tv_usec: 1_500_000 }),
        Some(SystemTime::UNIX_EPOCH + Duration::new(3, 500_000_000))
    );
    assert_eq!(timeval_to_systime(&TimeVal { tv_sec: 2, tv_usec: -1 }), None);
    assert_eq!(timeval_to_systime(&TimeVal { tv_sec: 2, tv_usec: 4_294_968 }), None);
}

#[test]
fn a_stamp_and_its_time_agree() {
    let stamp = TimeVal { tv_sec: 1_700_000_000, tv_usec: 123_456 };
    let time = timeval_to_systime(&stamp).expect("a time of this century");
    assert_eq!(systime_to_timeval(&time), stamp);
    let before = TimeVal { tv_sec: -86_400, tv_usec: 1 };
    let time = timeval_to_systime(&before).expect("a day before the epoch");
    assert_eq!(systime_to_timeval(&time), before);
}

#[test]
fn now_is_after_the_epoch() {
    let now = timeval_now();
    assert!(now.tv_sec > 1_500_000_000);
    assert!(0 <= now.tv_usec && now.tv_usec < 1_000_000);
}
