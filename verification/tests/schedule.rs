use cpu_peg::schedule::{DutyCycleSchedule, MAX_PERCENTAGE, MIN_PERCENTAGE, SCALE_MICROS};

fn schedule(percentage: u8) -> DutyCycleSchedule {
    DutyCycleSchedule::for_percentage(percentage).expect("a valid percentage")
}

#[test]
fn half_load_works_and_sleeps_five_milliseconds() {
    assert_eq!(
        DutyCycleSchedule::for_percentage(50),
        Some(DutyCycleSchedule { work_micros: 5_000, sleep_micros: 5_000 })
    );
}

#[test]
fn quarter_load_works_a_quarter_of_the_period() {
    let s = schedule(25);
    assert_eq!(s.work_micros, 2_500);
    assert_eq!(s.sleep_micros, 7_500);
}

#[test]
fn scale_is_one_hundred_microseconds() {
    assert_eq!(SCALE_MICROS, 100);
    assert_eq!(MIN_PERCENTAGE, 1);
    assert_eq!(MAX_PERCENTAGE, 100);
}

#[test]
fn work_and_sleep_add_up_to_the_work_of_full_load() {
    let full = schedule(100).work_micros;
    assert_eq!(full, 10_000);
    for p in 1..=100u8 {
        let s = schedule(p);
        assert_eq!(s.work_micros + s.sleep_micros, full, "at {} percent", p);
    }
}

#[test]
fn work_never_falls_and_sleep_never_rises_with_the_percentage() {
    for p in 1..100u8 {
        let lower = schedule(p);
        let higher = schedule(p + 1);
        assert!(lower.work_micros <= higher.work_micros, "work at {} percent", p);
        assert!(lower.sleep_micros >= higher.sleep_micros, "sleep at {} percent", p);
    }
}

#[test]
fn full_load_never_sleeps() {
    let s = schedule(100);
    assert_eq!(s.sleep_micros, 0);
    assert_eq!(s.work_micros, 10_000);
}

#[test]
fn only_full_load_never_sleeps() {
    for p in 1..100u8 {
        assert!(schedule(p).sleep_micros > 0, "at {} percent", p);
    }
}

#[test]
fn one_percent_works_least_but_not_zero() {
    let least = schedule(1);
    assert_eq!(least.work_micros, 100);
    assert_eq!(least.sleep_micros, 9_900);
    for p in 1..=100u8 {
        assert!(least.work_micros <= schedule(p).work_micros, "at {} percent", p);
    }
}

#[test]
fn zero_percent_has_no_schedule() {
    assert_eq!(DutyCycleSchedule::for_percentage(0), None);
}

#[test]
fn more_than_full_load_has_no_schedule() {
    assert_eq!(DutyCycleSchedule::for_percentage(101), None);
    assert_eq!(DutyCycleSchedule::for_percentage(150), None);
    assert_eq!(DutyCycleSchedule::for_percentage(255), None);
}
