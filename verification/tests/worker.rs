use cpu_peg::affinity::{list_available_threads, threads_from_numbers, HardwareThreadId};
use cpu_peg::request::{plan_requests, LoadRequest};
use cpu_peg::worker::{Action, Phase, Worker, MICROS_PER_SECOND};

fn threads(numbers: &[usize]) -> Vec<HardwareThreadId> {
    threads_from_numbers(&numbers.to_vec()).expect("numbers that fit the mask")
}

fn worker(core_index: usize, duration: u64, percentage: u8) -> Worker {
    let request = LoadRequest::new(core_index, duration, percentage).unwrap();
    Worker::prepare(request, &threads(&[0, 1, 2, 3])).expect("a thread with that number")
}

/// How a simulated run went: the moments the driver was asked to sleep, and
/// the clock at the end.
struct Run {
    spun: u64,
    slept: u64,
    sleeps: u64,
    finished_at: u64,
}

/// Drives `worker` from clock reading `start` on a clock that advances by
/// `tick` for each spin and by the length of each sleep.
fn run(worker: &mut Worker, start: u64, tick: u64) -> Run {
    let mut now = start;
    let mut run = Run { spun: 0, slept: 0, sleeps: 0, finished_at: 0 };
    loop {
        match worker.step(now) {
            Action::Bind => worker.bind(),
            Action::Spin => {
                now += tick;
                run.spun += tick;
            }
            Action::Sleep(micros) => {
                now += micros;
                run.slept += micros;
                run.sleeps += 1;
            }
            Action::Stop => break,
        }
    }
    run.finished_at = now;
    run
}

#[test]
fn fresh_worker_is_idle_on_the_requested_thread() {
    let w = worker(2, 60, 50);
    assert_eq!(w.phase(), Phase::Idle);
    assert_eq!(w.thread().id(), 2);
    assert_eq!(w.request(), LoadRequest::new(2, 60, 50).unwrap());
}

#[test]
fn worker_is_not_made_for_a_number_no_thread_has() {
    let request = LoadRequest::new(4, 60, 50).unwrap();
    assert!(Worker::prepare(request, &threads(&[0, 1, 2, 3])).is_none());
    assert!(Worker::prepare(request, &Vec::new()).is_none());
}

#[test]
fn idle_worker_asks_to_be_bound_and_stays_idle() {
    let mut w = worker(0, 1, 50);
    assert_eq!(w.step(0), Action::Bind);
    assert_eq!(w.phase(), Phase::Idle);
    assert_eq!(w.step(123_456), Action::Bind);
    assert_eq!(w.phase(), Phase::Idle);
}

#[test]
fn bind_takes_an_idle_worker_to_bound() {
    let mut w = worker(0, 1, 50);
    w.bind();
    assert_eq!(w.phase(), Phase::Bound);
}

#[test]
fn bind_leaves_a_worker_that_is_not_idle() {
    let mut w = worker(0, 1, 50);
    w.bind();
    w.bind();
    assert_eq!(w.phase(), Phase::Bound);
    assert_eq!(w.step(0), Action::Spin);
    w.bind();
    assert_eq!(w.phase(), Phase::Work);
    assert_eq!(w.step(5_000), Action::Sleep(5_000));
    w.bind();
    assert_eq!(w.phase(), Phase::Sleep);
    assert_eq!(w.step(1_000_000), Action::Stop);
    w.bind();
    assert_eq!(w.phase(), Phase::Done);
}

#[test]
fn bind_on_a_thread_of_this_machine_goes_to_bound() {
    let available = list_available_threads().expect("the machine names its threads");
    let first = available[0].id();
    let request = LoadRequest::new(first, 0, 100).unwrap();
    let mut w = Worker::prepare(request, &available).expect("the first listed thread");
    assert_eq!(w.step(0), Action::Bind);
    w.bind();
    assert_eq!(w.phase(), Phase::Bound);
    assert_eq!(w.thread().id(), first);
    assert_eq!(w.step(0), Action::Stop);
}

#[test]
fn first_step_after_bind_sets_the_deadline_and_starts_work() {
    let mut w = worker(0, 1, 50);
    w.bind();
    assert_eq!(w.step(10), Action::Spin);
    assert_eq!(w.phase(), Phase::Work);
    // the work interval of 5000 microseconds started at 10
    assert_eq!(w.step(5_009), Action::Spin);
    assert_eq!(w.step(5_010), Action::Sleep(5_000));
    // the deadline is 10 plus one second
    assert_eq!(w.step(1_000_009), Action::Spin);
    assert_eq!(w.step(1_005_009), Action::Sleep(5_000));
    assert_eq!(w.step(1_000_010), Action::Stop);
    assert_eq!(MICROS_PER_SECOND, 1_000_000);
}

#[test]
fn work_goes_on_until_the_interval_is_over() {
    let mut w = worker(1, 10, 30);
    w.bind();
    assert_eq!(w.step(1_000), Action::Spin);
    for now in [1_000, 1_001, 2_500, 3_999] {
        assert_eq!(w.step(now), Action::Spin);
        assert_eq!(w.phase(), Phase::Work);
    }
    assert_eq!(w.step(4_000), Action::Sleep(7_000));
    assert_eq!(w.phase(), Phase::Sleep);
}

#[test]
fn work_is_not_cut_short_by_the_deadline() {
    let mut w = worker(0, 1, 100);
    w.bind();
    assert_eq!(w.step(0), Action::Spin);
    assert_eq!(w.step(10_000), Action::Sleep(0));
    // a period that begins just before the deadline runs its whole work
    // interval and is then followed by its sleep
    assert_eq!(w.step(999_999), Action::Spin);
    assert_eq!(w.step(1_000_000), Action::Spin);
    assert_eq!(w.step(1_009_998), Action::Spin);
    assert_eq!(w.step(1_009_999), Action::Sleep(0));
    assert_eq!(w.step(1_009_999), Action::Stop);
    assert_eq!(w.phase(), Phase::Done);
}

#[test]
fn sleep_is_followed_by_work_before_the_deadline_and_by_done_from_it_on() {
    let mut before = worker(0, 1, 50);
    before.bind();
    assert_eq!(before.step(0), Action::Spin);
    assert_eq!(before.step(5_000), Action::Sleep(5_000));
    assert_eq!(before.step(999_999), Action::Spin);
    assert_eq!(before.phase(), Phase::Work);

    let mut at = worker(0, 1, 50);
    at.bind();
    assert_eq!(at.step(0), Action::Spin);
    assert_eq!(at.step(5_000), Action::Sleep(5_000));
    assert_eq!(at.step(1_000_000), Action::Stop);
    assert_eq!(at.phase(), Phase::Done);
}

#[test]
fn done_worker_stays_done() {
    let mut w = worker(0, 0, 50);
    w.bind();
    assert_eq!(w.step(7), Action::Stop);
    assert_eq!(w.phase(), Phase::Done);
    for now in [0, 7, 8, u64::MAX] {
        assert_eq!(w.step(now), Action::Stop);
        assert_eq!(w.phase(), Phase::Done);
    }
}

#[test]
fn duration_zero_is_done_at_the_first_step() {
    let mut w = worker(3, 0, 100);
    let went = run(&mut w, 500, 10);
    assert_eq!(went.spun, 0);
    assert_eq!(went.sleeps, 0);
    assert_eq!(went.finished_at, 500);
}

#[test]
fn full_load_is_handed_sleeps_of_no_length() {
    let mut w = worker(0, 1, 100);
    let went = run(&mut w, 0, 10);
    assert_eq!(went.slept, 0);
    assert_eq!(went.sleeps, 100);
    assert_eq!(went.spun, 1_000_000);
    assert_eq!(went.finished_at, 1_000_000);
}

#[test]
fn half_load_for_one_second_works_half_of_it() {
    let mut w = worker(0, 1, 50);
    assert_eq!(w.phase(), Phase::Idle);
    let went = run(&mut w, 0, 10);
    assert_eq!(w.phase(), Phase::Done);
    assert_eq!(went.sleeps, 100);
    assert_eq!(went.spun, 500_000);
    assert_eq!(went.slept, 500_000);
    assert_eq!(went.finished_at, 1_000_000);
}

#[test]
fn one_percent_load_still_works_in_each_period() {
    let mut w = worker(0, 1, 1);
    let went = run(&mut w, 0, 10);
    assert_eq!(went.sleeps, 100);
    assert_eq!(went.spun, 100 * 100);
    assert_eq!(went.slept, 100 * 9_900);
}

#[test]
fn overshoot_is_less_than_one_period() {
    for percentage in [1u8, 33, 50, 99, 100] {
        for tick in [1u64, 7, 130, 2_500] {
            let mut w = worker(0, 1, percentage);
            let start = 12_345;
            let went = run(&mut w, start, tick);
            let deadline = start + 1_000_000;
            assert!(went.finished_at >= deadline);
            assert!(
                went.finished_at < deadline + 10_000 + tick,
                "at {} percent, tick {}",
                percentage,
                tick
            );
        }
    }
}

#[test]
fn longest_duration_at_the_latest_reading_does_not_overflow() {
    let mut w = worker(0, u64::MAX, 100);
    w.bind();
    assert_eq!(w.step(u64::MAX), Action::Spin);
    assert_eq!(w.step(u64::MAX), Action::Spin);
    assert_eq!(w.phase(), Phase::Work);
}

#[test]
fn two_workers_on_one_clock_finish_together() {
    let available = threads(&[0, 1]);
    let plan = plan_requests(&vec![0, 1], 2, 50, available.len()).unwrap();
    let mut workers: Vec<Worker> = plan
        .iter()
        .map(|request| Worker::prepare(*request, &available).expect("a thread with that number"))
        .collect();
    assert_eq!(workers.len(), 2);
    assert_eq!(workers[0].thread().id(), 0);
    assert_eq!(workers[1].thread().id(), 1);
    // each worker has its own wake-up time on the shared clock
    let mut wake = vec![0u64; 2];
    let mut finished = vec![None; 2];
    let mut now = 0u64;
    while finished.iter().any(|f| f.is_none()) {
        for i in 0..2 {
            if finished[i].is_some() || wake[i] > now {
                continue;
            }
            match workers[i].step(now) {
                Action::Bind => workers[i].bind(),
                Action::Spin => {}
                Action::Sleep(micros) => wake[i] = now + micros,
                Action::Stop => finished[i] = Some(now),
            }
        }
        now += 10;
    }
    for f in finished {
        let at = f.unwrap();
        assert!(at >= 2_000_000);
        assert!(at < 2_000_000 + 10_000 + 20, "finished at {}", at);
    }
}
