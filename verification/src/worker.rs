//! The worker: one thread of execution that loads one hardware thread.
//!
//! A worker is a phase machine. Its driver reads a clock, hands each reading
//! to `Worker::step`, and does what the returned `Action` asks before it
//! steps again. Readings are microseconds since a moment of the driver's
//! choosing.

use crate::affinity::{resolve, set_affinity, HardwareThreadId};
use crate::request::{LoadRequest, LoadRequestView};
use crate::schedule::{period, sleep_interval, valid_percentage, work_interval};
use vstd::prelude::*;

verus! {

/// Microseconds in one second.
pub const MICROS_PER_SECOND: u64 = 1_000_000;

/// Where a worker stands.
#[derive(Clone, Copy, Debug, PartialEq, Eq, Structural)]
pub enum Phase {
    /// Nothing has been done yet.
    Idle,
    /// Pinning was tried, with whatever outcome. No deadline is set yet.
    Bound,
    /// Busy until the work interval is over.
    Work,
    /// The sleep of this period was handed to the driver.
    Sleep,
    /// The deadline has passed. Nothing follows.
    Done,
}

/// What the driver does before it steps the worker again.
#[derive(Clone, Copy, Debug, PartialEq, Eq, Structural)]
pub enum Action {
    /// Call `Worker::bind` on the thread that is to carry the load.
    Bind,
    /// Keep the processor busy for a moment, without blocking.
    Spin,
    /// Block for this many microseconds.
    Sleep(u64),
    /// Stop stepping: the worker is done.
    Stop,
}

/// What a worker holds.
pub struct WorkerView {
    /// Where the worker stands.
    pub phase: Phase,
    /// The number of the hardware thread it loads.
    pub thread: nat,
    /// How long it loads it, in seconds.
    pub duration: nat,
    /// The share of each period spent working, in percent.
    pub percentage: nat,
    /// The clock reading from which on no new period starts; 0 until set.
    pub deadline: int,
    /// The clock reading at which the work interval is over; 0 until set.
    pub work_end: int,
}

/// The worker before its first step: idle, with no deadline.
pub open spec fn idle_worker(request: LoadRequestView) -> WorkerView {
    WorkerView {
        phase: Phase::Idle,
        thread: request.core_index,
        duration: request.duration,
        percentage: request.percentage,
        deadline: 0,
        work_end: 0,
    }
}

/// The worker after pinning was tried: an idle one is bound, any other is
/// as it was.
pub open spec fn after_bind(w: WorkerView) -> WorkerView {
    if w.phase == Phase::Idle {
        WorkerView { phase: Phase::Bound, ..w }
    } else {
        w
    }
}

/// The check between two periods, at clock reading `now`: before the
/// deadline a work interval starts at `now`, from the deadline on the
/// worker is done.
pub open spec fn begin_period(w: WorkerView, now: int) -> (WorkerView, Action) {
    if now < w.deadline {
        (
            WorkerView { phase: Phase::Work, work_end: now + work_interval(w.percentage as int), ..w },
            Action::Spin,
        )
    } else {
        (WorkerView { phase: Phase::Done, ..w }, Action::Stop)
    }
}

/// The worker after one step at clock reading `now`, and what the driver
/// is to do next.
///
/// - Idle: nothing changes; the driver is asked to bind.
/// - Bound: the deadline becomes `now` plus the duration, and the first
///   period begins at once.
/// - Work: the driver spins until `now` reaches the end of the work
///   interval, and is then handed the sleep interval.
/// - Sleep: the sleep is over, and the next period begins.
/// - Done: nothing changes.
pub open spec fn next(w: WorkerView, now: int) -> (WorkerView, Action) {
    match w.phase {
        Phase::Idle => (w, Action::Bind),
        Phase::Bound => begin_period(WorkerView { deadline: now + w.duration * MICROS_PER_SECOND, ..w }, now),
        Phase::Work => if now < w.work_end {
            (w, Action::Spin)
        } else {
            (WorkerView { phase: Phase::Sleep, ..w }, Action::Sleep(sleep_interval(w.percentage as int) as u64))
        },
        Phase::Sleep => begin_period(w, now),
        Phase::Done => (w, Action::Stop),
    }
}

/// The place of a phase in the order in which a worker passes through them.
/// Work and sleep take turns and share a place.
pub open spec fn phase_rank(phase: Phase) -> int {
    match phase {
        Phase::Idle => 0,
        Phase::Bound => 1,
        Phase::Work => 2,
        Phase::Sleep => 2,
        Phase::Done => 3,
    }
}

/// Whether a work interval that is under way started before the deadline:
/// the period it belongs to then ends less than one period after the
/// deadline.
pub open spec fn overshoot_is_bounded(w: WorkerView) -> bool {
    w.phase == Phase::Work ==> w.work_end + sleep_interval(w.percentage as int) < w.deadline + period()
}

/// A worker that is done stays done: no step and no bind changes it, and
/// the driver is told to stop.
pub proof fn lemma_done_is_terminal(w: WorkerView, now: int)
    requires
        w.phase == Phase::Done,
    ensures
        next(w, now) == (w, Action::Stop),
        after_bind(w) == w,
{
}

/// No step and no bind takes a worker back to an earlier phase.
pub proof fn lemma_phases_never_go_back(w: WorkerView, now: int)
    ensures
        phase_rank(next(w, now).0.phase) >= phase_rank(w.phase),
        phase_rank(after_bind(w).phase) >= phase_rank(w.phase),
{
}

/// The action handed to the driver tells the phase the worker is in after
/// the step.
pub proof fn lemma_action_tells_phase(w: WorkerView, now: int)
    ensures
        next(w, now).1 == Action::Bind <==> next(w, now).0.phase == Phase::Idle,
        next(w, now).1 == Action::Spin <==> next(w, now).0.phase == Phase::Work,
        next(w, now).1 is Sleep <==> next(w, now).0.phase == Phase::Sleep,
        next(w, now).1 == Action::Stop <==> next(w, now).0.phase == Phase::Done,
{
}

/// The deadline is looked at between periods only: a step never ends a work
/// interval before its time, and takes a working worker to sleep, never to
/// done.
pub proof fn lemma_work_interval_runs_out(w: WorkerView, now: int)
    requires
        w.phase == Phase::Work,
    ensures
        now < w.work_end ==> next(w, now) == (w, Action::Spin),
        now >= w.work_end ==> next(w, now).0.phase == Phase::Sleep,
{
}

/// A step changes neither the hardware thread nor the load asked for, and
/// sets the deadline once, on the step out of the bound phase.
pub proof fn lemma_step_keeps_the_request(w: WorkerView, now: int)
    ensures
        next(w, now).0.thread == w.thread,
        next(w, now).0.duration == w.duration,
        next(w, now).0.percentage == w.percentage,
        w.phase != Phase::Bound ==> next(w, now).0.deadline == w.deadline,
        w.phase == Phase::Bound ==> next(w, now).0.deadline == now + w.duration * MICROS_PER_SECOND,
{
}

/// A worker overshoots its deadline by less than one period: an idle worker
/// meets the bound, and every step and every bind keeps it.
pub proof fn lemma_overshoot_stays_bounded(request: LoadRequestView, w: WorkerView, now: int)
    ensures
        overshoot_is_bounded(idle_worker(request)),
        overshoot_is_bounded(w) ==> overshoot_is_bounded(next(w, now).0),
        overshoot_is_bounded(w) ==> overshoot_is_bounded(after_bind(w)),
{
}

/// A work interval that starts lasts for some time, so that the driver is
/// right to spin at once: with a valid percentage its end lies after the
/// reading it started at.
pub proof fn lemma_started_work_lies_ahead(w: WorkerView, now: int)
    requires
        valid_percentage(w.percentage as int),
        w.phase == Phase::Bound || w.phase == Phase::Sleep,
        next(w, now).0.phase == Phase::Work,
    ensures
        next(w, now).0.work_end == now + work_interval(w.percentage as int),
        now < next(w, now).0.work_end,
{
}

/// Once the clock has passed the deadline and the end of the work interval
/// that is under way, two steps at most take a worker to done.
pub proof fn lemma_stops_once_the_clock_has_passed(w: WorkerView, first: int, second: int)
    requires
        w.phase == Phase::Work || w.phase == Phase::Sleep,
        w.work_end <= first,
        w.deadline <= first <= second,
    ensures
        next(next(w, first).0, second).0.phase == Phase::Done,
{
}

/// One worker: the hardware thread it loads, the load asked of it, and how
/// far it has come.
pub struct Worker {
    thread: HardwareThreadId,
    request: LoadRequest,
    phase: Phase,
    deadline: u128,
    work_end: u128,
}

impl View for Worker {
    type V = WorkerView;

    closed spec fn view(&self) -> WorkerView {
        WorkerView {
            phase: self.phase,
            thread: self.thread.index(),
            duration: self.request@.duration,
            percentage: self.request@.percentage,
            deadline: self.deadline as int,
            work_end: self.work_end as int,
        }
    }
}

impl Worker {
    #[verifier::type_invariant]
    spec fn loads_the_requested_thread(self) -> bool {
        self.thread.index() == self.request@.core_index
    }

    /// The idle worker for `request`, on the first of `available` whose
    /// number is the requested core index; `None` where none has it.
    pub fn prepare(request: LoadRequest, available: &Vec<HardwareThreadId>) -> (worker: Option<Worker>)
        ensures
            worker is None <==> forall|i: int|
                0 <= i < available.len() ==> (#[trigger] available[i]).index() != request@.core_index,
            worker matches Some(w) ==> w@ == idle_worker(request@),
    {
        match resolve(request.core_index(), available) {
            None => None,
            Some(thread) => Some(Worker { thread, request, phase: Phase::Idle, deadline: 0, work_end: 0 }),
        }
    }

    /// Tries to pin the calling thread to the worker's hardware thread and
    /// goes from idle to bound, whether or not the operating system took
    /// the pin. A worker that is not idle is left as it is, and nothing is
    /// pinned.
    pub fn bind(&mut self)
        ensures
            final(self)@ == after_bind(old(self)@),
    {
        proof {
            use_type_invariant(&*self);
        }
        match self.phase {
            Phase::Idle => {
                let _ = set_affinity(self.thread.id());
                self.phase = Phase::Bound;
            },
            _ => {},
        }
    }

    /// The check between two periods: starts a work interval at `now`, or
    /// finishes from the deadline on.
    fn enter_period(&mut self, now: u64) -> (action: Action)
        ensures
            final(self)@ == begin_period(old(self)@, now as int).0,
            action == begin_period(old(self)@, now as int).1,
    {
        proof {
            use_type_invariant(&*self);
        }
        if (now as u128) < self.deadline {
            self.work_end = now as u128 + self.request.schedule().work_micros as u128;
            self.phase = Phase::Work;
            Action::Spin
        } else {
            self.phase = Phase::Done;
            Action::Stop
        }
    }

    /// Takes one step at clock reading `now`, in microseconds, and returns
    /// what the driver is to do before the next step.
    pub fn step(&mut self, now: u64) -> (action: Action)
        ensures
            final(self)@ == next(old(self)@, now as int).0,
            action == next(old(self)@, now as int).1,
    {
        proof {
            use_type_invariant(&*self);
        }
        match self.phase {
            Phase::Idle => Action::Bind,
            Phase::Bound => {
                self.deadline = now as u128 + self.request.duration() as u128 * MICROS_PER_SECOND as u128;
                self.enter_period(now)
            },
            Phase::Work => {
                if (now as u128) < self.work_end {
                    Action::Spin
                } else {
                    self.phase = Phase::Sleep;
                    Action::Sleep(self.request.schedule().sleep_micros)
                }
            },
            Phase::Sleep => self.enter_period(now),
            Phase::Done => Action::Stop,
        }
    }

    /// Where the worker stands.
    pub fn phase(&self) -> (phase: Phase)
        ensures
            phase == self@.phase,
    {
        self.phase
    }

    /// The hardware thread that the worker loads.
    pub fn thread(&self) -> (thread: HardwareThreadId)
        ensures
            thread.index() == self@.thread,
    {
        self.thread
    }

    /// The load asked of the worker.
    pub fn request(&self) -> (request: LoadRequest)
        ensures
            request@ == (LoadRequestView {
                core_index: self@.thread,
                duration: self@.duration,
                percentage: self@.percentage,
            }),
    {
        proof {
            use_type_invariant(self);
        }
        self.request
    }
}

} // verus!
