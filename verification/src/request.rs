//! Load requests and the checks they pass before any worker starts.

use crate::schedule::{valid_percentage, work_interval, sleep_interval, DutyCycleSchedule, MAX_PERCENTAGE, MIN_PERCENTAGE, SCALE_MICROS};
use vstd::prelude::*;

verus! {

/// The exit code of a run that started its workers.
pub const EXIT_COMPLETED: i32 = 0;

/// The exit code of a run that was refused before any worker started.
pub const EXIT_REFUSED: i32 = 1;

/// Why a run is refused before any worker starts.
#[derive(Clone, Copy, Debug, PartialEq, Eq, Structural)]
pub enum ValidationError {
    /// The percentage lies outside `MIN_PERCENTAGE..=MAX_PERCENTAGE`.
    PercentageOutOfRange { given: u8 },
    /// A requested core index is larger than the number of available
    /// hardware threads.
    CoreOutOfRange { index: usize, available: usize },
}

impl ValidationError {
    /// The exit code of a run refused for this reason.
    pub fn exit_code(&self) -> (code: i32)
        ensures
            code == EXIT_REFUSED,
    {
        EXIT_REFUSED
    }
}

/// Whether the range check lets `index` pass when `available_count`
/// hardware threads are available.
///
/// The bound is the count itself, not the count less one: an index equal to
/// the count passes here. Whether a hardware thread carries that number is
/// found out later, when the index is resolved.
pub open spec fn index_in_range(index: int, available_count: int) -> bool {
    index <= available_count
}

/// Whether position `k` of `indices` holds the first index that the range
/// check refuses.
pub open spec fn first_refused_at(indices: Seq<usize>, available_count: int, k: int) -> bool {
    &&& 0 <= k < indices.len()
    &&& !index_in_range(indices[k] as int, available_count)
    &&& forall|j: int| 0 <= j < k ==> index_in_range(#[trigger] indices[j] as int, available_count)
}

/// Accepts a percentage from `MIN_PERCENTAGE` to `MAX_PERCENTAGE`.
///
/// Zero is refused: a worker at zero percent would never work.
pub fn validate_percentage(percentage: u8) -> (outcome: Result<(), ValidationError>)
    ensures
        outcome is Ok <==> valid_percentage(percentage as int),
        outcome is Err ==> outcome == Err::<(), ValidationError>(
            ValidationError::PercentageOutOfRange { given: percentage },
        ),
{
    if percentage < MIN_PERCENTAGE || percentage > MAX_PERCENTAGE {
        Err(ValidationError::PercentageOutOfRange { given: percentage })
    } else {
        Ok(())
    }
}

/// Accepts `indices` where each passes the range check, and otherwise names
/// the first that does not.
pub fn validate_request_indices(indices: &Vec<usize>, available_count: usize) -> (outcome: Result<
    (),
    ValidationError,
>)
    ensures
        outcome is Ok <==> forall|i: int|
            0 <= i < indices.len() ==> index_in_range(#[trigger] indices[i] as int, available_count as int),
        outcome matches Err(e) ==> exists|k: int|
            first_refused_at(indices@, available_count as int, k) && e == (ValidationError::CoreOutOfRange {
                index: indices[k],
                available: available_count,
            }),
{
    let mut i: usize = 0;
    while i < indices.len()
        invariant
            i <= indices.len(),
            forall|j: int| 0 <= j < i ==> index_in_range(#[trigger] indices[j] as int, available_count as int),
        decreases indices.len() - i,
    {
        if indices[i] > available_count {
            assert(first_refused_at(indices@, available_count as int, i as int));
            return Err(ValidationError::CoreOutOfRange { index: indices[i], available: available_count });
        }
        i += 1;
    }
    Ok(())
}

/// What a load request holds.
pub struct LoadRequestView {
    /// The index of the core to load.
    pub core_index: nat,
    /// How long to load it, in seconds.
    pub duration: nat,
    /// The share of each period to spend working, in percent.
    pub percentage: nat,
}

/// The load asked of one core. Its percentage is always a valid one.
#[derive(Clone, Copy, Debug, PartialEq, Eq)]
pub struct LoadRequest {
    core_index: usize,
    duration: u64,
    percentage: u8,
}

impl View for LoadRequest {
    type V = LoadRequestView;

    closed spec fn view(&self) -> LoadRequestView {
        LoadRequestView {
            core_index: self.core_index as nat,
            duration: self.duration as nat,
            percentage: self.percentage as nat,
        }
    }
}

impl LoadRequest {
    #[verifier::type_invariant]
    spec fn percentage_is_valid(self) -> bool {
        valid_percentage(self.percentage as int)
    }

    /// The request to load the core at `core_index` for `duration` seconds at `percentage`
    /// percent, where the percentage is valid.
    pub fn new(core_index: usize, duration: u64, percentage: u8) -> (request: Result<LoadRequest, ValidationError>)
        ensures
            request is Ok <==> valid_percentage(percentage as int),
            request matches Ok(q) ==> q@ == (LoadRequestView {
                core_index: core_index as nat,
                duration: duration as nat,
                percentage: percentage as nat,
            }),
            request matches Err(e) ==> e == (ValidationError::PercentageOutOfRange { given: percentage }),
    {
        match validate_percentage(percentage) {
            Ok(()) => Ok(LoadRequest { core_index, duration, percentage }),
            Err(e) => Err(e),
        }
    }

    /// The work and sleep intervals of one period of this request.
    pub fn schedule(&self) -> (schedule: DutyCycleSchedule)
        ensures
            schedule.work_micros == work_interval(self@.percentage as int),
            schedule.sleep_micros == sleep_interval(self@.percentage as int),
    {
        proof {
            use_type_invariant(self);
        }
        DutyCycleSchedule {
            work_micros: self.percentage as u64 * SCALE_MICROS,
            sleep_micros: (MAX_PERCENTAGE - self.percentage) as u64 * SCALE_MICROS,
        }
    }

    /// The index of the core to load.
    pub fn core_index(&self) -> (index: usize)
        ensures
            index == self@.core_index,
    {
        self.core_index
    }

    /// How long to load the core, in seconds.
    pub fn duration(&self) -> (duration: u64)
        ensures
            duration == self@.duration,
    {
        self.duration
    }

    /// The share of each period to spend working, in percent.
    pub fn percentage(&self) -> (percentage: u8)
        ensures
            percentage == self@.percentage,
            valid_percentage(percentage as int),
    {
        proof {
            use_type_invariant(self);
        }
        self.percentage
    }
}

/// One request for each of `cores`, in their order, all with the same
/// duration and percentage.
///
/// The percentage is checked first, then each index against
/// `available_count`. Nothing is returned unless all of it passes.
pub fn plan_requests(cores: &Vec<usize>, duration: u64, percentage: u8, available_count: usize) -> (plan: Result<
    Vec<LoadRequest>,
    ValidationError,
>)
    ensures
        plan is Ok <==> valid_percentage(percentage as int) && forall|i: int|
            0 <= i < cores.len() ==> index_in_range(#[trigger] cores[i] as int, available_count as int),
        plan matches Ok(requests) ==> requests.len() == cores.len() && forall|i: int|
            0 <= i < requests.len() ==> (#[trigger] requests[i])@ == (LoadRequestView {
                core_index: cores[i] as nat,
                duration: duration as nat,
                percentage: percentage as nat,
            }),
        plan matches Err(e) ==> if valid_percentage(percentage as int) {
            exists|k: int|
                first_refused_at(cores@, available_count as int, k) && e == (ValidationError::CoreOutOfRange {
                    index: cores[k],
                    available: available_count,
                })
        } else {
            e == (ValidationError::PercentageOutOfRange { given: percentage })
        },
{
    match validate_percentage(percentage) {
        Err(e) => {
            return Err(e);
        },
        Ok(()) => {},
    }
    match validate_request_indices(cores, available_count) {
        Err(e) => {
            return Err(e);
        },
        Ok(()) => {},
    }
    let mut requests: Vec<LoadRequest> = Vec::new();
    let mut i: usize = 0;
    while i < cores.len()
        invariant
            i <= cores.len(),
            valid_percentage(percentage as int),
            requests.len() == i,
            forall|j: int|
                0 <= j < i ==> (#[trigger] requests[j])@ == (LoadRequestView {
                    core_index: cores[j] as nat,
                    duration: duration as nat,
                    percentage: percentage as nat,
                }),
        decreases cores.len() - i,
    {
        requests.push(LoadRequest { core_index: cores[i], duration, percentage });
        i += 1;
    }
    Ok(requests)
}

} // verus!
