//! Hardware threads: which ones the process may run on, and the one that a
//! requested index names.

use crate::request::index_in_range;
use vstd::prelude::*;

verus! {

/// How many hardware threads the affinity mask of the operating system can
/// name: the `CPU_SETSIZE` of Linux with glibc. Identifiers are positions in
/// that mask, so each lies below it.
pub const AFFINITY_MASK_BITS: usize = 1024;

/// One hardware thread that a thread of execution can be pinned to.
///
/// A value holds the number under which the operating system knows the
/// hardware thread. It always fits the affinity mask.
#[derive(Clone, Copy, Debug, PartialEq, Eq)]
pub struct HardwareThreadId {
    id: usize,
}

impl HardwareThreadId {
    #[verifier::type_invariant]
    spec fn fits_mask(self) -> bool {
        self.id < AFFINITY_MASK_BITS
    }

    /// The number under which the operating system knows this thread.
    pub closed spec fn index(self) -> nat {
        self.id as nat
    }

    /// The identifier with number `id`, where the affinity mask has room
    /// for it.
    pub fn new(id: usize) -> (thread: Option<HardwareThreadId>)
        ensures
            thread is Some <==> id < AFFINITY_MASK_BITS,
            thread matches Some(t) ==> t.index() == id,
    {
        if id < AFFINITY_MASK_BITS {
            Some(HardwareThreadId { id })
        } else {
            None
        }
    }

    /// The number under which the operating system knows this thread.
    pub fn id(&self) -> (id: usize)
        ensures
            id == self.index(),
            id < AFFINITY_MASK_BITS,
    {
        proof {
            use_type_invariant(self);
        }
        self.id
    }
}

/// Whether the numbers of `threads` rise strictly from each to the next, so
/// that no number occurs twice.
pub open spec fn strictly_ascending(threads: Seq<HardwareThreadId>) -> bool {
    forall|i: int, j: int|
        0 <= i < j < threads.len() ==> (#[trigger] threads[i]).index() < (#[trigger] threads[j]).index()
}

/// Whether `numbers` rise strictly and stay below `AFFINITY_MASK_BITS`.
pub open spec fn ascending_in_mask(numbers: Seq<usize>) -> bool {
    &&& forall|i: int| 0 <= i < numbers.len() ==> #[trigger] numbers[i] < AFFINITY_MASK_BITS
    &&& forall|i: int, j: int| 0 <= i < j < numbers.len() ==> #[trigger] numbers[i] < #[trigger] numbers[j]
}

/// Calls `core_affinity::get_core_ids` and hands out the `id` of each
/// `CoreId` it returned, in the order it returned them.
///
/// Believed, not proved: on Linux the function walks the positions of the
/// affinity mask from 0 up to `CPU_SETSIZE` and lists those that are set.
/// So the numbers rise strictly and stay below the size of the mask.
/// Whether anything is returned, and which positions, is up to the machine:
/// nothing is claimed of that.
#[verifier::external_body]
fn query_core_ids() -> (numbers: Option<Vec<usize>>)
    ensures
        numbers matches Some(v) ==> ascending_in_mask(v@),
{
    core_affinity::get_core_ids().map(|cores| cores.into_iter().map(|core| core.id).collect())
}

/// Calls `core_affinity::set_for_current` with the `CoreId` whose `id` is
/// `number`, and returns what it returned: whether the operating system
/// took the new affinity of the calling thread.
///
/// Believed, not proved: the call returns for every `number` below the size
/// of the affinity mask. Beyond it the function would write outside the
/// mask and panic, which `requires` rules out. Nothing is claimed of the
/// answer, which is up to the machine.
#[verifier::external_body]
pub(crate) fn set_affinity(number: usize) -> (pinned: bool)
    requires
        number < AFFINITY_MASK_BITS,
{
    core_affinity::set_for_current(core_affinity::CoreId { id: number })
}

/// One identifier for each of `numbers`, in the same order, or `None` where
/// one of them does not fit the affinity mask.
pub fn threads_from_numbers(numbers: &Vec<usize>) -> (threads: Option<Vec<HardwareThreadId>>)
    ensures
        threads is Some <==> forall|i: int| 0 <= i < numbers.len() ==> #[trigger] numbers[i] < AFFINITY_MASK_BITS,
        threads matches Some(v) ==> v.len() == numbers.len() && forall|i: int|
            0 <= i < v.len() ==> (#[trigger] v[i]).index() == numbers[i],
{
    let mut threads: Vec<HardwareThreadId> = Vec::new();
    let mut i: usize = 0;
    while i < numbers.len()
        invariant
            i <= numbers.len(),
            threads.len() == i,
            forall|k: int| 0 <= k < i ==> #[trigger] numbers[k] < AFFINITY_MASK_BITS,
            forall|k: int| 0 <= k < i ==> (#[trigger] threads[k]).index() == numbers[k],
        decreases numbers.len() - i,
    {
        if numbers[i] >= AFFINITY_MASK_BITS {
            return None;
        }
        threads.push(HardwareThreadId { id: numbers[i] });
        i += 1;
    }
    Some(threads)
}

/// The hardware threads that the process may run on, lowest number first, or
/// `None` where the operating system gives no answer.
pub fn list_available_threads() -> (threads: Option<Vec<HardwareThreadId>>)
    ensures
        threads matches Some(v) ==> strictly_ascending(v@),
{
    match query_core_ids() {
        None => None,
        Some(numbers) => threads_from_numbers(&numbers),
    }
}

/// The first of `available` whose number is `index`, or `None` where none
/// has that number.
pub fn resolve(index: usize, available: &Vec<HardwareThreadId>) -> (found: Option<HardwareThreadId>)
    ensures
        found is None <==> forall|i: int| 0 <= i < available.len() ==> (#[trigger] available[i]).index() != index,
        found matches Some(t) ==> t.index() == index && exists|k: int|
            0 <= k < available.len() && available[k] == t && forall|j: int|
                0 <= j < k ==> (#[trigger] available[j]).index() != index,
{
    let mut i: usize = 0;
    while i < available.len()
        invariant
            i <= available.len(),
            forall|j: int| 0 <= j < i ==> (#[trigger] available[j]).index() != index,
        decreases available.len() - i,
    {
        if available[i].id == index {
            return Some(available[i]);
        }
        i += 1;
    }
    None
}

/// Whether the threads are numbered 0, 1, 2 and so on, each at the position
/// of its number.
pub open spec fn numbered_from_zero(threads: Seq<HardwareThreadId>) -> bool {
    forall|i: int| 0 <= i < threads.len() ==> (#[trigger] threads[i]).index() == i
}

/// Among threads whose numbers rise strictly, a number names at most one.
pub proof fn lemma_ascending_numbers_are_distinct(threads: Seq<HardwareThreadId>, i: int, j: int)
    requires
        strictly_ascending(threads),
        0 <= i < threads.len(),
        0 <= j < threads.len(),
        threads[i].index() == threads[j].index(),
    ensures
        i == j,
{
    if i < j {
        assert(threads[i].index() < threads[j].index());
    } else if j < i {
        assert(threads[j].index() < threads[i].index());
    }
}

/// The index that equals the number of threads passes the range check, and
/// still names none of them where they are numbered from zero.
pub proof fn lemma_count_passes_range_check_unresolved(threads: Seq<HardwareThreadId>)
    requires
        numbered_from_zero(threads),
    ensures
        index_in_range(threads.len() as int, threads.len() as int),
        !index_in_range(threads.len() as int + 1, threads.len() as int),
        forall|i: int| 0 <= i < threads.len() ==> (#[trigger] threads[i]).index() != threads.len(),
{
}

/// The range check refuses no index that names a thread, where the threads
/// are numbered from zero.
pub proof fn lemma_range_check_refuses_no_thread(threads: Seq<HardwareThreadId>, i: int)
    requires
        numbered_from_zero(threads),
        0 <= i < threads.len(),
    ensures
        index_in_range(threads[i].index() as int, threads.len() as int),
{
}

} // verus!
