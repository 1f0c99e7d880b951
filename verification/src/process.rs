//! The whole process: every thread's acquisitions, in the order in which the
//! lock lets them happen.
//!
//! [`crate::addon`] decides one acquisition from the two flags that the
//! calling thread sees: [`AddonState::verdict`] is what it comes to, and
//! [`AddonState::settle`] what it leaves in the flags. Here the flags of all
//! threads are put together, and the rules of the process are proved of
//! every order of acquisitions: a thread gets one addon and no second, a
//! thread that comes later joins without a new native initialisation, and
//! the native layer is initialised once.

use vstd::prelude::*;
use crate::addon::{AddonState, InitError};

verus! {

/// The flags of a process: the one of the process, and the threads whose own
/// flag is set.
pub struct Process {
    pub initialized: bool,
    pub holders: Set<int>,
}

/// One acquisition: the thread that asks, and what the native initialisation
/// returns if this acquisition calls it.
pub struct Attempt {
    pub thread: int,
    pub native: u8,
}

impl Process {
    /// A process in which nothing has happened yet.
    pub open spec fn start() -> Process {
        Process { initialized: false, holders: Set::empty() }
    }

    /// Threads acquire only in an initialised process.
    pub open spec fn wf(self) -> bool {
        forall|thread: int| self.holders.contains(thread) ==> self.initialized
    }

    /// The two flags that `thread` sees.
    pub open spec fn seen_by(self, thread: int) -> AddonState {
        AddonState {
            initialized: self.initialized,
            spawned_on_this_thread: self.holders.contains(thread),
        }
    }

    /// Whether an acquisition in this process calls the native initialisation.
    pub open spec fn calls_native(self) -> bool {
        !self.initialized
    }

    /// What `attempt` comes to in this process.
    pub open spec fn verdict(self, attempt: Attempt) -> Result<(), InitError> {
        self.seen_by(attempt.thread).verdict(attempt.native)
    }

    /// The process after `attempt`: the thread's two flags are written back.
    pub open spec fn step(self, attempt: Attempt) -> Process {
        let flags = self.seen_by(attempt.thread).settle(self.verdict(attempt));
        Process {
            initialized: flags.initialized,
            holders: if flags.spawned_on_this_thread {
                self.holders.insert(attempt.thread)
            } else {
                self.holders.remove(attempt.thread)
            },
        }
    }

    /// The process after `attempts`, one after another.
    pub open spec fn run(self, attempts: Seq<Attempt>) -> Process
        decreases attempts.len(),
    {
        if attempts.len() == 0 {
            self
        } else {
            self.run(attempts.drop_last()).step(attempts.last())
        }
    }
}

/// The process just before the acquisition at position `k` of `attempts`,
/// counted from the start of the process.
pub open spec fn before(attempts: Seq<Attempt>, k: int) -> Process {
    Process::start().run(attempts.take(k))
}

/// What the acquisition at position `k` comes to.
pub open spec fn result_at(attempts: Seq<Attempt>, k: int) -> Result<(), InitError> {
    before(attempts, k).verdict(attempts[k])
}

/// Whether `thread` has acquired an addon before position `k`.
pub open spec fn acquired_before(attempts: Seq<Attempt>, thread: int, k: int) -> bool {
    exists|i: int| 0 <= i < k && attempts[i].thread == thread && #[trigger] result_at(attempts, i) is Ok
}

/// Whether the acquisition at position `k` initialises the native layer: it
/// calls the native initialisation, and that succeeds.
pub open spec fn brings_up_at(attempts: Seq<Attempt>, k: int) -> bool {
    before(attempts, k).calls_native() && attempts[k].native != 0
}

/// The acquisition at position `k` leads from the process before it to the
/// process before the next.
pub proof fn lemma_before_next(attempts: Seq<Attempt>, k: int)
    requires
        0 <= k < attempts.len(),
    ensures
        before(attempts, k + 1) == before(attempts, k).step(attempts[k]),
{
    let longer = attempts.take(k + 1);
    assert(longer.drop_last() =~= attempts.take(k));
    assert(longer.last() == attempts[k]);
}

/// An acquisition clears no flag: an initialised process stays initialised,
/// and a thread that holds an addon keeps it.
pub proof fn lemma_step_rises(process: Process, attempt: Attempt)
    requires
        process.wf(),
    ensures
        process.step(attempt).wf(),
        process.initialized ==> process.step(attempt).initialized,
        process.holders.subset_of(process.step(attempt).holders),
        process.verdict(attempt) is Ok ==> process.step(attempt).holders == process.holders.insert(
            attempt.thread,
        ),
        process.verdict(attempt) is Err ==> process.step(attempt) == process,
{
    if process.verdict(attempt) is Err {
        assert(process.step(attempt).holders =~= process.holders);
    }
}

/// Before every position the process is well formed, and the threads that
/// hold an addon are those that acquired one earlier.
pub proof fn lemma_holders(attempts: Seq<Attempt>, thread: int, k: int)
    requires
        0 <= k <= attempts.len(),
    ensures
        before(attempts, k).wf(),
        before(attempts, k).holders.contains(thread) <==> acquired_before(attempts, thread, k),
    decreases k,
{
    if k == 0 {
        assert(attempts.take(0) =~= Seq::<Attempt>::empty());
    } else {
        lemma_holders(attempts, thread, k - 1);
        lemma_before_next(attempts, k - 1);
        let earlier = before(attempts, k - 1);
        lemma_step_rises(earlier, attempts[k - 1]);
        if before(attempts, k).holders.contains(thread) {
            if earlier.holders.contains(thread) {
                let i = choose|i: int|
                    0 <= i < k - 1 && attempts[i].thread == thread && #[trigger] result_at(
                        attempts,
                        i,
                    ) is Ok;
                assert(result_at(attempts, i) is Ok);
            } else {
                assert(result_at(attempts, k - 1) is Ok);
            }
        }
        if acquired_before(attempts, thread, k) {
            let i = choose|i: int|
                0 <= i < k && attempts[i].thread == thread && #[trigger] result_at(attempts, i) is Ok;
            if i < k - 1 {
                assert(acquired_before(attempts, thread, k - 1));
            }
        }
    }
}

/// Once initialised, the process stays so.
pub proof fn lemma_initialized_stays(attempts: Seq<Attempt>, i: int, j: int)
    requires
        0 <= i <= j <= attempts.len(),
        before(attempts, i).initialized,
    ensures
        before(attempts, j).initialized,
    decreases j - i,
{
    if i < j {
        lemma_initialized_stays(attempts, i, j - 1);
        lemma_holders(attempts, 0, j - 1);
        lemma_before_next(attempts, j - 1);
        lemma_step_rises(before(attempts, j - 1), attempts[j - 1]);
    }
}

/// One addon for a thread, and no second. Until a thread has acquired an
/// addon, each of its acquisitions succeeds or fails because the native layer
/// refused; from then on, each fails because the thread holds one already.
pub proof fn law_one_addon_per_thread(attempts: Seq<Attempt>, k: int)
    requires
        0 <= k < attempts.len(),
    ensures
        acquired_before(attempts, attempts[k].thread, k) ==> result_at(attempts, k) == Err::<
            (),
            InitError,
        >(InitError::AlreadyAcquiredOnThread),
        !acquired_before(attempts, attempts[k].thread, k) ==> result_at(attempts, k) is Ok
            || result_at(attempts, k) == Err::<(), InitError>(InitError::InitializationFailed),
{
    lemma_holders(attempts, attempts[k].thread, k);
}

/// A thread that comes after another's success joins. Where some thread has
/// acquired an addon and another thread has not, that other thread's
/// acquisition succeeds whatever the native layer would return, the native
/// initialisation is not called again, and afterwards both threads hold an
/// addon.
pub proof fn law_later_thread_joins(attempts: Seq<Attempt>, first: int, k: int)
    requires
        0 <= k < attempts.len(),
        first != attempts[k].thread,
        acquired_before(attempts, first, k),
        !acquired_before(attempts, attempts[k].thread, k),
    ensures
        result_at(attempts, k) is Ok,
        !before(attempts, k).calls_native(),
        before(attempts, k + 1).holders.contains(first),
        before(attempts, k + 1).holders.contains(attempts[k].thread),
{
    lemma_holders(attempts, first, k);
    lemma_holders(attempts, attempts[k].thread, k);
    lemma_before_next(attempts, k);
    lemma_step_rises(before(attempts, k), attempts[k]);
}

/// The native layer is initialised once, however many threads acquire and
/// in whatever order. The flag of the process is set by the acquisition that
/// brings the native layer up and by no other, no acquisition clears it, and
/// no two acquisitions bring the native layer up.
pub proof fn law_initialised_once(attempts: Seq<Attempt>, i: int, j: int)
    requires
        0 <= i < attempts.len(),
        0 <= j < attempts.len(),
    ensures
        before(attempts, i).initialized ==> before(attempts, i + 1).initialized,
        !before(attempts, i).initialized && before(attempts, i + 1).initialized <==> brings_up_at(
            attempts,
            i,
        ),
        brings_up_at(attempts, i) && brings_up_at(attempts, j) ==> i == j,
{
    lemma_holders(attempts, attempts[i].thread, i);
    lemma_before_next(attempts, i);
    lemma_step_rises(before(attempts, i), attempts[i]);
    if brings_up_at(attempts, i) && brings_up_at(attempts, j) {
        if i < j {
            lemma_initialized_stays(attempts, i + 1, j);
        }
        if j < i {
            lemma_holders(attempts, attempts[j].thread, j);
            lemma_before_next(attempts, j);
            lemma_initialized_stays(attempts, j + 1, i);
        }
    }
}

} // verus!
