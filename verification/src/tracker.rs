//! The running total that the parts of a render share.
use std::sync::atomic::{AtomicUsize, Ordering};
use std::sync::Arc;

use vstd::prelude::*;

use crate::budget::Ledger;
use crate::counter::Counter;
use crate::error::{Error, ErrorKind};

verus! {

/// Helper for tracking cumulative intermediate allocation during a render.
///
/// It is always wrapped in an `Arc` so that it can be shared across nested invocations of
/// the template evaluation, and it accounts a running total for the whole render.
///
/// The total is an atomic counter that others may move at any time, so a contract here
/// cannot say where it stands. It says which operation was made on the counter, with the
/// value that came out of it, and what the answer is for that value. It does not say that
/// no further operation was made; a [`Counter`] offers none but to add and to read.
pub struct AllocTracker {
    // The maximum number of intermediate bytes allowed.  A cap of `0` means
    // unlimited.
    cap: usize,
    // The running total of charged bytes.
    used: Counter,
}

impl AllocTracker {
    /// The maximum number of intermediate bytes allowed. A cap of `0` means unlimited.
    pub closed spec fn cap(self) -> usize {
        self.cap
    }

    /// The cell that the running total is kept in.
    pub closed spec fn cell(self) -> AtomicUsize {
        self.used.cell()
    }

    /// The counter was made with the value `used`.
    pub closed spec fn started_at(self, used: usize) -> bool {
        self.used.started_at(used)
    }

    /// `bytes` were added to the counter in one step, which found it at `used` and left it at
    /// their sum, or at `usize::MAX` where that is less.
    pub closed spec fn added(self, bytes: usize, used: usize) -> bool {
        self.used.added(bytes, used)
    }

    /// The counter was read, and found at `used`.
    pub closed spec fn read(self, used: usize) -> bool {
        self.used.was_read(used)
    }

    /// Creates a new allocation tracker with the given cap in bytes.
    ///
    /// The tracker is always wrapped in an `Arc` so that it can be shared
    /// across nested invocations of the template evaluation.
    pub fn new(cap: usize) -> (tracker: Arc<AllocTracker>)
        ensures
            tracker.cap() == cap,
            tracker.started_at(0),
    {
        Arc::new(AllocTracker { cap, used: Counter::new(0) })
    }

    /// Charges `bytes` against the budget.
    ///
    /// A cap of `0` is treated as unlimited and never fails.  Otherwise, once
    /// the running total exceeds the cap an error is returned, for this charge and
    /// for every later one: a refused charge counts all the same.
    pub fn charge(&self, bytes: usize) -> (res: Result<(), Error>)
        ensures
            self.cap() == 0 ==> res is Ok,
            self.cap() != 0 ==> exists|used: usize| #[trigger]
                self.added(bytes, used) && crate::budget::answers(
                    res,
                    (Ledger { cap: self.cap(), used }).admits(bytes),
                ),
    {
        if self.cap == 0 {
            return Ok(());
        }
        let used: usize = self.used.add_to(bytes);
        assert(self.added(bytes, used));
        let mut ledger = Ledger { cap: self.cap, used };
        ledger.charge(bytes)
    }

    /// Checks whether `bytes` would fit in the budget WITHOUT charging them.
    ///
    /// This is the pre-allocation guard.  [`charge`](Self::charge) can only run
    /// once an operation has already built its result, so it bounds the running
    /// total but not the peak of any single step: a filter that expands its
    /// input by a large constant factor allocates the whole result before anyone
    /// sees it.  Sites that can compute (or incrementally observe) the size of what
    /// they are about to allocate call this first, so an oversized single operation
    /// fails instead of allocating.
    ///
    /// It deliberately does not commit anything: the operation's result is
    /// still charged once it is produced, so a checked site is accounted exactly
    /// once rather than twice.
    pub fn check(&self, bytes: usize) -> (res: Result<(), Error>)
        ensures
            self.cap() == 0 ==> res is Ok,
            self.cap() != 0 ==> exists|used: usize| #[trigger]
                self.read(used) && crate::budget::answers(
                    res,
                    (Ledger { cap: self.cap(), used }).admits(bytes),
                ),
    {
        if self.cap == 0 {
            return Ok(());
        }
        let used: usize = self.used.read();
        assert(self.read(used));
        let ledger = Ledger { cap: self.cap, used };
        ledger.check(bytes)
    }
}

/// A new tracker has the cap that was asked for, and a cell that was made with zero.
pub proof fn law_new_tracker_is_made_with_zero(cap: usize, tracker: Arc<AllocTracker>)
    requires
        call_ensures(AllocTracker::new, (cap,), tracker),
    ensures
        tracker.cap() == cap,
        call_ensures(AtomicUsize::new, (0,), tracker.cell()),
{
    tracker.used.law_words_stand_for_calls(0, 0);
}

/// What is said to have been added was added by the one step on the tracker's cell that
/// [`crate::counter`] makes, with these bytes, and was found by it.
pub(crate) proof fn law_added_is_what_the_step_found(
    tracker: AllocTracker,
    bytes: usize,
    found: usize,
)
    ensures
        tracker.added(bytes, found) <==> call_ensures(
            crate::counter::add_saturating,
            (&tracker.cell(), bytes),
            found,
        ),
{
    tracker.used.law_words_stand_for_calls(bytes, found);
}

/// A charge adds exactly its bytes, and is granted exactly where the value that they were
/// added to and the bytes together do not exceed the cap.
pub proof fn law_charge_is_held_against_what_it_added_to(
    tracker: AllocTracker,
    bytes: usize,
    res: Result<(), Error>,
)
    requires
        0 < tracker.cap() < usize::MAX,
        call_ensures(AllocTracker::charge, (&tracker, bytes), res),
    ensures
        exists|found: usize| #[trigger]
            tracker.added(bytes, found) && (res is Ok <==> found + bytes <= tracker.cap()),
{
}

/// A check reads the very cell that charges add to, and is granted exactly where the value
/// that it read and the bytes together do not exceed the cap.
pub proof fn law_check_is_held_against_what_it_read(
    tracker: AllocTracker,
    bytes: usize,
    res: Result<(), Error>,
)
    requires
        0 < tracker.cap() < usize::MAX,
        call_ensures(AllocTracker::check, (&tracker, bytes), res),
    ensures
        exists|found: usize| #[trigger]
            call_ensures(AtomicUsize::load, (&tracker.cell(), Ordering::Relaxed), found) && (res
                is Ok <==> found + bytes <= tracker.cap()),
{
    let found = choose|found: usize| #[trigger]
        tracker.read(found) && crate::budget::answers(
            res,
            (Ledger { cap: tracker.cap(), used: found }).admits(bytes),
        );
    tracker.used.law_words_stand_for_calls(bytes, found);
}

/// Whatever a tracker refuses, it refuses as an invalid operation, with the same words.
pub proof fn law_refusals_say_the_same(
    tracker: AllocTracker,
    bytes: usize,
    charged: Result<(), Error>,
    checked: Result<(), Error>,
)
    requires
        call_ensures(AllocTracker::charge, (&tracker, bytes), charged),
        call_ensures(AllocTracker::check, (&tracker, bytes), checked),
    ensures
        charged matches Err(error) ==> error@.kind == ErrorKind::InvalidOperation
            && error@.detail == "template allocation budget exceeded"@,
        checked matches Err(error) ==> error@.kind == ErrorKind::InvalidOperation
            && error@.detail == "template allocation budget exceeded"@,
{
}

} // verus!
