//! A shared counter that can be added to and read, and nothing else.
use std::sync::atomic::{AtomicUsize, Ordering};

use vstd::prelude::*;

verus! {

/// The counter value that follows `value` when `amount` is added: it stays at `usize::MAX`
/// once it has come there.
fn raised(value: usize, amount: usize) -> (next: Option<usize>)
    ensures
        next == Some(value.saturating_add(amount)),
{
    Some(value.saturating_add(amount))
}

/// `AtomicUsize::fetch_update` replaces the counter's value by what [`raised`] gives for it,
/// in one step, and returns the value it replaced.
///
/// Nothing is promised of that value: it is whatever the last of the steps that others make
/// left there. What is trusted is that this call makes the step.
#[verifier::external_body]
pub(crate) fn add_saturating(counter: &AtomicUsize, amount: usize) -> (value: usize) {
    match counter.fetch_update(
        Ordering::Relaxed,
        Ordering::Relaxed,
        |value: usize| raised(value, amount),
    ) {
        Ok(value) => value,
        Err(value) => value,
    }
}

/// An atomic counter that only grows.
pub struct Counter {
    value: AtomicUsize,
}

impl Counter {
    /// The cell that the value is kept in.
    pub closed spec fn cell(self) -> AtomicUsize {
        self.value
    }

    /// The words for what was done to the counter stand for calls on its one cell.
    pub(crate) proof fn law_words_stand_for_calls(&self, amount: usize, value: usize)
        ensures
            self.started_at(value) <==> call_ensures(AtomicUsize::new, (value,), self.cell()),
            self.added(amount, value) <==> call_ensures(
                add_saturating,
                (&self.cell(), amount),
                value,
            ),
            self.was_read(value) <==> call_ensures(
                AtomicUsize::load,
                (&self.cell(), Ordering::Relaxed),
                value,
            ),
    {
    }

    /// The counter was made with this value.
    pub closed spec fn started_at(self, value: usize) -> bool {
        call_ensures(AtomicUsize::new, (value,), self.value)
    }

    /// `amount` was added in one step, which found the counter at `value` and left it at
    /// their sum, or at `usize::MAX` where that is less.
    pub closed spec fn added(self, amount: usize, value: usize) -> bool {
        call_ensures(add_saturating, (&self.value, amount), value)
    }

    /// The counter was read, and found at `value`.
    pub closed spec fn was_read(self, value: usize) -> bool {
        call_ensures(AtomicUsize::load, (&self.value, Ordering::Relaxed), value)
    }

    /// Creates a counter that starts at `value`.
    pub fn new(value: usize) -> (counter: Counter)
        ensures
            counter.started_at(value),
    {
        Counter { value: AtomicUsize::new(value) }
    }

    /// Adds `amount` and returns the value that it was added to.
    pub fn add_to(&self, amount: usize) -> (value: usize)
        ensures
            self.added(amount, value),
    {
        add_saturating(&self.value, amount)
    }

    /// Returns the value that the counter is found at.
    pub fn read(&self) -> (value: usize)
        ensures
            self.was_read(value),
    {
        self.value.load(Ordering::Relaxed)
    }
}

} // verus!
