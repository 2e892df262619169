//! The rule that decides whether an allocation fits the budget, on plain values.
use vstd::prelude::*;

use crate::error::{Error, ErrorKind, ErrorView};

verus! {

/// Approximate heap cost of one value of type `V` held in a container, in bytes.
///
/// A sequence of many tiny strings costs far more than the sum of its string lengths:
/// every element also carries a slot in the backing `Vec` plus its own allocation header.
/// Charging string bytes alone under-counts such a container by more than an order of
/// magnitude, so per-element accounting adds this.
pub fn container_element_cost<V>() -> (cost: usize)
    ensures
        cost == 2 * vstd::layout::size_of::<V>(),
{
    vstd::layout::layout_for_type_is_valid::<V>();
    2 * std::mem::size_of::<V>()
}

/// What every budget guard fails with.
pub open spec fn budget_exceeded() -> ErrorView {
    ErrorView {
        kind: ErrorKind::InvalidOperation,
        detail: "template allocation budget exceeded"@,
    }
}

/// A guard's answer: `Ok` exactly where `granted` holds, the budget error elsewhere.
pub open spec fn answers(res: Result<(), Error>, granted: bool) -> bool {
    match res {
        Ok(()) => granted,
        Err(error) => !granted && error@ == budget_exceeded(),
    }
}

/// The error every budget guard fails with.
pub fn budget_error() -> (error: Error)
    ensures
        error@ == budget_exceeded(),
{
    Error::new(ErrorKind::InvalidOperation, "template allocation budget exceeded")
}

/// A cap and the running total that is held against it.
///
/// This is what a budget guard decides on, once it knows where the total stands.
#[derive(Clone, Copy, Debug, PartialEq, Eq, Structural)]
pub struct Ledger {
    /// The maximum number of bytes allowed. A cap of `0` means unlimited.
    pub cap: usize,
    /// The running total of charged bytes.
    pub used: usize,
}

impl Ledger {
    /// A ledger that nothing has been charged to.
    pub open spec fn fresh(cap: usize) -> Ledger {
        Ledger { cap, used: 0 }
    }

    /// Whether `bytes` more bytes stay within the cap.
    ///
    /// The sum is held against the cap as far as a `usize` can tell it, so a cap of
    /// `usize::MAX` refuses nothing.
    pub open spec fn admits(self, bytes: usize) -> bool {
        self.cap == 0 || self.cap == usize::MAX || self.used + bytes <= self.cap
    }

    /// The ledger after a charge of `bytes`, granted or not.
    ///
    /// An unlimited ledger keeps no total; that of any other stays at `usize::MAX` once it
    /// has come there.
    pub open spec fn charged(self, bytes: usize) -> Ledger {
        if self.cap == 0 {
            self
        } else {
            Ledger { cap: self.cap, used: self.used.saturating_add(bytes) }
        }
    }

    /// Says whether `bytes` more bytes fit, without charging them.
    pub fn check(&self, bytes: usize) -> (res: Result<(), Error>)
        ensures
            answers(res, self.admits(bytes)),
    {
        if self.cap == 0 {
            return Ok(());
        }
        let total: usize = self.used.saturating_add(bytes);
        if total > self.cap {
            return Err(budget_error());
        }
        Ok(())
    }

    /// Adds `bytes` to the running total, and says whether they fit.
    ///
    /// A charge that does not fit counts all the same.
    pub fn charge(&mut self, bytes: usize) -> (res: Result<(), Error>)
        ensures
            answers(res, old(self).admits(bytes)),
            *final(self) == old(self).charged(bytes),
    {
        let res = self.check(bytes);
        if self.cap != 0 {
            self.used = self.used.saturating_add(bytes);
        }
        res
    }
}

} // verus!
