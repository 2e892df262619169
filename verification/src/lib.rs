//! A budget for the memory that a template render allocates on the way to its output.
//!
//! A template can ask for far more memory than it ever prints: a string that doubles in a
//! loop, a padding of ten billion spaces, a list repeated without end. An [`AllocTracker`]
//! keeps the running total of such intermediate bytes for one render and refuses what goes
//! beyond a cap, either once the bytes are there ([`AllocTracker::charge`]) or before they
//! are allocated ([`AllocTracker::check`]). A [`BudgetWriter`] asks a size check before each
//! write, for output whose size cannot be told in advance.
//!
//! The modules:
//!
//! - [`error`]: what a refused operation fails with;
//! - [`budget`]: the rule itself, on a cap and a running total;
//! - [`tracker`]: the running total that a render shares;
//! - [`writer`]: the text sink that is held to a size check;
//! - [`laws`]: what holds over many charges and many writes.
pub mod budget;
mod counter;
pub mod error;
pub mod laws;
pub mod tracker;
pub mod writer;

pub use budget::{budget_error, container_element_cost, Ledger};
pub use error::{Error, ErrorKind};
pub use tracker::AllocTracker;
pub use writer::{BudgetWriter, SizeCheck};
