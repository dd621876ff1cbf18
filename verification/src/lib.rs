//! Review of a repository that was made from a template: a fixed list of
//! contracts, each a read-only check of the checked-out repository, the order
//! in which they are tested, and the lines and the exit status that report
//! what they found.
//!
//! The library works on plain values. A `checkout::Checkout` holds what the
//! contracts read of a repository; getting hold of the repository, reading it
//! and logging are left to the caller, who is told by `acquire` what to do and
//! by `runner` what to log.

pub mod acquire;
pub mod args;
pub mod checkout;
pub mod contract;
pub mod record;
pub mod runner;
pub mod scan;
pub mod text;
