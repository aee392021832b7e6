//! Keeps a fleet of local repository checkouts in step with their remotes.
//!
//! The crate holds the decisions of a synchronization run and none of its
//! input or output. Whoever uses it probes the file system, talks to the
//! repository and the network, and tells what happened; the functions here
//! say what has to be done next and what the run amounted to.
//!
//! - [`config`] describes the repositories to synchronize and where the list
//!   of them is kept.
//! - [`credentials`] turns the credential policy of a repository into
//!   answers to the challenges of its remote.
//! - [`git`] conducts the synchronization of one repository, operation by
//!   operation, and of a list of them.
//! - [`outcome`] names what a synchronization can amount to.
//! - [`progress`] keeps the counters of a transfer.
//! - [`guarantees`] states what holds of every synchronization.

pub mod config;
pub mod credentials;
pub mod git;
pub mod guarantees;
pub mod outcome;
pub mod progress;
