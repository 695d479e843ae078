//! Turning the interface list that the operating system reports into the
//! fixed interface set of a run and into counter snapshots.
pub mod in_libc;
pub mod link;
