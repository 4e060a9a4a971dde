//! Verified core of a single-process resource monitor.
//!
//! The monitor samples one operating-system process at a fixed interval and
//! appends each sample as a row of a CSV file until the process exits or a
//! configured duration elapses.  This crate holds everything that can be
//! stated and proved: target resolution, the sampling loop's termination and
//! error policy, the shape and contents of the header and sample rows, and
//! the encoding of a row as a CSV line.  The surrounding binary performs the
//! process spawning, metric collection, file writes and sleeps, and feeds
//! the results back in as plain values.

pub mod csvline;
pub mod numfmt;
pub mod row;
pub mod sampler;
pub mod target;
