//! An accumulating stopwatch for micro-benchmarks, together with the
//! in-memory archive packaging it times.
//!
//! The stopwatch keeps a running total of completed intervals and an
//! optional open interval.  All operations take the current clock reading
//! as a plain nanosecond count, so their effect on the recorded state is
//! specified exactly; callers obtain the reading from whatever monotonic
//! clock they use.

pub mod archive;
pub mod filler;
pub mod render;
pub mod timer;
