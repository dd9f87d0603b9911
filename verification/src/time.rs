//! Points in time as plain values: whole seconds since the Unix epoch and
//! the nanoseconds past that second (the pair `chrono::DateTime<Utc>` is
//! built from and read back as).
use vstd::prelude::*;

verus! {

/// A UTC point in time.
#[derive(Clone, Copy, Debug, PartialEq, Eq, Structural)]
pub struct Timestamp {
    pub secs: i64,
    pub nanos: u32,
}

} // verus!
