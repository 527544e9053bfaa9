use std::sync::{Arc, Mutex, PoisonError};

use std::time::SystemTime;

use chrono::{DateTime, Utc};
use vstd::prelude::*;

use crate::error::StatusResult;
use crate::timestamp::{representable, Timestamp, NANOS_PER_SECOND};

verus! {

/// std's `Mutex`, held opaque: the clock's shared cell.
#[verifier::external_type_specification]
#[verifier::external_body]
#[verifier::reject_recursive_types(T)]
pub struct ExMutex<T: ?Sized>(Mutex<T>);

/// The instant that a cell was made holding.
pub uninterp spec fn made_with(m: Mutex<Timestamp>) -> (int, int);

/// Relies on `Mutex::new`: an unlocked lock that holds `t`.
#[verifier::external_body]
fn new_cell(t: Timestamp) -> (r: Mutex<Timestamp>)
    ensures
        made_with(r) == t@,
{
    Mutex::new(t)
}

/// Relies on `Mutex::lock`; a lock poisoned by a panicking holder still hands
/// out the last value written, through `PoisonError::into_inner`.
#[verifier::external_body]
fn read_shared(cell: &Mutex<Timestamp>) -> Timestamp {
    *cell.lock().unwrap_or_else(PoisonError::into_inner)
}

/// Relies on `Mutex::lock`, as `read_shared` does, to replace the held value.
#[verifier::external_body]
fn write_shared(cell: &Mutex<Timestamp>, t: Timestamp) {
    *cell.lock().unwrap_or_else(PoisonError::into_inner) = t;
}

/// Relies on chrono's `From<SystemTime>` for `DateTime<Utc>`, applied to
/// `SystemTime::now()`: a reading before 1970 gives negative seconds, and the
/// nanoseconds always lie below one second.
#[verifier::external_body]
fn system_now() -> (r: (i64, u32))
    ensures
        representable(r.0 as int, r.1 as int),
        r.1 < NANOS_PER_SECOND,
{
    let now = DateTime::<Utc>::from(SystemTime::now());
    (now.timestamp(), now.timestamp_subsec_nanos())
}

/// A source of the current instant.
pub trait Clock {
    fn now(&self) -> StatusResult<Timestamp>;
}

/// The platform's wall clock.
pub struct StdClock;

impl Clock for StdClock {
    fn now(&self) -> (r: StatusResult<Timestamp>)
        ensures
            r matches Ok(t) && t@.1 < NANOS_PER_SECOND,
    {
        let (secs, nanos) = system_now();
        Ok(Timestamp::from_representable(secs, nanos))
    }
}

/// A clock for tests: it reports whatever instant was last written to a cell
/// that every holder of the same `Arc` shares.
pub struct ClockFake {
    timestamp: Arc<Mutex<Timestamp>>,
}

impl ClockFake {
    pub fn new(timestamp: Arc<Mutex<Timestamp>>) -> (c: ClockFake)
        ensures
            c.shared() == timestamp,
    {
        ClockFake { timestamp }
    }

    /// The cell this clock reads.
    pub closed spec fn shared(&self) -> Arc<Mutex<Timestamp>> {
        self.timestamp
    }

    /// Makes `timestamp` what this clock, and every clock sharing its cell, reports.
    pub fn update(&self, timestamp: Timestamp) {
        write_shared(&self.timestamp, timestamp);
    }
}

impl Default for ClockFake {
    /// A clock at the Unix epoch, with a cell of its own.
    fn default() -> (c: ClockFake)
        ensures
            made_with(*c.shared()) == (0int, 0int),
    {
        ClockFake::new(Arc::new(new_cell(Timestamp::unix_epoch())))
    }
}

impl Clock for ClockFake {
    fn now(&self) -> (r: StatusResult<Timestamp>)
        ensures
            r is Ok,
    {
        Ok(read_shared(&self.timestamp))
    }
}

} // verus!
