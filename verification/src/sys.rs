//! The sampling edge: the few calls into the system-information and
//! calendar crates, each behind a trusted declaration, and the verified
//! functions that validate what comes back.

use vstd::prelude::*;

use chrono::Datelike;
use chrono::Timelike;

use crate::fields::ClockFields;
use crate::fields::MemReading;

verus! {

/// The system-information handle that the memory counters are read
/// through. Its insides stay opaque; only the byte counts leave it.
#[verifier::external_type_specification]
#[verifier::external_body]
pub struct ExSystem(sysinfo::System);

/// Relies on sysinfo's System::new: a fresh handle with nothing loaded.
pub assume_specification[ sysinfo::System::new ]() -> (s: sysinfo::System);

/// Relies on sysinfo's System::refresh_memory: re-reads the RAM counters
/// into the handle.
pub assume_specification[ sysinfo::System::refresh_memory ](s: &mut sysinfo::System);

/// Relies on sysinfo's System::used_memory: the used RAM in bytes, as the
/// machine reports it.
pub assume_specification[ sysinfo::System::used_memory ](s: &sysinfo::System) -> (r: u64);

/// Relies on sysinfo's System::total_memory: the RAM size in bytes, as
/// the machine reports it.
pub assume_specification[ sysinfo::System::total_memory ](s: &sysinfo::System) -> (r: u64);

/// Relies on chrono's Local::now and the Datelike and Timelike accessors,
/// which document their ranges: month 1 to 12, day 1 to 31, hour 0 to 23,
/// minute and second 0 to 59. The year is whatever the clock says.
#[verifier::external_body]
fn now_raw_clock() -> (r: (i32, u32, u32, u32, u32, u32))
    ensures
        1 <= r.1 <= 12,
        1 <= r.2 <= 31,
        r.3 <= 23,
        r.4 <= 59,
        r.5 <= 59,
{
    let now = chrono::Local::now();
    (now.year(), now.month(), now.day(), now.hour(), now.minute(), now.second())
}

/// Refreshes the memory counters and validates the pair: whatever the
/// machine reported, the sample never shows more in use than the total.
pub fn sample_memory(sys: &mut sysinfo::System) -> (r: MemReading)
    ensures
        r.wf(),
{
    sys.refresh_memory();
    let used = sys.used_memory();
    let total = sys.total_memory();
    MemReading::new(used, total)
}

/// Reads the wall clock and validates its fields; a year outside the
/// four-digit range fails the clock field rather than the tick.
pub fn sample_clock() -> (r: Option<ClockFields>)
    ensures
        r matches Some(f) ==> f.wf(),
{
    let (year, month, day, hour, minute, second) = now_raw_clock();
    ClockFields::from_raw(year, month, day, hour, minute, second)
}

} // verus!
