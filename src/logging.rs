use vstd::prelude::*;
use time::error::ComponentRange;
use time::UtcOffset;

verus! {

/// Size above which the log file is moved aside before logging starts.
pub const MAX_LOG_BYTES: u64 = 1024 * 1024;

/// Whether the log file, of the given size if it could be read, is moved
/// aside (replacing the previous old log) before logging starts. A file whose
/// size cannot be read is left in place.
pub fn should_rotate_log(current_size: Option<u64>) -> (r: bool)
    ensures
        r == (current_size matches Some(n) && n > MAX_LOG_BYTES),
{
    match current_size {
        Some(n) => n > MAX_LOG_BYTES,
        None => false,
    }
}

/// Whether the editor runs attached to a terminal: standard output is one
/// and command-line mode was not forced through the environment. Logs then
/// go to standard output instead of the log file.
pub fn stdout_is_a_pty(force_cli_mode: bool, stdout_is_terminal: bool) -> (r: bool)
    ensures
        r == (!force_cli_mode && stdout_is_terminal),
{
    !force_cli_mode && stdout_is_terminal
}

#[verifier::external_type_specification]
#[verifier::external_body]
pub struct ExUtcOffset(UtcOffset);

#[verifier::external_type_specification]
#[verifier::external_body]
pub struct ExComponentRange(ComponentRange);

/// Offsets from UTC, in seconds, that a `UtcOffset` can hold: up to
/// 25 hours, 59 minutes and 59 seconds either way.
pub open spec fn offset_in_range(seconds: int) -> bool {
    -93599 <= seconds <= 93599
}

/// Relies on time::UtcOffset::from_whole_seconds, which succeeds exactly for
/// the offsets that its hour, minute and second fields can represent.
#[verifier::external_body]
fn utc_offset_from_seconds(seconds: i32) -> (r: Result<UtcOffset, ComponentRange>)
    ensures
        r is Ok == offset_in_range(seconds as int),
{
    UtcOffset::from_whole_seconds(seconds)
}

/// The offset that log timestamps are written in, from the local time
/// zone's distance to UTC in seconds; `None` where the offset is out of
/// range, and timestamps stay in UTC.
pub fn log_time_offset(local_minus_utc: i32) -> (r: Option<UtcOffset>)
    ensures
        r is Some == offset_in_range(local_minus_utc as int),
{
    match utc_offset_from_seconds(local_minus_utc) {
        Ok(offset) => Some(offset),
        Err(_) => None,
    }
}

} // verus!
