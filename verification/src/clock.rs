use vstd::prelude::*;

use crate::text::{seq_starts_with, string_of};

verus! {

#[verifier::external_type_specification]
#[verifier::external_body]
pub struct ExSystemTime(std::time::SystemTime);

#[verifier::external_type_specification]
#[verifier::external_body]
pub struct ExSystemTimeError(std::time::SystemTimeError);

/// `std::time::SystemTime::now`. Nothing is claimed about the reading: it is
/// the state of the machine's clock.
#[verifier::external_body]
fn system_time_now() -> std::time::SystemTime {
    std::time::SystemTime::now()
}

/// `SystemTime::duration_since(UNIX_EPOCH)`: the time elapsed since the Unix
/// epoch, or an error for a clock set before it. Nothing is claimed about
/// which of the two comes back, since it depends on the clock reading.
#[verifier::external_body]
fn since_unix_epoch(t: &std::time::SystemTime) -> std::result::Result<
    core::time::Duration,
    std::time::SystemTimeError,
> {
    t.duration_since(std::time::UNIX_EPOCH)
}

/// `Duration::as_secs`: the whole seconds of a duration. The duration is
/// opaque here, so nothing is claimed about the number.
#[verifier::external_body]
fn duration_whole_seconds(d: &core::time::Duration) -> u64 {
    d.as_secs()
}

/// The message of a clock error starts with this.
pub open spec fn clock_error_prefix() -> Seq<char> {
    "Clock error: "@
}

/// Seconds since the Unix epoch by the system clock, or an error message
/// starting with `Clock error: ` when the clock is set before the epoch.
pub fn current_unix_seconds() -> (r: Result<u64, String>)
    ensures
        r matches Err(msg) ==> seq_starts_with(msg@, clock_error_prefix()),
{
    let now = system_time_now();
    match since_unix_epoch(&now) {
        Ok(d) => Ok(duration_whole_seconds(&d)),
        Err(e) => {
            let mut msg = string_of("Clock error: ");
            let text = e.to_string();
            msg.append(text.as_str());
            assert(msg@.subrange(0, clock_error_prefix().len() as int) =~= clock_error_prefix());
            Err(msg)
        },
    }
}

} // verus!
