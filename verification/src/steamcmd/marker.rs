//! When to run `steamcmd validate`.
use vstd::prelude::*;

verus! {

/// What is known of the marker file that records the last successful validate.
#[derive(Debug, Clone, Copy, PartialEq, Eq, Structural)]
pub enum MarkerAge {
    /// The marker does not exist (or its existence could not be checked).
    Missing,
    /// The marker exists but its age is unknown: its metadata could not be
    /// read, or the clock went backwards.
    Unknown,
    /// The time since the marker was last written, in nanoseconds.
    Age(u128),
}

/// Whether `steamcmd validate` is due: never when installs are skipped;
/// otherwise when the server binary or the marker is missing, when the
/// marker's age is unknown or exceeds the interval, and always for a zero
/// interval.
pub open spec fn validation_due(
    binary_present: bool,
    marker: MarkerAge,
    interval_nanos: u128,
    skip_install: bool,
) -> bool {
    if skip_install {
        false
    } else if !binary_present {
        true
    } else {
        match marker {
            MarkerAge::Age(age) => interval_nanos == 0 || age > interval_nanos,
            _ => true,
        }
    }
}

/// Decide whether to run `steamcmd validate` now. Where anything is unknown
/// (missing binary or marker, unreadable metadata, clock regression) the
/// answer is to validate: a redundant validate is cheap, skipping a needed one
/// ships a stale server. A zero interval validates on every launch.
pub fn should_validate(
    binary_present: bool,
    marker: MarkerAge,
    interval_nanos: u128,
    skip_install: bool,
) -> (r: bool)
    ensures
        r == validation_due(binary_present, marker, interval_nanos, skip_install),
{
    if skip_install {
        return false;
    }
    if !binary_present {
        return true;
    }
    match marker {
        MarkerAge::Age(age) => interval_nanos == 0 || age > interval_nanos,
        _ => true,
    }
}

/// `check_interval_minutes = 0` validates on every launch, whatever the
/// marker says, even one written a moment ago.
pub proof fn lemma_zero_interval_validates_every_launch(binary_present: bool, marker: MarkerAge)
    ensures
        validation_due(binary_present, marker, interval_nanos_of(0), false),
{
}

/// The validation interval in nanoseconds for `minutes` minutes; the count of
/// seconds wraps at 64 bits, as the release build computes it.
pub open spec fn interval_nanos_of(minutes: u64) -> u128 {
    (((minutes * 60) % 0x1_0000_0000_0000_0000) * 1_000_000_000) as u128
}

pub fn check_interval_nanos(minutes: u64) -> (n: u128)
    ensures
        n == interval_nanos_of(minutes),
{
    let secs = minutes.wrapping_mul(60);
    assert(secs * 1_000_000_000 < 0x1_0000_0000_0000_0000 * 1_000_000_000) by (nonlinear_arith)
        requires
            secs < 0x1_0000_0000_0000_0000,
    ;
    (secs as u128) * 1_000_000_000
}

/// The interval is the number of minutes at sixty seconds each, in
/// nanoseconds, for every count of minutes whose seconds fit in 64 bits.
pub proof fn lemma_interval_is_linear_in_minutes(minutes: u64)
    requires
        minutes * 60 < 0x1_0000_0000_0000_0000,
    ensures
        interval_nanos_of(minutes) == minutes * 60 * 1_000_000_000,
{
}

/// A marker older than the configured number of minutes asks for a validate,
/// and one at most that old does not, for every positive interval.
pub proof fn lemma_marker_older_than_interval_validates(minutes: u64, age: u128)
    requires
        0 < minutes,
        minutes * 60 < 0x1_0000_0000_0000_0000,
    ensures
        validation_due(true, MarkerAge::Age(age), interval_nanos_of(minutes), false) <==> age
            > minutes * 60 * 1_000_000_000,
{
    lemma_interval_is_linear_in_minutes(minutes);
}

/// Skipping installs never validates; otherwise a missing server binary, a
/// missing marker, or a marker of unknown age always asks for a validate,
/// whatever the interval.
pub proof fn lemma_unknown_state_validates(
    binary_present: bool,
    marker: MarkerAge,
    interval_nanos: u128,
)
    ensures
        !validation_due(binary_present, marker, interval_nanos, true),
        !binary_present ==> validation_due(binary_present, marker, interval_nanos, false),
        (marker is Missing || marker is Unknown) ==> validation_due(
            binary_present,
            marker,
            interval_nanos,
            false,
        ),
{
}

} // verus!
