//! From the samples that came back to the pulse and its age.

use vstd::prelude::*;
use crate::display::HeartData;
use crate::instant::{whole_minutes, UtcInstant};

verus! {

/// One heart-rate sample of the ring.
#[derive(Clone, Copy, Debug, PartialEq, Eq)]
pub struct OuraHeartbeat {
    /// Beats per minute.
    pub bpm: u8,
    /// When the sample was taken.
    pub timestamp: UtcInstant,
}

/// Why a run of samples gives no pulse.
#[derive(Clone, Copy, Debug, PartialEq, Eq)]
pub enum ReadingError {
    /// There is no sample.
    NoSamples,
    /// The newest sample lies a minute or more in the future.
    FutureReading,
}

/// The newest sample of a run: its last one. The run is taken to be in the
/// order of time.
pub open spec fn latest(samples: Seq<OuraHeartbeat>) -> Option<OuraHeartbeat> {
    if samples.len() == 0 {
        None
    } else {
        Some(samples.last())
    }
}

/// The age in whole minutes, at `now`, of what was taken at `taken`: the
/// time from `taken` to `now`, less what does not fill a minute. A reading
/// less than a minute ahead of `now` is zero minutes old; one that is further
/// ahead has no age.
pub open spec fn age_in_minutes(now: UtcInstant, taken: UtcInstant) -> Option<u64> {
    let minutes = whole_minutes(now.nanos_since(taken));
    if minutes < 0 {
        None
    } else {
        Some(minutes as u64)
    }
}

/// The pulse of the newest sample and its age at `now`.
pub open spec fn heart_data_of(samples: Seq<OuraHeartbeat>, now: UtcInstant) -> Result<
    HeartData,
    ReadingError,
> {
    match latest(samples) {
        None => Err(ReadingError::NoSamples),
        Some(beat) => match age_in_minutes(now, beat.timestamp) {
            None => Err(ReadingError::FutureReading),
            Some(minutes_ago) => Ok(HeartData { bpm: beat.bpm, minutes_ago }),
        },
    }
}

/// The newest sample of a run, if it has any.
pub fn latest_heartbeat(samples: &[OuraHeartbeat]) -> (r: Option<OuraHeartbeat>)
    ensures
        r == latest(samples@),
{
    let n: usize = samples.len();
    if n == 0 {
        None
    } else {
        Some(samples[n - 1])
    }
}

/// The age in whole minutes, at `now`, of what was taken at `taken`.
pub fn minutes_ago(now: UtcInstant, taken: UtcInstant) -> (r: Option<u64>)
    ensures
        r == age_in_minutes(now, taken),
        r is Some <==> whole_minutes(now.nanos_since(taken)) >= 0,
        r matches Some(minutes) ==> minutes == whole_minutes(now.nanos_since(taken)),
{
    let minutes: i64 = now.minutes_since(taken);
    if minutes < 0 {
        None
    } else {
        Some(minutes as u64)
    }
}

/// The pulse of the newest sample and its age at `now`; an error where there
/// is no sample, or where the newest one has no age.
pub fn heart_data(samples: &[OuraHeartbeat], now: UtcInstant) -> (r: Result<
    HeartData,
    ReadingError,
>)
    ensures
        r == heart_data_of(samples@, now),
        r matches Ok(found) ==> found.bpm == samples@.last().bpm && found.minutes_ago
            == whole_minutes(now.nanos_since(samples@.last().timestamp)),
{
    match latest_heartbeat(samples) {
        None => Err(ReadingError::NoSamples),
        Some(beat) => match minutes_ago(now, beat.timestamp) {
            None => Err(ReadingError::FutureReading),
            Some(minutes_ago) => Ok(HeartData { bpm: beat.bpm, minutes_ago }),
        },
    }
}

} // verus!
