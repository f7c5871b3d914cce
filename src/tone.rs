use vstd::prelude::*;

use crate::error::WavError;

verus! {

/// The longest tone, in seconds.
pub const MAX_DURATION_SECONDS: u16 = 60;

/// At least one frequency, and a duration of `1..=60` seconds.
pub open spec fn valid_tone(frequencies: Seq<u16>, duration_seconds: u16) -> bool {
    frequencies.len() > 0 && 0 < duration_seconds <= MAX_DURATION_SECONDS
}

/// Checks the integer parts of a tone request; the volume is checked by its owner.
pub fn validate_tone(frequencies: &[u16], duration_seconds: u16) -> (r: Result<(), WavError>)
    ensures
        r is Ok <==> valid_tone(frequencies@, duration_seconds),
        r is Err ==> r == Err::<(), WavError>(WavError::InvalidTone),
{
    if frequencies.len() == 0 || duration_seconds == 0 || duration_seconds > MAX_DURATION_SECONDS {
        Err(WavError::InvalidTone)
    } else {
        Ok(())
    }
}

/// How many samples a tone of `duration_seconds` holds at `sample_rate`.
pub fn total_samples(duration_seconds: u16, sample_rate: u32) -> (r: u64)
    ensures
        r == duration_seconds * sample_rate,
{
    proof {
        assert(duration_seconds * sample_rate <= 65535 * 4294967295) by (nonlinear_arith);
    }
    duration_seconds as u64 * sample_rate as u64
}

/// The 8-bit contribution of one partial, from its sine already scaled by 128
/// and floored: offset by 127, with a negative result taken as 0.
pub fn offset_partial_8(floored: i32) -> (r: i64)
    ensures
        r == if floored + 127 >= 0 {
            floored + 127
        } else {
            0
        },
{
    let y: i64 = floored as i64 + 127;
    if y >= 0 {
        y
    } else {
        0
    }
}

} // verus!
