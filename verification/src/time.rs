//! Times: the creation time that every Discord ID carries, and its conversion to the
//! timestamp type of the Discord models.
use vstd::prelude::*;
use twilight_model::util::datetime::{Timestamp, TimestampParseError};

verus! {

#[verifier::external_type_specification]
#[verifier::external_body]
pub struct ExTimestampParseError(TimestampParseError);

/// Discord's epoch: the Unix time in milliseconds of the first second of 2015.
pub const DISCORD_EPOCH: u64 = 1_420_070_400_000;

/// The creation time, in Unix milliseconds, of the Discord ID `id`: the bits above the
/// lowest 22 count milliseconds since Discord's epoch.
pub open spec fn snowflake_millis(id: u64) -> int {
    id as int / 4194304 + DISCORD_EPOCH
}

/// Gets the creation time of the ID, in Unix milliseconds (what `twilight_util`'s
/// `Snowflake::timestamp` computes).
pub fn snowflake_timestamp(id: u64) -> (res: i64)
    ensures
        res == snowflake_millis(id),
{
    let high = id >> 22u64;
    assert(high == id / 4194304) by (bit_vector)
        requires
            high == id >> 22u64,
    ;
    (high + DISCORD_EPOCH) as i64
}

/// The `Timestamp` that `Timestamp::from_micros` makes of `micros` microseconds since the
/// Unix epoch.
pub uninterp spec fn timestamp_of_micros(micros: i64) -> Timestamp;

/// Makes a `Timestamp` with `Timestamp::from_micros`, which fails only outside the
/// dates the `time` crate represents (years -9999 to 9999 at least); all times from
/// 1970 to the end of 9999 are accepted. The timestamp made is named as a function of
/// `micros`.
#[verifier::external_body]
fn timestamp_from_micros(micros: i64) -> (res: Result<Timestamp, TimestampParseError>)
    ensures
        0 <= micros <= 253_402_300_799_999_999 ==> res is Ok,
        res matches Ok(t) ==> t == timestamp_of_micros(micros),
{
    Timestamp::from_micros(micros)
}

/// Gets a `Timestamp` for the creation time of the ID; it always succeeds.
pub fn timestamp_from_id(id: u64) -> (res: Result<Timestamp, TimestampParseError>)
    ensures
        res matches Ok(t) && t == timestamp_of_micros((snowflake_millis(id) * 1000) as i64),
{
    let millis = snowflake_timestamp(id);
    timestamp_from_micros(millis * 1000)
}

} // verus!
