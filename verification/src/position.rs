//! Playback positions: the units that requests come in, and the machine widths
//! that players take.

use vstd::prelude::*;

verus! {

/// The signed 64-bit number with the same low bits as `x`.
pub open spec fn wrapped_i64(x: int) -> int {
    let low = x % 0x1_0000_0000_0000_0000;
    if low < 0x8000_0000_0000_0000 {
        low
    } else {
        low - 0x1_0000_0000_0000_0000
    }
}

/// The unsigned 64-bit number with the same low bits as `x`.
pub open spec fn wrapped_u64(x: int) -> u64 {
    (x % 0x1_0000_0000_0000_0000) as u64
}

/// The unsigned 32-bit number with the same low bits as `x`.
pub open spec fn wrapped_u32(x: int) -> u32 {
    (x % 0x1_0000_0000) as u32
}

/// Whole milliseconds of a number of microseconds, rounded towards zero.
pub open spec fn whole_ms(micros: int) -> int {
    if micros >= 0 {
        micros / 1000
    } else {
        -((-micros) / 1000)
    }
}

/// A millisecond that a player can seek to: never before the start, and in 32
/// bits.
pub open spec fn player_ms(ms: int) -> u32 {
    if ms < 0 {
        0
    } else {
        wrapped_u32(ms)
    }
}

/// Where a seek by `offset_micros` from `position_ms` leads. The arithmetic is
/// that of signed 64-bit machine words.
pub open spec fn seek_target(position_ms: int, offset_micros: i64) -> u32 {
    player_ms(wrapped_i64(wrapped_i64(position_ms) + whole_ms(offset_micros as int)))
}

/// Where a request for an absolute position in microseconds leads.
pub open spec fn position_target(position_micros: i64) -> u32 {
    player_ms(whole_ms(position_micros as int))
}

/// Cut a position down to 32 bits.
pub fn low_u32(x: u64) -> (r: u32)
    ensures
        r == wrapped_u32(x as int),
{
    (x % 0x1_0000_0000) as u32
}

/// Cut a position down to 64 bits.
pub fn low_u64(x: u128) -> (r: u64)
    ensures
        r == wrapped_u64(x as int),
{
    (x % 0x1_0000_0000_0000_0000) as u64
}

/// Cut a position down to a signed 64-bit number.
fn low_i64(x: u128) -> (r: i64)
    ensures
        r == wrapped_i64(x as int),
{
    let low: u64 = low_u64(x);
    if low <= 0x7fff_ffff_ffff_ffff {
        low as i64
    } else {
        -((0xffff_ffff_ffff_ffff - low) as i64) - 1
    }
}

/// Whole milliseconds of a number of microseconds, rounded towards zero.
fn ms_of_micros(micros: i64) -> (r: i64)
    ensures
        r == whole_ms(micros as int),
{
    if micros >= 0 {
        micros / 1000
    } else {
        // The magnitude of the lowest number does not fit its own type.
        let magnitude: u64 = (-(micros + 1)) as u64 + 1;
        -((magnitude / 1000) as i64)
    }
}

/// A millisecond that a player can seek to.
fn clamp_ms(ms: i64) -> (r: u32)
    ensures
        r == player_ms(ms as int),
{
    if ms < 0 {
        0
    } else {
        low_u32(ms as u64)
    }
}

/// Where a seek by `offset_micros` from `position_ms` leads.
pub fn seek_target_ms(position_ms: u128, offset_micros: i64) -> (r: u32)
    ensures
        r == seek_target(position_ms as int, offset_micros),
{
    let current: i64 = low_i64(position_ms);
    let offset: i64 = ms_of_micros(offset_micros);
    clamp_ms(current.wrapping_add(offset))
}

/// Where a request for an absolute position in microseconds leads.
pub fn position_target_ms(position_micros: i64) -> (r: u32)
    ensures
        r == position_target(position_micros),
{
    clamp_ms(ms_of_micros(position_micros))
}

} // verus!
