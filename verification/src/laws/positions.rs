//! Laws of positions: where a seek lands.

use vstd::prelude::*;

verus! {

/// Whole milliseconds of an offset in microseconds, towards zero.
pub open spec fn offset_ms(offset_micros: i64) -> int {
    if offset_micros < 0 {
        -((0 - offset_micros) / 1000)
    } else {
        offset_micros as int / 1000
    }
}

/// Where a player lands that is asked for a millisecond: not before the start,
/// and in the 32 bits that it takes.
pub open spec fn landing(ms: int) -> int {
    if ms < 0 {
        0
    } else {
        ms % 0x1_0000_0000
    }
}

/// A seek lands as many whole milliseconds further on, or back, as the offset
/// says.
pub proof fn a_seek_lands_by_its_offset(position_ms: int, offset_micros: i64)
    requires
        0 <= position_ms <= i64::MAX,
        position_ms + offset_ms(offset_micros) <= i64::MAX,
    ensures
        crate::position::seek_target(position_ms, offset_micros) == landing(
            position_ms + offset_ms(offset_micros),
        ),
{
}

/// Of a position, the low 64 bits count, read as a signed number, and a sum that
/// leaves its range comes in again at the other end.
pub proof fn positions_are_read_as_machine_words(position_ms: int, offset_micros: i64)
    requires
        0 <= position_ms,
    ensures
        crate::position::seek_target(position_ms + 0x1_0000_0000_0000_0000, offset_micros)
            == crate::position::seek_target(position_ms, offset_micros),
        i64::MAX < position_ms <= u64::MAX ==> ({
            let sum = position_ms - 0x1_0000_0000_0000_0000 + offset_ms(offset_micros);
            crate::position::seek_target(position_ms, offset_micros) == landing(
                if sum < i64::MIN {
                    sum + 0x1_0000_0000_0000_0000
                } else {
                    sum
                },
            )
        }),
        position_ms <= i64::MAX && position_ms + offset_ms(offset_micros) > i64::MAX
            ==> crate::position::seek_target(position_ms, offset_micros) == 0,
{
    assert((position_ms + 0x1_0000_0000_0000_0000) % 0x1_0000_0000_0000_0000 == position_ms
        % 0x1_0000_0000_0000_0000);
}

/// A longer way forwards lands no earlier, within what a player can reach.
pub proof fn seeking_further_lands_no_earlier(position_ms: u32, near: i64, far: i64)
    requires
        near <= far,
        position_ms + offset_ms(far) <= u32::MAX,
    ensures
        crate::position::seek_target(position_ms as int, near) <= crate::position::seek_target(
            position_ms as int,
            far,
        ),
{
}

/// A request for an absolute position lands on its whole milliseconds.
pub proof fn an_absolute_position_lands_where_it_says(position_micros: i64)
    ensures
        crate::position::position_target(position_micros) == landing(offset_ms(position_micros)),
{
}

/// Cutting a position down keeps its low bits.
pub proof fn cutting_keeps_the_low_bits(x: int)
    requires
        x >= 0,
    ensures
        crate::position::wrapped_u32(x) == x % 0x1_0000_0000,
        crate::position::wrapped_u64(x) == x % 0x1_0000_0000_0000_0000,
        x <= u32::MAX ==> crate::position::wrapped_u32(x) == x,
        x <= u64::MAX ==> crate::position::wrapped_u64(x) == x,
{
}

} // verus!
