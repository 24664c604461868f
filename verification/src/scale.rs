//! The scale that a consumer reports, in hundredths.

use vstd::prelude::*;

verus! {

/// The scale of a window before its consumer reports one.
pub const INITIAL_SCALE: u32 = 100;

/// The smallest scale that is adopted.
pub const MIN_SCALE: u32 = 25;

/// The largest scale that is adopted.
pub const MAX_SCALE: u32 = 800;

/// The scale that a report leads to, if it leads to one: none for zero, else the
/// nearest that is within the limits.
pub open spec fn adopted(percent: u32) -> Option<u32> {
    if percent == 0 {
        None
    } else if percent < MIN_SCALE {
        Some(MIN_SCALE)
    } else if percent > MAX_SCALE {
        Some(MAX_SCALE)
    } else {
        Some(percent)
    }
}

/// The scale that a report leads to.
pub fn adopt(percent: u32) -> (scale: Option<u32>)
    ensures
        scale == adopted(percent),
{
    if percent == 0 {
        None
    } else if percent < MIN_SCALE {
        Some(MIN_SCALE)
    } else if percent > MAX_SCALE {
        Some(MAX_SCALE)
    } else {
        Some(percent)
    }
}

/// An adopted scale is within the limits, and reporting it again leads to itself.
pub proof fn adopted_scales_are_stable(percent: u32)
    ensures
        adopted(percent) matches Some(scale) ==> MIN_SCALE <= scale <= MAX_SCALE && adopted(scale)
            == Some(scale),
{
}

/// A report leads to the nearest scale from a quarter to eight: no other one within the
/// limits is nearer. Only a report of zero leads to none.
pub proof fn the_nearest_scale_is_adopted(percent: u32, other: u32)
    requires
        25 <= other <= 800,
    ensures
        adopted(percent) is None <==> percent == 0,
        adopted(percent) matches Some(scale) ==> {
            &&& 25 <= scale <= 800
            &&& percent <= scale ==> scale - percent <= if other >= percent {
                other - percent
            } else {
                percent - other
            }
            &&& scale <= percent ==> percent - scale <= if other >= percent {
                other - percent
            } else {
                percent - other
            }
        },
        25 <= percent <= 800 ==> adopted(percent) == Some(percent),
        INITIAL_SCALE == 100,
{
}

} // verus!
