//! The supported resolutions of the cell hierarchy.

use vstd::prelude::*;

verus! {

/// The finest supported resolution: the supported discrete set is
/// 0 through 15.
pub const MAX_RESOLUTION: u8 = 15;

/// A resolution already checked to lie in the supported discrete set.
pub struct CellResolution {
    /// The resolution as a raw value; meaningful only when `wf` holds.
    pub value: u8,
}

impl CellResolution {
    /// The type's invariant: the value lies in the supported set.
    pub open spec fn wf(self) -> bool {
        self.value <= MAX_RESOLUTION
    }

    /// Validates a raw 8-bit resolution: exactly the values of the
    /// supported set are accepted.
    pub fn try_from_u8(res: u8) -> (r: Option<CellResolution>)
        ensures
            r is Some <==> res <= MAX_RESOLUTION,
            r matches Some(c) ==> c.wf() && c.value == res,
    {
        if res <= MAX_RESOLUTION {
            Some(CellResolution { value: res })
        } else {
            None
        }
    }
}

} // verus!
