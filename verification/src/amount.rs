//! Exact monetary quantities.

use vstd::prelude::*;

verus! {

/// An exact, fixed-point monetary quantity: a signed count of minor
/// currency units (for example cents, or ten-thousandths of a unit —
/// the caller picks one resolution and keeps it for a whole run).
/// Integer arithmetic keeps long event streams free of rounding drift;
/// the engine never touches floating point.
#[derive(Clone, Copy, Debug, PartialEq, Eq, Structural)]
pub struct Amount {
    /// The quantity, as a count of minor units.
    pub units: i64,
}

impl Amount {
    /// The zero quantity.
    pub fn zero() -> (r: Amount)
        ensures
            r.units == 0,
    {
        Amount { units: 0 }
    }

    /// The quantity of `units` minor units.
    pub fn from_units(units: i64) -> (r: Amount)
        ensures
            r.units == units,
    {
        Amount { units }
    }
}

} // verus!
