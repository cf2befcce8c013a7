//! Exact representations of unit scale factors.
//!
//! Every scale-based domain gives each of its units a factor to the domain's
//! base unit. The tables are exact rationals (with an optional factor of pi,
//! needed only for plane angles, whose degree factor is pi/180), so the
//! tables themselves and the conversion rules over them can be stated and
//! proved exactly. Temperature is affine rather than multiplicative and has
//! its own map type.

use vstd::prelude::*;

verus! {

/// An exact scale factor: the value `num / den`, times pi when `pi` is set.
#[derive(Clone, Copy, Debug, PartialEq, Eq, Structural)]
pub struct Factor {
    pub num: u64,
    pub den: u64,
    pub pi: bool,
}

impl Factor {
    /// A factor is well formed when numerator and denominator are positive.
    pub open spec fn wf(self) -> bool {
        self.num > 0 && self.den > 0
    }
}

/// The affine map of one temperature unit: a value `v` in the unit maps to
/// Celsius as `(v - off_num/off_den) * scale_num/scale_den`, and a Celsius
/// value `c` maps back into the unit as `c * scale_den/scale_num +
/// off_num/off_den`.
#[derive(Clone, Copy, Debug, PartialEq, Eq, Structural)]
pub struct AffineMap {
    pub off_num: u64,
    pub off_den: u64,
    pub scale_num: u64,
    pub scale_den: u64,
}

impl AffineMap {
    /// An affine map is well formed when its denominators and its scale
    /// numerator are positive (the offset numerator may be zero).
    pub open spec fn wf(self) -> bool {
        self.off_den > 0 && self.scale_num > 0 && self.scale_den > 0
    }
}

} // verus!
