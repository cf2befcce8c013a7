//! A unit-conversion engine: eight quantity domains (length, temperature,
//! area, volume, angle, time, mass, power), each a closed set of unit
//! variants with case-insensitive string aliases and an exact scale factor
//! to the domain's base unit, plus a dispatcher that picks the one domain
//! in which both symbols of a request parse.
//!
//! Scale factors are kept as exact rationals (an optional factor of pi for
//! plane angles), so that the tables and the conversion rules can be stated
//! and proved exactly; callers apply the factors in whatever numeric type
//! they need.

pub mod angle;
pub mod area;
pub mod dispatch;
pub mod factor;
pub mod laws;
pub mod length;
pub mod mass;
pub mod model;
pub mod power;
pub mod temperature;
pub mod text;
pub mod time;
pub mod volume;
