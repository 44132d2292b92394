use vstd::prelude::*;

pub mod button;
pub mod color;
pub mod draw;
pub mod graphing;
pub mod slider;

pub use color::Color;

verus! {

/// Largest magnitude, in pixels or data units, that widget geometry may take.
/// Keeping every coordinate, extent and data value within this bound keeps all
/// of the pixel arithmetic far away from `i64` overflow.
pub const COORD_LIMIT: i64 = 1048576;

/// A value fit to serve as a coordinate, extent or data value.
pub open spec fn in_coord_range(v: i64) -> bool {
    -COORD_LIMIT <= v <= COORD_LIMIT
}

} // verus!
