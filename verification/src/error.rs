//! The two ways an operation of this library can fail.

use vstd::prelude::*;
use crate::coordinates::CoordinateSystem;

verus! {

/// Error taxonomy of the library.
///
/// * `WrongCoordinateSystem`: narrowing asked for a coordinate system other
///   than the one the value holds; the payload records both systems.
/// * `IncompleteCatalogRecord`: the catalog adapter found the identifier, the
///   right ascension or the declination absent from a record.
#[derive(Copy, Clone, Debug, PartialEq, Eq, Structural)]
pub enum StarError {
    WrongCoordinateSystem { requested: CoordinateSystem, found: CoordinateSystem },
    IncompleteCatalogRecord,
}

} // verus!
