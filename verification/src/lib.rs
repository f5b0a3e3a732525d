//! A star domain model: a position tagged by the coordinate system it was
//! produced in, fallible narrowing from the tagged union back to a concrete
//! system, and a validation gate that turns raw catalog records into `Star`
//! entities only when the astrometrically required fields are present.
//!
//! Angle arithmetic and the concrete coordinate structs belong to the
//! `starstuff_types` crate; this library only tags, stores and narrows
//! already-computed values.

pub mod coordinates;
pub mod error;
pub mod star;
pub mod starstuff;
