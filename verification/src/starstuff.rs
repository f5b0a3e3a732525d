//! Declarations of the `starstuff_types` collaborator types that the domain
//! model stores and wraps. The library performs no angle or coordinate math:
//! these values are carried through untouched.

use vstd::prelude::*;
use starstuff_types::angle::Angle;
use starstuff_types::coord::Cartesian;
use starstuff_types::coord::Declination;
use starstuff_types::coord::Equitorial;
use starstuff_types::coord::Horizontal;
use starstuff_types::coord::Polar;
use starstuff_types::coord::RightAscension;

verus! {

/// Relies on `starstuff_types::angle::Angle`: a unit-tagged angle scalar.
/// Held opaquely; this library never reads the scalar inside.
#[verifier::external_type_specification]
#[verifier::external_body]
pub struct ExAngle(Angle);

/// Relies on `starstuff_types::coord::Cartesian`: a rectangular position.
/// Held opaquely and only carried through.
#[verifier::external_type_specification]
#[verifier::external_body]
pub struct ExCartesian(Cartesian);

/// Relies on `starstuff_types::coord::Horizontal`: an observer-relative
/// position. Held opaquely and only carried through.
#[verifier::external_type_specification]
#[verifier::external_body]
pub struct ExHorizontal(Horizontal);

/// Relies on `starstuff_types::coord::Polar`: a stereographic-projection
/// position. Held opaquely and only carried through.
#[verifier::external_type_specification]
#[verifier::external_body]
pub struct ExPolar(Polar);

/// Relies on `starstuff_types::coord::RightAscension`: a newtype around
/// `Angle`. Declared with its field visible so that building an equatorial
/// position is verified code.
#[verifier::external_type_specification]
pub struct ExRightAscension(RightAscension);

/// Relies on `starstuff_types::coord::Declination`: a newtype around `Angle`.
/// Declared with its field visible so that building an equatorial position is
/// verified code.
#[verifier::external_type_specification]
pub struct ExDeclination(Declination);

/// Relies on `starstuff_types::coord::Equitorial`: right ascension paired
/// with declination. Declared with its fields visible so that building an
/// equatorial position is verified code.
#[verifier::external_type_specification]
pub struct ExEquitorial(Equitorial);

} // verus!
