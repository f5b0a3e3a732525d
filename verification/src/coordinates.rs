//! The tagged union over the four supported coordinate systems, and the
//! fallible narrowing operations that extract one concrete system from it.

use vstd::prelude::*;
use starstuff_types::coord::Cartesian;
use starstuff_types::coord::Equitorial;
use starstuff_types::coord::Horizontal;
use starstuff_types::coord::Polar;
use crate::error::StarError;

verus! {

/// The tag of a `StarCoordinates` value: which of the four coordinate
/// systems it holds.
#[derive(Copy, Clone, Debug, PartialEq, Eq, Structural)]
pub enum CoordinateSystem {
    Cartesian,
    Equitorial,
    Horizontal,
    Stereo,
}

/// A position in exactly one of the four supported coordinate systems.
///
/// A value always holds exactly one variant; extracting a concrete system
/// goes through the `into_*` narrowing methods, which fail rather than
/// reinterpret a value across systems.
#[derive(Copy, Clone, Debug)]
pub enum StarCoordinates {
    Cartesian(Cartesian),
    Equitorial(Equitorial),
    Horizontal(Horizontal),
    Stereo(Polar),
}

impl StarCoordinates {
    /// The coordinate system this value is tagged with.
    pub open spec fn system(self) -> CoordinateSystem {
        match self {
            StarCoordinates::Cartesian(_) => CoordinateSystem::Cartesian,
            StarCoordinates::Equitorial(_) => CoordinateSystem::Equitorial,
            StarCoordinates::Horizontal(_) => CoordinateSystem::Horizontal,
            StarCoordinates::Stereo(_) => CoordinateSystem::Stereo,
        }
    }

    /// Kind query: callers that cannot guarantee the tag ahead of time
    /// inspect it here before narrowing.
    pub fn kind(&self) -> (r: CoordinateSystem)
        ensures
            r == self.system(),
    {
        match self {
            StarCoordinates::Cartesian(_) => CoordinateSystem::Cartesian,
            StarCoordinates::Equitorial(_) => CoordinateSystem::Equitorial,
            StarCoordinates::Horizontal(_) => CoordinateSystem::Horizontal,
            StarCoordinates::Stereo(_) => CoordinateSystem::Stereo,
        }
    }

    /// What narrowing to the Cartesian system returns: the stored value when
    /// the tag is `Cartesian`, otherwise the wrong-system error naming both
    /// the requested and the found system.
    pub open spec fn spec_into_cartesian(self) -> Result<Cartesian, StarError> {
        match self {
            StarCoordinates::Cartesian(c) => Ok(c),
            _ => Err(StarError::WrongCoordinateSystem {
                requested: CoordinateSystem::Cartesian,
                found: self.system(),
            }),
        }
    }

    /// Narrow to the Cartesian system.
    pub fn into_cartesian(self) -> (r: Result<Cartesian, StarError>)
        ensures
            r == self.spec_into_cartesian(),
    {
        match self {
            StarCoordinates::Cartesian(c) => Ok(c),
            _ => Err(StarError::WrongCoordinateSystem {
                requested: CoordinateSystem::Cartesian,
                found: self.kind(),
            }),
        }
    }

    /// What narrowing to the equatorial system returns.
    pub open spec fn spec_into_equitorial(self) -> Result<Equitorial, StarError> {
        match self {
            StarCoordinates::Equitorial(c) => Ok(c),
            _ => Err(StarError::WrongCoordinateSystem {
                requested: CoordinateSystem::Equitorial,
                found: self.system(),
            }),
        }
    }

    /// Narrow to the equatorial system.
    pub fn into_equitorial(self) -> (r: Result<Equitorial, StarError>)
        ensures
            r == self.spec_into_equitorial(),
    {
        match self {
            StarCoordinates::Equitorial(c) => Ok(c),
            _ => Err(StarError::WrongCoordinateSystem {
                requested: CoordinateSystem::Equitorial,
                found: self.kind(),
            }),
        }
    }

    /// What narrowing to the horizontal system returns.
    pub open spec fn spec_into_horizontal(self) -> Result<Horizontal, StarError> {
        match self {
            StarCoordinates::Horizontal(c) => Ok(c),
            _ => Err(StarError::WrongCoordinateSystem {
                requested: CoordinateSystem::Horizontal,
                found: self.system(),
            }),
        }
    }

    /// Narrow to the horizontal system.
    pub fn into_horizontal(self) -> (r: Result<Horizontal, StarError>)
        ensures
            r == self.spec_into_horizontal(),
    {
        match self {
            StarCoordinates::Horizontal(c) => Ok(c),
            _ => Err(StarError::WrongCoordinateSystem {
                requested: CoordinateSystem::Horizontal,
                found: self.kind(),
            }),
        }
    }

    /// What narrowing to the stereographic system returns.
    pub open spec fn spec_into_stereo(self) -> Result<Polar, StarError> {
        match self {
            StarCoordinates::Stereo(c) => Ok(c),
            _ => Err(StarError::WrongCoordinateSystem {
                requested: CoordinateSystem::Stereo,
                found: self.system(),
            }),
        }
    }

    /// Narrow to the stereographic (polar projection) system.
    pub fn into_stereo(self) -> (r: Result<Polar, StarError>)
        ensures
            r == self.spec_into_stereo(),
    {
        match self {
            StarCoordinates::Stereo(c) => Ok(c),
            _ => Err(StarError::WrongCoordinateSystem {
                requested: CoordinateSystem::Stereo,
                found: self.kind(),
            }),
        }
    }
}

/// Law: narrowing a Cartesian-tagged value to the Cartesian system returns
/// exactly the stored value, never a recomputation.
pub proof fn lemma_round_trip_cartesian(v: Cartesian)
    ensures
        StarCoordinates::Cartesian(v).spec_into_cartesian() == Ok::<Cartesian, StarError>(v),
{
}

/// Law: narrowing an equatorial-tagged value to the equatorial system
/// returns exactly the stored value.
pub proof fn lemma_round_trip_equitorial(v: Equitorial)
    ensures
        StarCoordinates::Equitorial(v).spec_into_equitorial() == Ok::<Equitorial, StarError>(v),
{
}

/// Law: narrowing a horizontal-tagged value to the horizontal system returns
/// exactly the stored value.
pub proof fn lemma_round_trip_horizontal(v: Horizontal)
    ensures
        StarCoordinates::Horizontal(v).spec_into_horizontal() == Ok::<Horizontal, StarError>(v),
{
}

/// Law: narrowing a stereographic-tagged value to the stereographic system
/// returns exactly the stored value.
pub proof fn lemma_round_trip_stereo(v: Polar)
    ensures
        StarCoordinates::Stereo(v).spec_into_stereo() == Ok::<Polar, StarError>(v),
{
}

/// Law: narrowing to the Cartesian system fails with the wrong-system error,
/// naming both systems, whenever the value holds any other system.
pub proof fn lemma_mismatch_cartesian(c: StarCoordinates)
    requires
        c.system() != CoordinateSystem::Cartesian,
    ensures
        c.spec_into_cartesian() == Err::<Cartesian, StarError>(StarError::WrongCoordinateSystem {
            requested: CoordinateSystem::Cartesian,
            found: c.system(),
        }),
{
}

/// Law: narrowing to the equatorial system fails with the wrong-system error
/// whenever the value holds any other system.
pub proof fn lemma_mismatch_equitorial(c: StarCoordinates)
    requires
        c.system() != CoordinateSystem::Equitorial,
    ensures
        c.spec_into_equitorial() == Err::<Equitorial, StarError>(StarError::WrongCoordinateSystem {
            requested: CoordinateSystem::Equitorial,
            found: c.system(),
        }),
{
}

/// Law: narrowing to the horizontal system fails with the wrong-system error
/// whenever the value holds any other system.
pub proof fn lemma_mismatch_horizontal(c: StarCoordinates)
    requires
        c.system() != CoordinateSystem::Horizontal,
    ensures
        c.spec_into_horizontal() == Err::<Horizontal, StarError>(StarError::WrongCoordinateSystem {
            requested: CoordinateSystem::Horizontal,
            found: c.system(),
        }),
{
}

/// Law: narrowing to the stereographic system fails with the wrong-system
/// error whenever the value holds any other system.
pub proof fn lemma_mismatch_stereo(c: StarCoordinates)
    requires
        c.system() != CoordinateSystem::Stereo,
    ensures
        c.spec_into_stereo() == Err::<Polar, StarError>(StarError::WrongCoordinateSystem {
            requested: CoordinateSystem::Stereo,
            found: c.system(),
        }),
{
}

} // verus!
