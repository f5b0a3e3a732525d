//! The `Star` domain entity and the catalog-record validation gate.

use vstd::prelude::*;
use starstuff_types::angle::Angle;
use starstuff_types::coord::Declination;
use starstuff_types::coord::Equitorial;
use starstuff_types::coord::RightAscension;
use crate::coordinates::StarCoordinates;
use crate::error::StarError;

verus! {

/// What the catalog adapter reads of a raw catalog record: the identifier,
/// the two astrometric angles and the proper name, each independently
/// optional. The surrounding catalog file format and its parsing belong to
/// the catalog collaborator; the angles arrive here already wrapped as
/// radian-tagged values.
#[derive(Clone, Debug)]
pub struct CatalogRecord {
    pub hipparcos_id: Option<usize>,
    pub right_ascension_rad: Option<Angle>,
    pub declination_rad: Option<Angle>,
    pub proper_name: Option<String>,
}

impl CatalogRecord {
    /// A record is complete when the identifier, the right ascension and the
    /// declination are all present; the proper name is never required.
    pub open spec fn is_complete(self) -> bool {
        &&& self.hipparcos_id is Some
        &&& self.right_ascension_rad is Some
        &&& self.declination_rad is Some
    }
}

/// A single astronomical object: a stable catalog identifier, an optional
/// proper name, and a position tagged by the coordinate system it was
/// produced in.
#[derive(Clone, Debug)]
pub struct Star {
    pub coordinates: StarCoordinates,
    pub name: Option<String>,
    pub id: usize,
}

impl Star {
    /// The star that explicit construction yields: the given identifier and
    /// name, with the two angles stored as an equatorial position.
    pub open spec fn spec_from_fields(
        id: usize,
        right_ascension: Angle,
        declination: Angle,
        name: Option<String>,
    ) -> Star {
        Star {
            coordinates: StarCoordinates::Equitorial(Equitorial {
                right_ascension: RightAscension(right_ascension),
                declination: Declination(declination),
            }),
            name,
            id,
        }
    }

    /// Build a `Star` from already-known right ascension and declination.
    /// Always succeeds; no range validation is performed here (angle
    /// normalization is the angle collaborator's responsibility).
    pub fn from_fields(
        id: usize,
        right_ascension: Angle,
        declination: Angle,
        name: Option<String>,
    ) -> (r: Star)
        ensures
            r == Star::spec_from_fields(id, right_ascension, declination, name),
    {
        Star {
            coordinates: StarCoordinates::Equitorial(Equitorial {
                right_ascension: RightAscension(right_ascension),
                declination: Declination(declination),
            }),
            name,
            id,
        }
    }

    /// What the catalog adapter returns: a star built from the record's
    /// identifier, name and angles when the record is complete, the
    /// incomplete-record error otherwise.
    pub open spec fn spec_try_from_record(record: CatalogRecord) -> Result<Star, StarError> {
        match (record.hipparcos_id, record.right_ascension_rad, record.declination_rad) {
            (Some(id), Some(ra), Some(dec)) => Ok(
                Star::spec_from_fields(id, ra, dec, record.proper_name),
            ),
            _ => Err(StarError::IncompleteCatalogRecord),
        }
    }

    /// Validation gate: map a raw catalog record to a `Star`.
    ///
    /// Succeeds exactly when identifier, right ascension and declination are
    /// all present, storing the two angles as an equatorial position; a
    /// record missing any of the three fails with one undifferentiated
    /// incomplete-record error. Presence is all that is gated on: values are
    /// never range-checked, and the proper name may be absent.
    pub fn try_from_record(record: CatalogRecord) -> (r: Result<Star, StarError>)
        ensures
            r == Star::spec_try_from_record(record),
    {
        match (record.hipparcos_id, record.right_ascension_rad, record.declination_rad) {
            (Some(id), Some(ra), Some(dec)) => Ok(
                Star::from_fields(id, ra, dec, record.proper_name),
            ),
            _ => Err(StarError::IncompleteCatalogRecord),
        }
    }

    /// Replace the proper name; identifier and position are untouched.
    pub fn set_name(&mut self, name: Option<String>)
        ensures
            final(self).name == name,
            final(self).id == old(self).id,
            final(self).coordinates == old(self).coordinates,
    {
        self.name = name;
    }

    /// Replace the position wholesale; a stored position is never re-tagged
    /// or edited in place across systems.
    pub fn replace_coordinates(&mut self, coordinates: StarCoordinates)
        ensures
            final(self).coordinates == coordinates,
            final(self).id == old(self).id,
            final(self).name == old(self).name,
    {
        self.coordinates = coordinates;
    }
}

/// Law: explicit construction is total and deterministic. The built star
/// carries exactly the given identifier and name, and its position narrows
/// back to the equatorial pair that was supplied.
pub proof fn lemma_from_fields_narrows_as_equitorial(
    id: usize,
    right_ascension: Angle,
    declination: Angle,
    name: Option<String>,
)
    ensures
        Star::spec_from_fields(id, right_ascension, declination, name).id == id,
        Star::spec_from_fields(id, right_ascension, declination, name).name == name,
        Star::spec_from_fields(id, right_ascension, declination, name).coordinates
            .spec_into_equitorial() == Ok::<Equitorial, StarError>(Equitorial {
            right_ascension: RightAscension(right_ascension),
            declination: Declination(declination),
        }),
{
}

/// Law: the adapter succeeds on every complete record, and the star it
/// yields carries the record's identifier, its (possibly absent) proper name
/// and its two angles as an equatorial position.
pub proof fn lemma_adapter_complete_record_succeeds(record: CatalogRecord)
    requires
        record.is_complete(),
    ensures
        Star::spec_try_from_record(record) == Ok::<Star, StarError>(Star::spec_from_fields(
            record.hipparcos_id->Some_0,
            record.right_ascension_rad->Some_0,
            record.declination_rad->Some_0,
            record.proper_name,
        )),
{
}

/// Law: the adapter fails with the one incomplete-record error on every
/// record missing the identifier, the right ascension or the declination.
pub proof fn lemma_adapter_incomplete_record_fails(record: CatalogRecord)
    requires
        !record.is_complete(),
    ensures
        Star::spec_try_from_record(record) == Err::<Star, StarError>(
            StarError::IncompleteCatalogRecord,
        ),
{
}

/// Law: presence or absence of the proper name never affects acceptance.
/// Two records that agree on identifier and angles either both map to a
/// star or both fail, whatever their names.
pub proof fn lemma_adapter_ignores_name(a: CatalogRecord, b: CatalogRecord)
    requires
        a.hipparcos_id == b.hipparcos_id,
        a.right_ascension_rad == b.right_ascension_rad,
        a.declination_rad == b.declination_rad,
    ensures
        Star::spec_try_from_record(a) is Ok <==> Star::spec_try_from_record(b) is Ok,
{
}

/// Law: the adapter is a pure function of the record. Two runs on records
/// with identical field values yield identical results; there is no hidden
/// state.
pub proof fn lemma_adapter_deterministic(a: CatalogRecord, b: CatalogRecord)
    requires
        a.hipparcos_id == b.hipparcos_id,
        a.right_ascension_rad == b.right_ascension_rad,
        a.declination_rad == b.declination_rad,
        a.proper_name == b.proper_name,
    ensures
        Star::spec_try_from_record(a) == Star::spec_try_from_record(b),
{
}

} // verus!
