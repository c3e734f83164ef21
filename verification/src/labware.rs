//! Labware: the tracked physical items.
//!
//! A labware always resolves to a valid location reference — either a real
//! location or the unknown sentinel; it is never locationless.

use crate::errors::NotFoundError;
use crate::errors::PersistenceError;
use crate::location::Location;
use crate::location::UNKNOWN_LOCATION_ID;
use crate::store;
use crate::store::Store;
use crate::text;
use vstd::prelude::*;
use vstd::string::*;

verus! {

/// A tracked physical item: a caller-supplied barcode and the location that
/// holds it.
#[derive(Debug, PartialEq)]
pub struct Labware {
    /// Store-assigned identifier.
    pub id: u32,
    /// Caller-supplied barcode; not derived.
    pub barcode: String,
    /// Identifier of the location holding this labware.
    pub location_id: u32,
}

impl Labware {
    /// An in-memory labware.  Without a location it is attributed to the
    /// unknown-location sentinel; it never fails.
    pub fn new(id: u32, barcode: String, location: Option<&Location>) -> (r: Labware)
        ensures
            r.id == id,
            r.barcode == barcode,
            location matches Some(l) ==> r.location_id == l.id,
            location is None ==> r.location_id == UNKNOWN_LOCATION_ID,
    {
        let location_id = match location {
            Some(l) => l.id,
            None => UNKNOWN_LOCATION_ID,
        };
        Labware { id, barcode, location_id }
    }

    /// Inserts a labware row, then re-fetches the referenced location as a
    /// referential-integrity check: a missing location row fails with a
    /// persistence error rather than defaulting to the unknown sentinel, and
    /// a created labware is homed to exactly the given location.
    pub fn create(barcode: String, location_id: u32, connection: &mut Store) -> (r: Result<
        Labware,
        PersistenceError,
    >)
        ensures
            r matches Ok(l) ==> l.barcode == barcode && l.location_id == location_id,
    {
        let rowid = match store::insert_labware(connection, &barcode, location_id) {
            Ok(v) => v,
            Err(e) => {
                return Err(store::persistence_error(&e));
            },
        };
        let id = store::rowid_to_id(rowid);
        let location = match store::select_location_by_id(connection, location_id) {
            Ok(row) => Location::from_row(row),
            Err(e) => {
                return Err(store::persistence_error(&e));
            },
        };
        Ok(Labware::new(id, barcode, Some(&location)))
    }

    /// Rewrites the labware row's location, then re-fetches the referenced
    /// location as a referential-integrity check, and returns the entity
    /// reflecting exactly the requested location — never silently re-homed.
    pub fn update(labware: &Labware, connection: &mut Store) -> (r: Result<
        Labware,
        PersistenceError,
    >)
        ensures
            r matches Ok(l) ==> l.id == labware.id && l.barcode == labware.barcode
                && l.location_id == labware.location_id,
    {
        match store::update_labware_location(connection, labware.id, labware.location_id) {
            Ok(_) => (),
            Err(e) => {
                return Err(store::persistence_error(&e));
            },
        }
        let location = match store::select_location_by_id(connection, labware.location_id) {
            Ok(row) => Location::from_row(row),
            Err(e) => {
                return Err(store::persistence_error(&e));
            },
        };
        Ok(Labware::new(labware.id, labware.barcode.clone(), Some(&location)))
    }

    /// Looks up labware by barcode.  A found labware carries exactly the
    /// queried barcode: the store's own text comparison may be looser (a
    /// collating sequence decides it), so the fetched key is re-checked
    /// here.  A zero-row result, a mismatched row, and any other store
    /// failure on this lookup path all surface as a `NotFoundError`, never
    /// as a raw store signal.
    pub fn find_by_barcode(barcode: String, connection: &mut Store) -> (r: Result<
        Labware,
        NotFoundError,
    >)
        ensures
            r matches Ok(l) ==> l.barcode@ == barcode@,
            r matches Err(e) ==> e.message@ == "Labware not found"@,
    {
        let outcome = store::select_labware_by_barcode(connection, &barcode);
        match Labware::from_lookup(outcome) {
            Ok(found) => {
                if text::str_eq(found.barcode.as_str(), barcode.as_str()) {
                    Ok(found)
                } else {
                    Err(NotFoundError { message: String::from_str("Labware not found") })
                }
            },
            Err(e) => Err(e),
        }
    }

    /// Translates one store reply into the result of a labware lookup: a row
    /// becomes the labware it describes; no row, or a store failure, becomes
    /// a `NotFoundError`.
    pub fn from_lookup(outcome: Result<Option<(u32, String, u32)>, sqlx::Error>) -> (r: Result<
        Labware,
        NotFoundError,
    >)
        ensures
            outcome matches Ok(Some(row)) ==> (r matches Ok(l) && l == (Labware {
                id: row.0,
                barcode: row.1,
                location_id: row.2,
            })),
            !(outcome matches Ok(Some(_))) ==> (r matches Err(e) && e.message@
                == "Labware not found"@),
    {
        match outcome {
            Ok(Some((id, barcode, location_id))) => Ok(Labware { id, barcode, location_id }),
            _ => Err(NotFoundError { message: String::from_str("Labware not found") }),
        }
    }
}

} // verus!
