//! Locations: the physical places that hold labware.
//!
//! A location's name must meet the validation rule, and its barcode is
//! derived from the name and the store-assigned identifier.  A reserved
//! "unknown location" sentinel stands in when no real location is supplied.

use crate::barcode;
use crate::errors::CreateError;
use crate::errors::NameFormatError;
use crate::errors::NotFoundError;
use crate::store;
use crate::store::Store;
use crate::text;
use crate::validation;
use vstd::prelude::*;
use vstd::string::*;

verus! {

/// Reserved identifier of the "unknown location" sentinel.
pub const UNKNOWN_LOCATION_ID: u32 = 999;

/// A physical place that can hold labware, belonging to one location type.
#[derive(Debug, PartialEq)]
pub struct Location {
    /// Store-assigned identifier.
    pub id: u32,
    /// Human-supplied name: 1 to 60 characters from the name alphabet.
    pub name: String,
    /// Derived barcode; unset until the identifier is known.
    pub barcode: Option<String>,
    /// Identifier of the location type this location belongs to.
    pub location_type_id: u32,
}

impl Location {
    /// An in-memory location.  Fails, before anything else happens, when the
    /// name does not meet the validation rule.
    pub fn new(id: u32, name: String, location_type_id: u32, barcode: Option<String>) -> (r:
        Result<Location, NameFormatError>)
        ensures
            validation::valid_name(name@) <==> r is Ok,
            r matches Ok(l) ==> l == (Location { id, name, barcode, location_type_id }),
            r matches Err(e) ==> e.message@ == "Invalid name format"@,
    {
        if !validation::validate(name.as_str()) {
            return Err(NameFormatError { message: String::from_str("Invalid name format") });
        }
        Ok(Location { id, name, barcode, location_type_id })
    }

    /// Derives this location's barcode from its name and identifier, stores
    /// it on the location, and returns it.
    pub fn create_barcode(&mut self) -> (r: String)
        ensures
            r@ == barcode::barcode_chars(old(self).name@, old(self).id as int),
            final(self).id == old(self).id,
            final(self).name == old(self).name,
            final(self).location_type_id == old(self).location_type_id,
            final(self).barcode matches Some(b) && b == r,
    {
        let code = barcode::generate(self.name.as_str(), self.id);
        self.barcode = Some(code.clone());
        code
    }

    /// The reserved "unknown location" sentinel: identifier 999, named
    /// `UNKNOWN`, barcode `lw-unknown-999`.  Not required to exist as a row
    /// in the store; every call returns the same value.
    pub fn unknown() -> (r: Location)
        ensures
            r.id == UNKNOWN_LOCATION_ID,
            r.name@ == "UNKNOWN"@,
            r.location_type_id == 1,
            r.barcode matches Some(b) && b@ == "lw-unknown-999"@,
            r.barcode matches Some(b) && b@ == barcode::barcode_chars(r.name@, r.id as int),
            validation::valid_name(r.name@),
    {
        proof {
            lemma_unknown_location_well_formed();
        }
        Location {
            id: UNKNOWN_LOCATION_ID,
            name: String::from_str("UNKNOWN"),
            barcode: Some(String::from_str("lw-unknown-999")),
            location_type_id: 1,
        }
    }

    /// Two-phase creation.  The name is validated before any store access;
    /// then a row is inserted, the assigned identifier is read back, the
    /// barcode is derived from the name and that identifier, and the row's
    /// barcode column is written.  The returned location carries exactly the
    /// given name and type, and a barcode derived from its own identifier.
    pub fn create(name: String, location_type_id: u32, connection: &mut Store) -> (r: Result<
        Location,
        CreateError,
    >)
        ensures
            !validation::valid_name(name@) ==> (r matches Err(e) && e matches
                CreateError::Validation(v) && v.message@ == "Invalid name format"@),
            r matches Err(CreateError::Validation(_)) ==> !validation::valid_name(name@),
            r matches Ok(l) ==> {
                &&& validation::valid_name(name@)
                &&& l.name == name
                &&& l.location_type_id == location_type_id
                &&& l.barcode matches Some(b) && b@ == barcode::barcode_chars(name@, l.id as int)
            },
    {
        if !validation::validate(name.as_str()) {
            return Err(
                CreateError::Validation(
                    NameFormatError { message: String::from_str("Invalid name format") },
                ),
            );
        }
        let rowid = match store::insert_location(connection, &name, location_type_id) {
            Ok(v) => v,
            Err(e) => {
                return Err(CreateError::Persistence(store::persistence_error(&e)));
            },
        };
        let id = store::rowid_to_id(rowid);
        let mut location = match Location::new(id, name, location_type_id, None) {
            Ok(l) => l,
            Err(e) => {
                return Err(CreateError::Validation(e));
            },
        };
        let code = location.create_barcode();
        match store::update_location_barcode(connection, &code, id) {
            Ok(_) => Ok(location),
            Err(e) => Err(CreateError::Persistence(store::persistence_error(&e))),
        }
    }

    /// Looks up a location by barcode.  A found location carries exactly the
    /// queried barcode: the store's own text comparison may be looser (a
    /// collating sequence decides it), so the fetched key is re-checked
    /// here.  A zero-row result, a mismatched row, and any other store
    /// failure on this lookup path all surface as a `NotFoundError`, never
    /// as a raw store signal.
    pub fn find_by_barcode(barcode: String, connection: &mut Store) -> (r: Result<
        Location,
        NotFoundError,
    >)
        ensures
            r matches Ok(l) ==> (l.barcode matches Some(b) && b@ == barcode@),
            r matches Err(e) ==> e.message@ == "Location not found"@,
    {
        let outcome = store::select_location_by_barcode(connection, &barcode);
        match Location::from_lookup(outcome) {
            Ok(found) => {
                let key_matches = match &found.barcode {
                    Some(b) => text::str_eq(b.as_str(), barcode.as_str()),
                    None => false,
                };
                if key_matches {
                    Ok(found)
                } else {
                    Err(NotFoundError { message: String::from_str("Location not found") })
                }
            },
            Err(e) => Err(e),
        }
    }

    /// Translates one store reply into the result of a location lookup: a
    /// row becomes the location it describes; no row, or a store failure,
    /// becomes a `NotFoundError`.
    pub fn from_lookup(outcome: Result<Option<(u32, String, Option<String>, u32)>, sqlx::Error>)
        -> (r: Result<Location, NotFoundError>)
        ensures
            outcome matches Ok(Some(row)) ==> (r matches Ok(l) && l == (Location {
                id: row.0,
                name: row.1,
                barcode: row.2,
                location_type_id: row.3,
            })),
            !(outcome matches Ok(Some(_))) ==> (r matches Err(e) && e.message@
                == "Location not found"@),
    {
        match outcome {
            Ok(Some((id, name, barcode, location_type_id))) => Ok(
                Location { id, name, barcode, location_type_id },
            ),
            _ => Err(NotFoundError { message: String::from_str("Location not found") }),
        }
    }

    /// The location described by one store row.
    pub fn from_row(row: (u32, String, Option<String>, u32)) -> (r: Location)
        ensures
            r == (Location { id: row.0, name: row.1, barcode: row.2, location_type_id: row.3 }),
    {
        let (id, name, barcode, location_type_id) = row;
        Location { id, name, barcode, location_type_id }
    }
}

impl Default for Location {
    /// The default location: identifier 1, named "Location1", no barcode,
    /// location type 1.
    fn default() -> (r: Location)
        ensures
            r.id == 1,
            r.name@ == "Location1"@,
            r.barcode is None,
            r.location_type_id == 1,
    {
        Location {
            id: 1,
            name: String::from_str("Location1"),
            barcode: None,
            location_type_id: 1,
        }
    }
}

/// The sentinel's fields agree with the library's own rules: `UNKNOWN` is a
/// well-formed name, and deriving a barcode from the name `UNKNOWN` and the
/// identifier 999 gives exactly `lw-unknown-999`.
pub proof fn lemma_unknown_location_well_formed()
    ensures
        validation::valid_name("UNKNOWN"@),
        barcode::barcode_chars("UNKNOWN"@, 999) == "lw-unknown-999"@,
{
    reveal_strlit("UNKNOWN");
    reveal_strlit("lw-unknown-999");
    let s = "UNKNOWN"@;
    assert forall|i: int| 0 <= i < s.len() implies validation::is_name_char(s[i]) by {
        if i == 0 {
            assert(s[0] == 'U');
        }
    }
    assert(barcode::trim_start(s) == s);
    assert(barcode::trim_end(s) == s);
    assert(barcode::map_slug(s) =~= seq!['u', 'n', 'k', 'n', 'o', 'w', 'n']);
    assert(barcode::decimal_digits(999) =~= seq!['9', '9', '9']) by {
        reveal_with_fuel(barcode::decimal_digits, 4);
    }
    assert(barcode::barcode_chars(s, 999) =~= "lw-unknown-999"@);
}

} // verus!
