//! Location types: named categories of physical location.

use crate::errors::PersistenceError;
use crate::store;
use crate::store::Store;
use vstd::prelude::*;
use vstd::string::*;

verus! {

/// A category of physical location, e.g. "Freezer" or "Building".
#[derive(Debug, PartialEq)]
pub struct LocationType {
    /// Store-assigned identifier; immutable once persisted.
    pub id: u32,
    /// Name of the category.
    pub name: String,
}

impl LocationType {
    /// An in-memory location type with the given identifier and name.
    pub fn new(id: u32, name: String) -> (r: LocationType)
        ensures
            r == (LocationType { id, name }),
    {
        LocationType { id, name }
    }

    /// Inserts a location-type row and returns the entity populated with the
    /// identifier the store assigned.  A store failure is passed on as a
    /// persistence error.
    pub fn create(name: String, connection: &mut Store) -> (r: Result<
        LocationType,
        PersistenceError,
    >)
        ensures
            r matches Ok(t) ==> t.name == name,
    {
        let rowid = match store::insert_location_type(connection, &name) {
            Ok(v) => v,
            Err(e) => {
                return Err(store::persistence_error(&e));
            },
        };
        let id = store::rowid_to_id(rowid);
        Ok(LocationType::new(id, name))
    }
}

impl Default for LocationType {
    /// The default location type: identifier 1, named "Building".
    fn default() -> (r: LocationType)
        ensures
            r.id == 1,
            r.name@ == "Building"@,
    {
        LocationType { id: 1, name: String::from_str("Building") }
    }
}

} // verus!
