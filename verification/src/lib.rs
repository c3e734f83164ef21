//! Core domain model for a laboratory inventory service that tracks labware
//! and the locations that contain it.
//!
//! The library covers the entities `LocationType`, `Location` and `Labware`,
//! the validation rule for location names, the deterministic barcode
//! derivation, the reserved "unknown location" sentinel, and the operations
//! that create, look up and update entities against a relational store.
//! The store itself is an external collaborator reached through [`store::Store`].

pub mod barcode;
pub mod errors;
pub mod labware;
pub mod location;
pub mod location_type;
pub mod scan;
pub mod store;
mod text;
pub mod validation;
