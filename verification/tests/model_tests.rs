use labwhere::barcode;
use labwhere::labware::Labware;
use labwhere::location::Location;
use labwhere::location_type::LocationType;
use labwhere::scan::route;
use labwhere::scan::ScanRoute;
use labwhere::store::db_url;
use labwhere::validation;

#[test]
fn test_location_new() {
    let location = Location::new(
        1,
        "location 1".to_string(),
        1,
        Some("lw-location-1-1".to_string()),
    );
    let location = location.unwrap();
    assert_eq!(location.id, 1);
    assert_eq!(location.name, "location 1");
    assert_eq!(location.barcode.clone().unwrap(), "lw-location-1-1");
    assert_eq!(location.location_type_id, 1);
}

#[test]
fn test_location_names() {
    assert!(Location::new(1, "location 1".to_string(), 1, None).is_ok());
    assert!(Location::new(1, "location one".to_string(), 1, None).is_ok());
    assert!(Location::new(1, "location-one".to_string(), 1, None).is_ok());
    assert!(Location::new(1, "location-one one".to_string(), 1, None).is_ok());
    assert!(Location::new(1, "(A location)".to_string(), 1, None).is_ok());

    assert!(Location::new(1, "A location +++".to_string(), 1, None).is_err());
    assert!(Location::new(1, "A/location".to_string(), 1, None).is_err());
    assert!(Location::new(1, "A location ~".to_string(), 1, None).is_err());
}

#[test]
fn test_location_name_length() {
    assert!(Location::new(1, "".to_string(), 1, None).is_err());
    assert!(Location::new(1, "a".repeat(59), 1, None).is_ok());
    assert!(Location::new(1, "a".repeat(60), 1, None).is_ok());
    assert!(Location::new(1, "a".repeat(61), 1, None).is_err());
}

#[test]
fn test_barcode_sanitisation() {
    let mut location = Location::new(1, "location1".to_string(), 1, None).unwrap();
    location.create_barcode();

    assert_eq!("lw-location1-1", location.barcode.unwrap());

    location = Location::new(1, "location 1".to_string(), 1, None).unwrap();
    location.create_barcode();

    assert_eq!("lw-location-1-1", location.barcode.unwrap());

    location = Location::new(1, "Location1".to_string(), 1, None).unwrap();
    location.create_barcode();

    assert_eq!("lw-location1-1", location.barcode.unwrap());
}

#[test]
fn test_unknown_location() {
    let location = Location::unknown();
    assert_eq!(location.id, 999);
    assert_eq!(location.name, "UNKNOWN");
    assert_eq!(location.barcode.clone().unwrap(), "lw-unknown-999");
}

#[test]
fn test_unknown_location_stable() {
    assert_eq!(Location::unknown(), Location::unknown());
}

#[test]
fn test_labware_new() {
    let location: Location = Default::default();
    let labware = Labware::new(1, "lw-1".to_string(), Some(&location));
    assert_eq!(labware.id, 1);
    assert_eq!(labware.barcode, "lw-1");
    assert_eq!(labware.location_id, location.id);
}

#[test]
fn test_labware_no_location() {
    let labware = Labware::new(1, "lw-1".to_string(), None);
    assert_eq!(labware.id, 1);
    assert_eq!(labware.barcode, "lw-1");
    assert_eq!(labware.location_id, Location::unknown().id);
}

#[test]
fn test_location_type_new() {
    let location_type = LocationType::new(1, "Building".to_string());
    assert_eq!(location_type.id, 1);
    assert_eq!(location_type.name, "Building");
}

#[test]
fn test_location_type_default() {
    let location_type: LocationType = Default::default();
    assert_eq!(location_type.id, 1);
    assert_eq!(location_type.name, "Building");
}

#[test]
fn test_generate_trims_before_slugging() {
    assert_eq!(barcode::generate("  Building  ", 5), "lw-building-5");
    assert_eq!(barcode::generate("location 1", 1), "lw-location-1-1");
    assert_eq!(barcode::generate("Location1", 1), "lw-location1-1");
}

#[test]
fn test_generate_large_id() {
    assert_eq!(barcode::generate("x", 4294967295), "lw-x-4294967295");
    assert_eq!(barcode::generate("x", 0), "lw-x-0");
}

#[test]
fn test_validate_accepts_name_alphabet() {
    assert!(validation::validate("a"));
    assert!(validation::validate("A location_1 (cold)"));
    assert!(validation::validate("tab\tand newline\n"));
    assert!(!validation::validate(""));
    assert!(!validation::validate("caf\u{e9}"));
    assert!(!validation::validate("A location ~"));
}

#[test]
fn test_route() {
    assert_eq!(route("POST", "/scan"), ScanRoute::Scan);
    assert_eq!(route("GET", "/scan"), ScanRoute::NotFound);
    assert_eq!(route("POST", "/other"), ScanRoute::NotFound);
    assert_eq!(route("post", "/scan"), ScanRoute::NotFound);
}

#[test]
fn test_db_url() {
    assert_eq!(db_url(Some("src/db"), "test"), "sqlite://src/db/test.db");
    assert_eq!(db_url(None, "test"), "sqlite://test.db");
}
