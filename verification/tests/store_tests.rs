use labwhere::errors::CreateError;
use labwhere::labware::Labware;
use labwhere::location::Location;
use labwhere::location_type::LocationType;
use labwhere::store::init_db;

#[test]
fn test_create_location_type() {
    let mut conn = init_db("sqlite::memory:").unwrap();
    let location_type = LocationType::create("Freezer".to_string(), &mut conn).unwrap();
    assert_eq!(location_type.id, 1);
    assert_eq!(location_type.name, "Freezer");
}

#[test]
fn test_create_location() {
    let mut conn = init_db("sqlite::memory:").unwrap();
    let location_type = LocationType::create("Freezer".to_string(), &mut conn).unwrap();
    let location = Location::create("location1".to_string(), location_type.id, &mut conn).unwrap();
    assert_eq!(location.name, "location1");
    assert_eq!(location.id, 1);
    assert_eq!(location_type.id, location.location_type_id);
}

#[test]
fn location_test_find_by_barcode() {
    let mut conn = init_db("sqlite::memory:").unwrap();
    let location_type = LocationType::create("Freezer".to_string(), &mut conn).unwrap();
    let location = Location::create("location1".to_string(), location_type.id, &mut conn).unwrap();
    let found_location =
        Location::find_by_barcode(location.barcode.clone().unwrap(), &mut conn).unwrap();

    assert_eq!(location.barcode, found_location.barcode);
}

#[test]
fn location_test_find_by_barcode_for_not_found() {
    let mut conn = init_db("sqlite::memory:").unwrap();
    Location::find_by_barcode("lw-location-1".to_string(), &mut conn)
        .expect_err("Location not found");
}

#[test]
fn test_create_labware() {
    let mut conn = init_db("sqlite::memory:").unwrap();
    let location_type = LocationType::create("Freezer".to_string(), &mut conn).unwrap();
    let location = Location::create("location1".to_string(), location_type.id, &mut conn).unwrap();
    let labware = Labware::create("lw-1".to_string(), location.id, &mut conn).unwrap();

    assert_eq!(labware.barcode, "lw-1");
    assert_eq!(labware.location_id, location.id);
}

#[test]
fn update_labware() {
    let mut conn = init_db("sqlite::memory:").unwrap();
    let location_type = LocationType::create("Freezer".to_string(), &mut conn).unwrap();
    let location1 = Location::create("location1".to_string(), location_type.id, &mut conn).unwrap();
    let location2 = Location::create("location2".to_string(), location_type.id, &mut conn).unwrap();

    // Create the labware first.
    let mut labware = Labware::create("lw-1".to_string(), location1.id, &mut conn).unwrap();

    // Update the location of the labware
    labware.location_id = location2.id;
    let updated_labware = Labware::update(&labware, &mut conn).unwrap();

    assert_eq!(updated_labware.barcode, "lw-1");
    assert_eq!(updated_labware.id, labware.id);
    assert_eq!(updated_labware.location_id, location2.id);
}

#[test]
fn labware_test_find_by_barcode() {
    let mut conn = init_db("sqlite::memory:").unwrap();
    let location_type = LocationType::create("Freezer".to_string(), &mut conn).unwrap();
    let location = Location::create("location1".to_string(), location_type.id, &mut conn).unwrap();
    let labware = Labware::create("lw-1".to_string(), location.id, &mut conn).unwrap();

    let fetched_labware = Labware::find_by_barcode("lw-1".to_string(), &mut conn).unwrap();

    assert_eq!(labware.barcode, fetched_labware.barcode)
}

#[test]
fn labware_test_find_by_barcode_for_not_found() {
    let mut conn = init_db("sqlite::memory:").unwrap();
    Labware::find_by_barcode("lw-1".to_string(), &mut conn).expect_err("Labware not found");
}

#[test]
fn location_round_trip_equal() {
    let mut conn = init_db("sqlite::memory:").unwrap();
    let location_type = LocationType::create("Freezer".to_string(), &mut conn).unwrap();
    let created = Location::create("location1".to_string(), location_type.id, &mut conn).unwrap();
    let found = Location::find_by_barcode(created.barcode.clone().unwrap(), &mut conn).unwrap();
    assert_eq!(found, created);
}

#[test]
fn labware_create_missing_location_fails() {
    let mut conn = init_db("sqlite::memory:").unwrap();
    let err = Labware::create("lw-9".to_string(), 42, &mut conn)
        .expect_err("creating labware against a missing location must fail");
    assert!(!err.message.is_empty());
}

#[test]
fn location_find_not_found_message() {
    let mut conn = init_db("sqlite::memory:").unwrap();
    let err = Location::find_by_barcode("nonexistent".to_string(), &mut conn).unwrap_err();
    assert_eq!(err.message, "Location not found");
}

#[test]
fn labware_find_not_found_message() {
    let mut conn = init_db("sqlite::memory:").unwrap();
    let err = Labware::find_by_barcode("nonexistent".to_string(), &mut conn).unwrap_err();
    assert_eq!(err.message, "Labware not found");
}

#[test]
fn location_create_invalid_name_fails_fast() {
    let mut conn = init_db("sqlite::memory:").unwrap();
    let err = Location::create("bad/name".to_string(), 1, &mut conn).unwrap_err();
    assert!(matches!(err, CreateError::Validation(_)));
    match err {
        CreateError::Validation(v) => assert_eq!(v.message, "Invalid name format"),
        CreateError::Persistence(_) => unreachable!(),
    }
}

#[test]
fn location_new_invalid_name_message() {
    let err = Location::new(1, "A location +++".to_string(), 1, None).unwrap_err();
    assert_eq!(err.message, "Invalid name format");
}

#[test]
fn init_db_unreachable_path_fails() {
    let err = init_db("sqlite://no_such_dir_here/labwhere.db")
        .err()
        .expect("opening a database in a missing folder must fail");
    assert!(!err.message.is_empty());
}
