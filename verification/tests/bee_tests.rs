use ruche::bee::Bee;
use ruche::errors::Error;
use ruche::models::BeeData;
use ruche::registry::Registry;

#[test]
fn mod_should_format_id() {
    assert_eq!(Bee::format_id(5), "05");
    assert_eq!(Bee::format_id(40), "40");
    assert_eq!(Bee::format_id(99), "99");
}

#[test]
fn mod_should_return_name_from_id() {
    let bee = Bee { id: 5, neighborhood: String::new(), reserve_doubling: false };

    assert_eq!(Bee::get_name(5), "node_05");
    assert_eq!(bee.name(), "node_05");
}

#[test]
fn mod_should_return_port_from_id_and_base_port() {
    let id = 5;
    let base_port = "17xx";
    let expected_port = "1705";

    let port = Bee::get_port(id, base_port).unwrap();

    assert_eq!(port, expected_port);
}

#[test]
fn mod_should_fail_to_return_port_from_invalid_base_port() {
    assert!(Bee::get_port(5, "1705").is_err());
    assert!(Bee::get_port(5, "test").is_err());
    assert!(Bee::get_port(5, "1x70").is_err());
    assert!(Bee::get_port(5, "1xx0").is_err());
    assert!(Bee::get_port(5, "15340xx").is_err());
}

#[test]
fn mod_should_calculate_directory_id_correctly() {
    assert_eq!(Bee::get_dir_id(1, 4), 1);
    assert_eq!(Bee::get_dir_id(4, 4), 1);
    assert_eq!(Bee::get_dir_id(5, 4), 2);
    assert_eq!(Bee::get_dir_id(8, 4), 2);
    assert_eq!(Bee::get_dir_id(9, 4), 3);
    assert_eq!(Bee::get_dir_id(99, 4), 25);

    assert_eq!(Bee::get_dir_id(3, 3), 1);
    assert_eq!(Bee::get_dir_id(4, 3), 2);
    assert_eq!(Bee::get_dir_id(6, 3), 2);
    assert_eq!(Bee::get_dir_id(7, 3), 3);

    assert_eq!(Bee::get_dir_id(5, 5), 1);
    assert_eq!(Bee::get_dir_id(6, 5), 2);
}

#[test]
fn mod_should_generate_directory_name_correctly() {
    let dir_name_format = "node_xx";
    let dir_capacity = 4;

    assert_eq!(Bee::get_dir_name(1, dir_name_format, dir_capacity).unwrap(), "node_01");

    assert_eq!(Bee::get_dir_name(5, dir_name_format, dir_capacity).unwrap(), "node_02");

    assert_eq!(Bee::get_dir_name(9, dir_name_format, dir_capacity).unwrap(), "node_03");

    let dir_capacity_3 = 3;
    assert_eq!(Bee::get_dir_name(4, dir_name_format, dir_capacity_3).unwrap(), "node_02");
}

#[test]
fn mod_should_return_error_for_invalid_volume_name_format() {
    let invalid_format = "node_x";
    let dir_capacity = 4;

    let result = Bee::get_dir_name(1, invalid_format, dir_capacity);
    assert!(result.is_err());
    assert_eq!(result.unwrap_err().message(), "Invalid volume name format 'node_x'");
}

#[test]
fn should_create_first_bee() {
    let mut db = Registry::new();

    let new_bee = Bee::create(&mut db).unwrap();

    assert_eq!(new_bee.id, 1);
    assert_eq!(db.count_bees(), 1);
}

#[test]
fn should_add_additional_bee() {
    let mut db = Registry::new();

    db.add_bee(BeeData { id: 1, ..Default::default() });
    db.add_bee(BeeData { id: 2, ..Default::default() });

    let new_bee = Bee::create(&mut db).unwrap();

    assert_eq!(new_bee.id, 3);
    assert_eq!(db.count_bees(), 3);
}

#[test]
fn should_fail_creating_when_max_capacity_reached() {
    let mut db = Registry::new();

    for id in 1..=99 {
        db.add_bee(BeeData { id, ..Default::default() });
    }

    let result = Bee::create(&mut db);

    assert!(result.is_err());
    assert!(matches!(result.unwrap_err(), Error::CapacityExceeded));
}

#[test]
fn mod_should_pick_first_available_id() {
    let mut db = Registry::new();

    db.add_bee(BeeData { id: 1, ..Default::default() });
    db.add_bee(BeeData { id: 3, ..Default::default() });

    let new_bee = Bee::create(&mut db).unwrap();

    assert_eq!(new_bee.id, 2);
    assert_eq!(db.count_bees(), 3);
}
