use ruche::bee_fn::data_to_info;
use ruche::bee_fn::ensure_capacity;
use ruche::bee_fn::format_id;
use ruche::bee_fn::get_bee;
use ruche::bee_fn::get_new_bee_id;
use ruche::bee_fn::get_node_name;
use ruche::bee_fn::save_bee;
use ruche::models::BeeData;
use ruche::models::Config;
use ruche::network_fn::get_api_port;
use ruche::network_fn::get_p2p_port;
use ruche::network_fn::get_port;
use ruche::registry::Registry;
use ruche::storage_fn::get_dir_id;
use ruche::storage_fn::get_node_path;
use ruche::storage_fn::get_parent_dir_name;

#[test]
fn bee_service_should_format_id() {
    assert_eq!(format_id(5), "05");
    assert_eq!(format_id(40), "40");
    assert_eq!(format_id(99), "99");
}

#[test]
fn bee_service_should_return_name_from_id() {
    assert_eq!(get_node_name(5), "node_05");
}

#[test]
fn bee_service_should_return_port_from_id_and_base_port() {
    let port = get_port(5, "17xx").unwrap();

    assert_eq!(port, "1705");
}

#[test]
fn bee_service_should_fail_to_return_port_from_invalid_base_port() {
    assert!(get_port(5, "1705").is_err());
    assert!(get_port(5, "test").is_err());
    assert!(get_port(5, "1x70").is_err());
    assert!(get_port(5, "1xx0").is_err());
    assert!(get_port(5, "15340xx").is_err());
}

#[test]
fn bee_service_should_return_api_port_from_config() {
    let mut config = Config::default();
    config.network.api_port = "17xx".to_string();
    config.network.p2p_port = "18xx".to_string();

    let api_port = get_api_port(&config, 5).unwrap();
    let p2p_port = get_p2p_port(&config, 5).unwrap();

    assert_eq!(api_port, "1705");
    assert_eq!(p2p_port, "1805");
}

#[test]
fn bee_service_should_fail_api_port_with_invalid_base() {
    let mut config = Config::default();
    config.network.api_port = "1705".to_string();

    assert!(get_api_port(&config, 5).is_err());
}

#[test]
fn bee_service_should_fail_p2p_port_with_invalid_base() {
    let mut config = Config::default();
    config.network.p2p_port = "test".to_string();

    assert!(get_p2p_port(&config, 5).is_err());
}

#[test]
fn bee_service_should_calculate_directory_id_correctly() {
    let mut config = Config::default();

    config.storage.parent_dir_capacity = 4;
    assert_eq!(get_dir_id(&config, 1), 1);
    assert_eq!(get_dir_id(&config, 4), 1);
    assert_eq!(get_dir_id(&config, 5), 2);
    assert_eq!(get_dir_id(&config, 8), 2);
    assert_eq!(get_dir_id(&config, 9), 3);
    assert_eq!(get_dir_id(&config, 99), 25);

    config.storage.parent_dir_capacity = 3;
    assert_eq!(get_dir_id(&config, 3), 1);
    assert_eq!(get_dir_id(&config, 4), 2);
    assert_eq!(get_dir_id(&config, 6), 2);
    assert_eq!(get_dir_id(&config, 7), 3);

    config.storage.parent_dir_capacity = 5;
    assert_eq!(get_dir_id(&config, 5), 1);
    assert_eq!(get_dir_id(&config, 6), 2);
}

#[test]
fn bee_service_should_generate_directory_name_correctly() {
    let mut config = Config::default();
    config.storage.parent_dir_format = "swarm_data_xx".to_string();
    config.storage.parent_dir_capacity = 4;

    assert_eq!(get_parent_dir_name(&config, 1).unwrap(), "swarm_data_01");

    assert_eq!(get_parent_dir_name(&config, 5).unwrap(), "swarm_data_02");

    assert_eq!(get_parent_dir_name(&config, 9).unwrap(), "swarm_data_03");

    config.storage.parent_dir_capacity = 3;
    assert_eq!(get_parent_dir_name(&config, 4).unwrap(), "swarm_data_02");
}

#[test]
fn bee_service_should_return_error_for_invalid_volume_name_format() {
    let mut config = Config::default();
    config.storage.parent_dir_format = "swarm_data_x".to_string();
    config.storage.parent_dir_capacity = 4;

    let result = get_parent_dir_name(&config, 1);
    assert!(result.is_err());
    assert_eq!(result.unwrap_err().message(), "Invalid parent name format 'swarm_data_x'");
}

#[test]
fn bee_service_should_generate_correct_node_path() {
    let mut config = Config::default();
    config.storage.root_path = "/var/lib/swarm".to_string();
    config.storage.parent_dir_format = "swarm_data_xx".to_string();
    config.storage.parent_dir_capacity = 4;

    let path = get_node_path(&config, 5).unwrap();

    assert_eq!(path, "/var/lib/swarm/swarm_data_02/node_05");
}

#[test]
fn bee_service_should_fail_node_path_with_invalid_parent_format() {
    let mut config = Config::default();
    config.storage.root_path = "/var/lib/swarm".to_string();
    config.storage.parent_dir_format = "swarm_data_x".to_string();
    config.storage.parent_dir_capacity = 4;

    let result = get_node_path(&config, 1);

    assert!(result.is_err());
    assert_eq!(result.unwrap_err().message(), "Invalid parent name format 'swarm_data_x'");
}

#[test]
fn bee_service_should_get_correct_path_for_first_id() {
    let mut config = Config::default();
    config.storage.root_path = "/var/lib/swarm".to_string();
    config.storage.parent_dir_format = "data_xx".to_string();
    config.storage.parent_dir_capacity = 3;

    let path = get_node_path(&config, 1).unwrap();

    assert_eq!(path, "/var/lib/swarm/data_01/node_01");
}

#[test]
fn bee_service_should_get_correct_path_for_max_id() {
    let mut config = Config::default();
    config.storage.root_path = "/var/lib/swarm".to_string();
    config.storage.parent_dir_format = "storage_xx".to_string();
    config.storage.parent_dir_capacity = 4;

    let path = get_node_path(&config, 99).unwrap();

    assert_eq!(path, "/var/lib/swarm/storage_25/node_99");
}

#[test]
fn bee_service_ensure_capacity_returns_true_under_99() {
    let mut db = Registry::new();
    for id in 1..99 {
        db.add_bee(BeeData { id, ..Default::default() });
    }

    assert!(ensure_capacity(&db), "ensure_capacity should return true when under 99");
}

#[test]
fn bee_service_ensure_capacity_returns_false_at_99() {
    let mut db = Registry::new();
    for id in 1..=99 {
        db.add_bee(BeeData { id, ..Default::default() });
    }

    assert!(!ensure_capacity(&db), "ensure_capacity should return false at 99");
}

#[test]
fn bee_service_ensure_capacity_returns_true_when_empty() {
    let db = Registry::new();

    assert!(ensure_capacity(&db), "ensure_capacity should return true when no bees exist");
}

#[test]
fn bee_service_should_get_next_bee_id() {
    let mut db = Registry::new();
    db.add_bee(BeeData { id: 1, ..Default::default() });
    db.add_bee(BeeData { id: 2, ..Default::default() });

    assert_eq!(get_new_bee_id(&db).unwrap(), 3);
}

#[test]
fn bee_service_should_pick_first_available_id() {
    let mut db = Registry::new();
    db.add_bee(BeeData { id: 1, ..Default::default() });
    db.add_bee(BeeData { id: 3, ..Default::default() });

    assert_eq!(get_new_bee_id(&db).unwrap(), 2);
}

#[test]
fn bee_service_should_fail_to_get_new_bee_id_when_all_ids_are_taken() {
    let mut db = Registry::new();
    for id in 1..=99 {
        db.add_bee(BeeData { id, ..Default::default() });
    }

    let result = get_new_bee_id(&db);

    assert!(result.is_err());
    assert_eq!(result.unwrap_err().message(), "Unable to get new bee id".to_string());
}

#[test]
fn bee_service_should_save_first_bee() {
    let mut db = Registry::new();
    let bee_data = BeeData { id: 1, ..Default::default() };

    save_bee(&mut db, &bee_data).unwrap();

    assert_eq!(get_bee(&db, 1).unwrap().id, 1);
    assert_eq!(db.count_bees(), 1);
}

#[test]
fn bee_service_should_fail_saving_when_max_capacity_reached() {
    let mut db = Registry::new();
    for id in 1..=99 {
        db.add_bee(BeeData { id, ..Default::default() });
    }

    let result = save_bee(&mut db, &BeeData::default());

    assert!(result.is_err());
}

#[test]
fn bee_service_should_convert_bee_data_to_info() {
    let mut config = Config::default();
    config.network.api_port = "17xx".to_string();
    config.network.p2p_port = "18xx".to_string();
    config.bee.image = "bee-image:latest".to_string();

    let bee_data = BeeData { id: 5, ..Default::default() };

    let bee_info = data_to_info(&config, &bee_data).unwrap();

    assert_eq!(bee_info.api_port, "1705");
    assert_eq!(bee_info.p2p_port, "1805");
    assert_eq!(bee_info.image, "bee-image:latest");
}
