use ruche::docker::get_container_config;
use ruche::models::BeeInfo;
use ruche::models::Config;

fn create_test_data() -> (BeeInfo, Config) {
    let bee_info = BeeInfo {
        id: 1,
        name: "node_01".to_string(),
        image: "ethersphere/bee:2.5.0".to_string(),
        neighborhood: "1111101010".to_string(),
        full_node: true,
        swap_enable: true,
        reserve_doubling: false,
        data_dir: "/home/lowkey/swarm_test/swarm_data_01/node_01".to_string(),
        api_port: "1701".to_string(),
        p2p_port: "1801".to_string(),
    };

    let mut config = Config::default();
    config.bee.image = "ethersphere/bee:2.5.0".to_string();
    config.bee.password = "some-password".to_string();
    config.bee.welcome_msg = "Hello, Swarm!".to_string();
    // Below values should be unused in the tested method
    config.bee.full_node = false;
    config.bee.swap_enable = false;
    config.bee.reserve_doubling = true;
    config.network.nat_addr = "1.1.1.1".to_string();
    config.network.api_port = "17xx".to_string();
    config.network.p2p_port = "18xx".to_string();
    config.network.use_docker_host = true;
    config.chains.eth_rpc = "https://some.rpc".to_string();
    config.chains.gno_rpc = "http://host.docker.internal:8545".to_string();
    config.storage.root_path = "/media".to_string();
    config.storage.parent_dir_format = "swarm_data_xx".to_string();
    config.storage.parent_dir_capacity = 4;

    (bee_info, config)
}

#[test]
fn test_container_image() {
    let (bee_info, config) = create_test_data();

    let container_config = get_container_config(&bee_info, &config);

    assert_eq!(container_config.image, "ethersphere/bee:2.5.0");
}

#[test]
fn test_volume_bindings() {
    let (bee_info, config) = create_test_data();

    let container_config = get_container_config(&bee_info, &config);
    let binds = &container_config.binds;

    assert_eq!(binds[0], "/home/lowkey/swarm_test/swarm_data_01/node_01:/home/bee/.bee");
}

#[test]
fn test_api_port_binding() {
    let (bee_info, config) = create_test_data();
    let container_config = get_container_config(&bee_info, &config);

    let api_binding = container_config
        .port_bindings
        .iter()
        .find(|b| b.container_port == bee_info.api_port)
        .unwrap();

    assert_eq!(api_binding.host_port, "1701");
    assert_eq!(api_binding.host_ip, "127.0.0.1");
}

#[test]
fn test_p2p_port_binding() {
    let (bee_info, config) = create_test_data();
    let container_config = get_container_config(&bee_info, &config);

    let p2p_binding = container_config
        .port_bindings
        .iter()
        .find(|b| b.container_port == bee_info.p2p_port)
        .unwrap();

    assert_eq!(p2p_binding.host_port, "1801");
    assert_eq!(p2p_binding.host_ip, "0.0.0.0");
}

#[test]
fn test_environment_variables() {
    let (bee_info, config) = create_test_data();

    let container_config = get_container_config(&bee_info, &config);
    let env = &container_config.env;

    assert!(env.contains(&"BEE_API_ADDR=0.0.0.0:1701".to_owned()));
    assert!(env.contains(&"BEE_BLOCKCHAIN_RPC_ENDPOINT=http://host.docker.internal:8545".to_owned()));
    assert!(env.contains(&"BEE_DATA_DIR=/home/bee/.bee".to_owned()));
    assert!(env.contains(&"BEE_FULL_NODE=true".to_owned()));
    assert!(env.contains(&"BEE_NAT_ADDR=1.1.1.1:1801".to_owned()));
    assert!(env.contains(&"BEE_P2P_ADDR=:1801".to_owned()));
    assert!(env.contains(&"BEE_PASSWORD=some-password".to_owned()));
    assert!(env.contains(&"BEE_RESERVE_CAPACITY_DOUBLING=false".to_owned()));
    assert!(env.contains(&"BEE_RESOLVER_OPTIONS=https://some.rpc".to_owned()));
    assert!(env.contains(&"BEE_SWAP_ENABLE=true".to_owned()));
    assert!(env.contains(&"BEE_TARGET_NEIGHBORHOOD=1111101010".to_owned()));
    assert!(env.contains(&"BEE_WELCOME_MESSAGE=Hello, Swarm!".to_owned()));
}

#[test]
fn test_restart_policy() {
    let (bee_info, config) = create_test_data();

    let container_config = get_container_config(&bee_info, &config);

    assert_eq!(container_config.restart_policy, "unless-stopped");
}

#[test]
fn test_extra_hosts() {
    let (bee_info, config) = create_test_data();

    let container_config = get_container_config(&bee_info, &config);
    let extra_hosts = container_config.extra_hosts.as_ref().unwrap();

    assert_eq!(extra_hosts, &vec!["host.docker.internal:host-gateway".to_string()]);
}

#[test]
fn test_extra_hosts_disabled() {
    let (bee_info, mut config) = create_test_data();
    config.network.use_docker_host = false;

    let container_config = get_container_config(&bee_info, &config);

    assert!(container_config.extra_hosts.is_none());
}

#[test]
fn test_cmd() {
    let (bee_info, config) = create_test_data();
    let container_config = get_container_config(&bee_info, &config);
    assert_eq!(container_config.cmd, vec!["start".to_string()]);
}

#[test]
fn test_exposed_ports() {
    let (bee_info, config) = create_test_data();
    let container_config = get_container_config(&bee_info, &config);
    let exposed_ports = &container_config.exposed_ports;
    assert!(exposed_ports.contains(&"1701".to_string()));
    assert!(exposed_ports.contains(&"1801".to_string()));
}

#[test]
fn test_user() {
    let (bee_info, config) = create_test_data();
    let container_config = get_container_config(&bee_info, &config);
    let user = &container_config.user;
    let parts: Vec<&str> = user.split(':').collect();
    assert_eq!(parts.len(), 2);
    assert!(parts[0].parse::<u32>().is_ok());
    assert!(parts[1].parse::<u32>().is_ok());
}
