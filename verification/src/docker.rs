//! The container-runtime interface and the container specification that
//! provisioning derives for each node: one bind mount of the node's storage
//! directory, the management-API port bound to loopback only, the
//! peer-to-peer port bound to all interfaces, an always-restart policy, and
//! the node's environment.

use crate::errors::Error;
use crate::models::BeeInfo;
use crate::models::Config;
use crate::strutil::bool_str;
use crate::strutil::bool_to_str;
use crate::strutil::concat2;
use crate::strutil::concat3;
use crate::strutil::dec_rep;
use crate::strutil::dec_u64;
use vstd::prelude::*;

verus! {

use vstd::string::StringExecFns;

/// What the container runtime is asked to do for the fleet.  The library
/// decides; an implementation of this trait performs the calls.
pub trait BeeDocker {
    /// Creates the container for `bee` (pulling its image as needed), without
    /// starting it.
    fn create_bee_container(&self, bee: &BeeInfo, config: &Config) -> Result<(), Error>;

    /// Starts the named container.
    fn start_bee_container(&self, name: &str) -> Result<(), Error>;

    /// Stops the named container.
    fn stop_bee_container(&self, name: &str) -> Result<(), Error>;

    /// Removes the named container.
    fn remove_bee_container(&self, name: &str) -> Result<(), Error>;

    /// Returns the combined standard-output and standard-error lines of the
    /// named container.
    fn get_bee_container_logs(&self, name: &str) -> Result<Vec<String>, Error>;
}

/// One port published from the container: the container port, and the host
/// address and port it binds to.
#[derive(Clone, Debug)]
pub struct PortMapping {
    pub container_port: String,
    pub host_ip: String,
    pub host_port: String,
}

/// The full specification of one node's container.
#[derive(Clone, Debug)]
pub struct ContainerSpec {
    pub image: String,
    pub cmd: Vec<String>,
    pub binds: Vec<String>,
    pub port_bindings: Vec<PortMapping>,
    pub exposed_ports: Vec<String>,
    pub restart_policy: String,
    pub extra_hosts: Option<Vec<String>>,
    pub user: String,
    pub env: Vec<String>,
}

/// The bind-mount line for a node: its storage directory mounted at the fixed
/// in-container data path.
pub open spec fn bind_line(data_dir: Seq<char>) -> Seq<char> {
    data_dir + ":/home/bee/.bee"@
}

/// The container user: the calling process's user and group ids.
pub open spec fn user_spec(uid: u32, gid: u32) -> Seq<char> {
    dec_rep(uid as nat) + ":"@ + dec_rep(gid as nat)
}

/// The twelve environment lines of a node's container, in order.
pub open spec fn env_lines(bee: BeeInfo, config: Config) -> Seq<Seq<char>> {
    seq![
        "BEE_API_ADDR=0.0.0.0:"@ + bee.api_port@,
        "BEE_BLOCKCHAIN_RPC_ENDPOINT="@ + config.chains.gno_rpc@,
        "BEE_DATA_DIR=/home/bee/.bee"@,
        "BEE_FULL_NODE="@ + bool_str(bee.full_node),
        "BEE_NAT_ADDR="@ + config.network.nat_addr@ + ":"@ + bee.p2p_port@,
        "BEE_P2P_ADDR=:"@ + bee.p2p_port@,
        "BEE_PASSWORD="@ + config.bee.password@,
        "BEE_RESERVE_CAPACITY_DOUBLING="@ + bool_str(bee.reserve_doubling),
        "BEE_RESOLVER_OPTIONS="@ + config.chains.eth_rpc@,
        "BEE_SWAP_ENABLE="@ + bool_str(bee.swap_enable),
        "BEE_TARGET_NEIGHBORHOOD="@ + bee.neighborhood@,
        "BEE_WELCOME_MESSAGE="@ + config.bee.welcome_msg@,
    ]
}

/// Everything `build_container_config` promises of its result except the
/// container user, which depends on the calling process.
pub open spec fn matches_container_config(r: ContainerSpec, bee: BeeInfo, config: Config) -> bool {
    &&& r.image@ == bee.image@
    &&& r.cmd@.len() == 1 && r.cmd@[0]@ == "start"@
    &&& r.binds@.len() == 1 && r.binds@[0]@ == bind_line(bee.data_dir@)
    &&& r.port_bindings@.len() == 2
    &&& r.port_bindings@[0].container_port@ == bee.api_port@
    &&& r.port_bindings@[0].host_ip@ == "127.0.0.1"@
    &&& r.port_bindings@[0].host_port@ == bee.api_port@
    &&& r.port_bindings@[1].container_port@ == bee.p2p_port@
    &&& r.port_bindings@[1].host_ip@ == "0.0.0.0"@
    &&& r.port_bindings@[1].host_port@ == bee.p2p_port@
    &&& r.exposed_ports@.len() == 2
    &&& r.exposed_ports@[0]@ == bee.api_port@
    &&& r.exposed_ports@[1]@ == bee.p2p_port@
    &&& r.restart_policy@ == "unless-stopped"@
    &&& (config.network.use_docker_host ==> (r.extra_hosts matches Some(h) && h@.len() == 1
        && h@[0]@ == "host.docker.internal:host-gateway"@))
    &&& (!config.network.use_docker_host ==> r.extra_hosts is None)
    &&& r.env@.len() == 12
    &&& forall|i: int| 0 <= i < 12 ==> r.env@[i]@ == env_lines(bee, config)[i]
}

/// Builds the container specification for `bee` with the given user and group
/// ids as the container user.
pub fn build_container_config(bee: &BeeInfo, config: &Config, uid: u32, gid: u32) -> (r:
    ContainerSpec)
    ensures
        matches_container_config(r, *bee, *config),
        r.user@ == user_spec(uid, gid),
{
    let mut cmd: Vec<String> = Vec::new();
    cmd.push("start".to_owned());

    let mut binds: Vec<String> = Vec::new();
    binds.push(concat2(bee.data_dir.as_str(), ":/home/bee/.bee"));

    let mut port_bindings: Vec<PortMapping> = Vec::new();
    port_bindings.push(
        PortMapping {
            container_port: bee.api_port.clone(),
            host_ip: "127.0.0.1".to_owned(),
            host_port: bee.api_port.clone(),
        },
    );
    port_bindings.push(
        PortMapping {
            container_port: bee.p2p_port.clone(),
            host_ip: "0.0.0.0".to_owned(),
            host_port: bee.p2p_port.clone(),
        },
    );

    let mut exposed_ports: Vec<String> = Vec::new();
    exposed_ports.push(bee.api_port.clone());
    exposed_ports.push(bee.p2p_port.clone());

    let extra_hosts: Option<Vec<String>> = if config.network.use_docker_host {
        let mut hosts: Vec<String> = Vec::new();
        hosts.push("host.docker.internal:host-gateway".to_owned());
        Some(hosts)
    } else {
        None
    };

    let mut user = dec_u64(uid as u64);
    user.append(":");
    user.append(dec_u64(gid as u64).as_str());

    let mut env: Vec<String> = Vec::new();
    env.push(concat2("BEE_API_ADDR=0.0.0.0:", bee.api_port.as_str()));
    env.push(concat2("BEE_BLOCKCHAIN_RPC_ENDPOINT=", config.chains.gno_rpc.as_str()));
    env.push("BEE_DATA_DIR=/home/bee/.bee".to_owned());
    env.push(concat2("BEE_FULL_NODE=", bool_to_str(bee.full_node)));
    let mut nat_line = concat3("BEE_NAT_ADDR=", config.network.nat_addr.as_str(), ":");
    nat_line.append(bee.p2p_port.as_str());
    env.push(nat_line);
    env.push(concat2("BEE_P2P_ADDR=:", bee.p2p_port.as_str()));
    env.push(concat2("BEE_PASSWORD=", config.bee.password.as_str()));
    env.push(concat2("BEE_RESERVE_CAPACITY_DOUBLING=", bool_to_str(bee.reserve_doubling)));
    env.push(concat2("BEE_RESOLVER_OPTIONS=", config.chains.eth_rpc.as_str()));
    env.push(concat2("BEE_SWAP_ENABLE=", bool_to_str(bee.swap_enable)));
    env.push(concat2("BEE_TARGET_NEIGHBORHOOD=", bee.neighborhood.as_str()));
    env.push(concat2("BEE_WELCOME_MESSAGE=", config.bee.welcome_msg.as_str()));

    ContainerSpec {
        image: bee.image.clone(),
        cmd,
        binds,
        port_bindings,
        exposed_ports,
        restart_policy: "unless-stopped".to_owned(),
        extra_hosts,
        user,
        env,
    }
}

/// Relies on `nix::unistd::getuid`: the real user id of the calling process.
#[verifier::external_body]
fn current_uid() -> u32 {
    nix::unistd::getuid().as_raw()
}

/// Relies on `nix::unistd::getgid`: the real group id of the calling process.
#[verifier::external_body]
fn current_gid() -> u32 {
    nix::unistd::getgid().as_raw()
}

/// Builds the container specification for `bee`, running as the calling
/// process's own user and group.
pub fn get_container_config(bee: &BeeInfo, config: &Config) -> (r: ContainerSpec)
    ensures
        matches_container_config(r, *bee, *config),
        exists|uid: u32, gid: u32| r.user@ == user_spec(uid, gid),
{
    let uid = current_uid();
    let gid = current_gid();
    let r = build_container_config(bee, config, uid, gid);
    proof {
        assert(r.user@ == user_spec(uid, gid));
    }
    r
}

/// Asks the runtime to create the container for `bee`.
pub fn create_bee_container<D: BeeDocker>(config: &Config, docker: &D, bee: &BeeInfo) -> Result<
    (),
    Error,
> {
    docker.create_bee_container(bee, config)
}

/// Asks the runtime to start the named container.
pub fn start_bee_container<D: BeeDocker>(docker: &D, name: &str) -> Result<(), Error> {
    docker.start_bee_container(name)
}

/// Asks the runtime to stop the named container.
pub fn stop_bee_container<D: BeeDocker>(docker: &D, name: &str) -> Result<(), Error> {
    docker.stop_bee_container(name)
}

/// Asks the runtime to remove the named container.
pub fn remove_bee_container<D: BeeDocker>(docker: &D, name: &str) -> Result<(), Error> {
    docker.remove_bee_container(name)
}

/// Fetches the combined log lines of the named container.
pub fn get_bee_container_logs<D: BeeDocker>(docker: &D, name: &str) -> Result<Vec<String>, Error> {
    docker.get_bee_container_logs(name)
}

/// Starts each named container independently: a failure partway through stops
/// nothing else, and only the last failure is surfaced.
pub fn start_bee_containers<D: BeeDocker>(docker: &D, names: &Vec<String>) -> Result<(), Error> {
    let mut last_err: Option<Error> = None;
    let len = names.len();
    let mut k: usize = 0;
    while k < len
        invariant
            k <= len,
            len == names@.len(),
        decreases len - k,
    {
        match docker.start_bee_container(names[k].as_str()) {
            Ok(_) => (),
            Err(e) => {
                last_err = Some(e);
            },
        };
        k = k + 1;
    }
    match last_err {
        Some(e) => Err(e),
        None => Ok(()),
    }
}

/// Stops each named container independently; only the last failure is
/// surfaced.
pub fn stop_bee_containers<D: BeeDocker>(docker: &D, names: &Vec<String>) -> Result<(), Error> {
    let mut last_err: Option<Error> = None;
    let len = names.len();
    let mut k: usize = 0;
    while k < len
        invariant
            k <= len,
            len == names@.len(),
        decreases len - k,
    {
        match docker.stop_bee_container(names[k].as_str()) {
            Ok(_) => (),
            Err(e) => {
                last_err = Some(e);
            },
        };
        k = k + 1;
    }
    match last_err {
        Some(e) => Err(e),
        None => Ok(()),
    }
}

/// Recreates the container of `bee` in place, to apply configuration or image
/// changes without reallocating its identity, ports, or directory: the stop
/// and the removal are best-effort (their failures are swallowed), the
/// creation is not.
pub fn recreate_bee_container<D: BeeDocker>(config: &Config, docker: &D, bee: &BeeInfo) -> Result<
    (),
    Error,
> {
    let _ = docker.stop_bee_container(bee.name.as_str());
    let _ = docker.remove_bee_container(bee.name.as_str());
    docker.create_bee_container(bee, config)
}

/// Recreates each container independently; only the last failure is
/// surfaced.
pub fn recreate_bee_containers<D: BeeDocker>(config: &Config, docker: &D, bees: &Vec<
    BeeInfo,
>) -> Result<(), Error> {
    let mut last_err: Option<Error> = None;
    let len = bees.len();
    let mut k: usize = 0;
    while k < len
        invariant
            k <= len,
            len == bees@.len(),
        decreases len - k,
    {
        match recreate_bee_container(config, docker, &bees[k]) {
            Ok(_) => (),
            Err(e) => {
                last_err = Some(e);
            },
        };
        k = k + 1;
    }
    match last_err {
        Some(e) => Err(e),
        None => Ok(()),
    }
}

} // verus!
