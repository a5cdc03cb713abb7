//! The data model: the durable node record, the derived read-only node view,
//! and the static configuration sections.

use crate::bee_fn::get_node_name;
use crate::bee_fn::node_name_spec;
use vstd::prelude::*;

verus! {

/// The durable unit of truth for one node.  `id` is the sole natural key and
/// lies in 1..=99 for every record that provisioning creates.
#[derive(Default, Debug)]
pub struct BeeData {
    pub id: u8,
    pub neighborhood: String,
    pub full_node: bool,
    pub swap_enable: bool,
    pub reserve_doubling: bool,
    pub data_dir: String,
}

impl Clone for BeeData {
    /// An exact copy of the record.
    fn clone(&self) -> (r: BeeData)
        ensures
            r == *self,
    {
        BeeData {
            id: self.id,
            neighborhood: self.neighborhood.clone(),
            full_node: self.full_node,
            swap_enable: self.swap_enable,
            reserve_doubling: self.reserve_doubling,
            data_dir: self.data_dir.clone(),
        }
    }
}

impl BeeData {
    /// The container name of this node: `node_` followed by the two-digit id.
    pub fn name(&self) -> (r: String)
        requires
            self.id <= 99,
        ensures
            r@ == node_name_spec(self.id as int),
    {
        get_node_name(self.id)
    }
}

/// A read-only view of one node, combining its record with configuration-time
/// constants and resolver outputs.  Never persisted; recomputed on demand.
#[derive(Clone, Default, Debug)]
pub struct BeeInfo {
    pub id: u8,
    pub name: String,
    pub image: String,
    pub neighborhood: String,
    pub full_node: bool,
    pub swap_enable: bool,
    pub reserve_doubling: bool,
    pub data_dir: String,
    pub api_port: String,
    pub p2p_port: String,
}

impl BeeInfo {
    /// Builds the view for `data` with the given image and resolved ports.
    pub fn new(data: &BeeData, image: &str, api_port: &str, p2p_port: &str) -> (r: BeeInfo)
        requires
            data.id <= 99,
        ensures
            r.id == data.id,
            r.name@ == node_name_spec(data.id as int),
            r.image@ == image@,
            r.neighborhood == data.neighborhood,
            r.full_node == data.full_node,
            r.swap_enable == data.swap_enable,
            r.reserve_doubling == data.reserve_doubling,
            r.data_dir == data.data_dir,
            r.api_port@ == api_port@,
            r.p2p_port@ == p2p_port@,
    {
        BeeInfo {
            id: data.id,
            name: get_node_name(data.id),
            image: image.to_owned(),
            neighborhood: data.neighborhood.clone(),
            full_node: data.full_node,
            swap_enable: data.swap_enable,
            reserve_doubling: data.reserve_doubling,
            data_dir: data.data_dir.clone(),
            api_port: api_port.to_owned(),
            p2p_port: p2p_port.to_owned(),
        }
    }
}

/// Per-node constants taken from static configuration.
#[derive(Clone, Default, Debug)]
pub struct Bee {
    pub image: String,
    pub password: String,
    pub welcome_msg: String,
    pub full_node: bool,
    pub swap_enable: bool,
    pub reserve_doubling: bool,
}

/// Network configuration: the NAT address and the two port templates.
#[derive(Clone, Default, Debug)]
pub struct Network {
    pub nat_addr: String,
    pub api_port: String,
    pub p2p_port: String,
    pub use_docker_host: bool,
}

/// Blockchain RPC endpoints.
#[derive(Clone, Default, Debug)]
pub struct Chains {
    pub eth_rpc: String,
    pub gno_rpc: String,
}

/// Storage layout: the root path, the parent-directory-name template, and
/// how many nodes share one parent directory.
#[derive(Clone, Default, Debug)]
pub struct Storage {
    pub root_path: String,
    pub parent_dir_format: String,
    pub parent_dir_capacity: u8,
}

/// The whole static configuration.
#[derive(Clone, Default, Debug)]
pub struct Config {
    pub bee: Bee,
    pub network: Network,
    pub chains: Chains,
    pub storage: Storage,
}

} // verus!
