//! Node-level operations: identity formatting, record construction, and the
//! record-to-view conversion.

use crate::errors::Error;
use crate::models::BeeData;
use crate::models::BeeInfo;
use crate::models::Config;
use crate::network_fn::get_api_port;
use crate::network_fn::get_p2p_port;
use crate::network_fn::invalid_port_msg;
use crate::network_fn::resolved_port;
use crate::registry::has_id;
use crate::registry::insert_pos;
use crate::registry::remove_first;
use crate::registry::sorted_by_id;
use crate::registry::Registry;
use crate::strutil::pad2;
use crate::strutil::push_pad2;
use crate::templates::valid_port_template;
use vstd::prelude::*;

verus! {


/// A node identity rendered as exactly two decimal digits.
pub fn format_id(id: u8) -> (r: String)
    requires
        id <= 99,
    ensures
        r@ == pad2(id as int),
{
    let mut s = String::new();
    push_pad2(&mut s, id);
    proof {
        assert(Seq::<char>::empty() + pad2(id as int) =~= pad2(id as int));
    }
    s
}

/// The container name derived from a node identity.
pub open spec fn node_name_spec(id: int) -> Seq<char> {
    "node_"@ + pad2(id)
}

/// Container names never collide: distinct identities derive distinct names.
pub proof fn lemma_node_names_disjoint(a: int, b: int)
    requires
        0 <= a <= 99,
        0 <= b <= 99,
        a != b,
    ensures
        node_name_spec(a) != node_name_spec(b),
{
    crate::strutil::lemma_pad2_injective(a, b);
    if node_name_spec(a) == node_name_spec(b) {
        let l = "node_"@.len() as int;
        assert(node_name_spec(a)[l] == pad2(a)[0]);
        assert(node_name_spec(a)[l + 1] == pad2(a)[1]);
        assert(node_name_spec(b)[l] == pad2(b)[0]);
        assert(node_name_spec(b)[l + 1] == pad2(b)[1]);
        assert(pad2(a) =~= pad2(b));
        assert(false);
    }
}

/// The container name of node `id`: `node_` followed by the two-digit id.
pub fn get_node_name(id: u8) -> (r: String)
    requires
        id <= 99,
    ensures
        r@ == node_name_spec(id as int),
{
    let mut s = "node_".to_owned();
    push_pad2(&mut s, id);
    s
}

/// Builds the durable record for a freshly provisioned node: the identity and
/// neighborhood are per-node, the operational flags are copied from static
/// configuration.
pub fn new_bee_data(config: &Config, id: u8, neighborhood: &str, data_dir: &str) -> (r: BeeData)
    ensures
        r.id == id,
        r.neighborhood@ == neighborhood@,
        r.full_node == config.bee.full_node,
        r.swap_enable == config.bee.swap_enable,
        r.reserve_doubling == config.bee.reserve_doubling,
        r.data_dir@ == data_dir@,
{
    BeeData {
        id,
        neighborhood: neighborhood.to_owned(),
        full_node: config.bee.full_node,
        swap_enable: config.bee.swap_enable,
        reserve_doubling: config.bee.reserve_doubling,
        data_dir: data_dir.to_owned(),
    }
}

/// Derives the read-only node view from a record and the configuration,
/// resolving both ports.  Fails exactly when a port template is invalid; the
/// API template is checked first.
pub fn data_to_info(config: &Config, data: &BeeData) -> (r: Result<BeeInfo, Error>)
    requires
        data.id <= 99,
    ensures
        r is Ok <==> valid_port_template(config.network.api_port@) && valid_port_template(
            config.network.p2p_port@,
        ),
        r matches Ok(info) ==> {
            &&& info.id == data.id
            &&& info.name@ == node_name_spec(data.id as int)
            &&& info.image@ == config.bee.image@
            &&& info.neighborhood == data.neighborhood
            &&& info.full_node == data.full_node
            &&& info.swap_enable == data.swap_enable
            &&& info.reserve_doubling == data.reserve_doubling
            &&& info.data_dir == data.data_dir
            &&& info.api_port@ == resolved_port(config.network.api_port@, data.id as int)
            &&& info.p2p_port@ == resolved_port(config.network.p2p_port@, data.id as int)
        },
        r matches Err(e) ==> e matches Error::InvalidTemplate { message } && message@ == (
        if !valid_port_template(config.network.api_port@) {
            invalid_port_msg(config.network.api_port@)
        } else {
            invalid_port_msg(config.network.p2p_port@)
        }),
{
    let api_port = match get_api_port(config, data.id) {
        Ok(p) => p,
        Err(e) => {
            return Err(e);
        },
    };
    let p2p_port = match get_p2p_port(config, data.id) {
        Ok(p) => p,
        Err(e) => {
            return Err(e);
        },
    };
    Ok(BeeInfo::new(data, config.bee.image.as_str(), api_port.as_str(), p2p_port.as_str()))
}

/// True when the registry still has room for one more node: the fleet holds
/// at most 99 registered nodes.
pub fn ensure_capacity(db: &Registry) -> (b: bool)
    ensures
        b == (db@.len() < 99),
{
    db.count_bees() < 99
}

/// Returns the smallest identity in 1..=99 that no registered node carries.
/// Fails only when every identity in that range is taken, which a capacity
/// check preceding allocation makes unreachable.
pub fn get_new_bee_id(db: &Registry) -> (r: Result<u8, Error>)
    ensures
        r matches Ok(i) ==> 1 <= i <= 99 && !has_id(db@, i as int) && (forall|j: int|
            1 <= j < i ==> has_id(db@, j)),
        r is Err <==> (forall|j: int| 1 <= j <= 99 ==> has_id(db@, j)),
        r matches Err(e) ==> e == Error::IdUnavailable,
{
    let mut cand: u8 = 1;
    while cand <= 99
        invariant
            1 <= cand <= 100,
            forall|j: int| 1 <= j < cand ==> has_id(db@, j),
        decreases 100 - cand,
    {
        if !db.contains_id(cand) {
            return Ok(cand);
        }
        cand = cand + 1;
    }
    Err(Error::IdUnavailable)
}

/// Persists one record, provided the fleet is below capacity.  The record
/// itself is stored unchanged; duplicate identities are the caller's
/// responsibility.
pub fn save_bee(db: &mut Registry, bee_data: &BeeData) -> (r: Result<(), Error>)
    requires
        old(db).wf(),
    ensures
        final(db).wf(),
        old(db)@.len() >= 99 ==> (r matches Err(e) && e == Error::CapacityExceeded && final(db)@
            == old(db)@),
        old(db)@.len() < 99 ==> r is Ok && final(db)@ == old(db)@.insert(
            insert_pos(old(db)@, bee_data.id),
            *bee_data,
        ),
{
    if !ensure_capacity(db) {
        return Err(Error::CapacityExceeded);
    }
    db.add_bee(bee_data.clone());
    Ok(())
}

/// Returns the first registered record with identity `bee_id`, if any.
pub fn get_bee(db: &Registry, bee_id: u8) -> (r: Option<BeeData>)
    ensures
        r is Some <==> has_id(db@, bee_id as int),
        r matches Some(b) ==> crate::registry::first_match(db@, bee_id) >= 0 && b == db@[
            crate::registry::first_match(db@, bee_id)
        ],
{
    db.get_bee(bee_id)
}

/// Returns every registered record, in ascending identity order.
pub fn get_bees(db: &Registry) -> (r: Vec<BeeData>)
    requires
        db.wf(),
    ensures
        r@ == db@,
        sorted_by_id(r@),
{
    db.get_bees()
}

/// The number of registered nodes.
pub fn count_bees(db: &Registry) -> (r: u64)
    ensures
        r as int == db@.len(),
{
    db.count_bees()
}

/// Removes the record of node `bee_id` from the registry.  The node's storage
/// directory and container are the caller's collaborators to destroy; here
/// only the record leaves the store, and an absent identity is a no-op.
pub fn delete_bee(db: &mut Registry, bee_id: u8)
    requires
        old(db).wf(),
    ensures
        final(db).wf(),
        final(db)@ == remove_first(old(db)@, bee_id),
{
    db.delete_bee(bee_id);
}

} // verus!
