//! The lifecycle decisions: bounded identity allocation, the provisioning
//! plan that precedes any side effect, and the two-phase deletion workflow.

use crate::bee_fn::ensure_capacity;
use crate::bee_fn::get_new_bee_id;
use crate::bee_fn::get_node_name;
use crate::bee_fn::node_name_spec;
use crate::errors::Error;
use crate::guard::can_confirm_spec;
use crate::guard::DeletionGuard;
use crate::models::BeeData;
use crate::models::Config;
use crate::network_fn::get_api_port;
use crate::network_fn::get_p2p_port;
use crate::network_fn::invalid_port_msg;
use crate::network_fn::resolved_port;
use crate::registry::first_match;
use crate::registry::has_id;
use crate::registry::remove_first;
use crate::registry::Registry;
use crate::storage_fn::get_node_path;
use crate::storage_fn::invalid_parent_msg;
use crate::storage_fn::node_path_spec;
use crate::templates::valid_dir_template;
use crate::templates::valid_port_template;
use vstd::prelude::*;

verus! {

/// True when `ids` holds `x`.
fn ids_contain(ids: &Vec<u8>, x: u8) -> (b: bool)
    ensures
        b == ids@.contains(x),
{
    let len = ids.len();
    let mut k: usize = 0;
    while k < len
        invariant
            0 <= k <= len,
            len == ids@.len(),
            forall|j: int| 0 <= j < k ==> ids@[j] != x,
        decreases len - k,
    {
        if ids[k] == x {
            return true;
        }
        k = k + 1;
    }
    false
}

/// Returns the smallest identity in 1..=99 not present in `existing_ids`: a
/// freed identity is reused before the range is extended, and the result is a
/// pure function of the given set.  Fails with `CapacityExceeded` when no
/// identity is free; on the closed identity domain 1..=99, a full registry
/// and an exhausted scan are the same condition.
pub fn allocate(existing_ids: &Vec<u8>) -> (r: Result<u8, Error>)
    ensures
        r matches Ok(i) ==> 1 <= i <= 99 && !existing_ids@.contains(i) && (forall|j: u8|
            1 <= j < i ==> existing_ids@.contains(j)),
        r is Err <==> (forall|j: u8| 1 <= j <= 99 ==> existing_ids@.contains(j)),
        r matches Err(e) ==> e == Error::CapacityExceeded,
{
    let mut cand: u8 = 1;
    while cand <= 99
        invariant
            1 <= cand <= 100,
            forall|j: u8| 1 <= j < cand ==> existing_ids@.contains(j),
        decreases 100 - cand,
    {
        if !ids_contain(existing_ids, cand) {
            return Ok(cand);
        }
        cand = cand + 1;
    }
    Err(Error::CapacityExceeded)
}

/// Allocation is deterministic: it is a pure function of the set of taken
/// identities, whatever order or multiplicity they arrive in.  Any two
/// results that meet `allocate`'s success contract for the same set agree.
pub proof fn lemma_allocate_deterministic(ids1: Seq<u8>, ids2: Seq<u8>, r1: u8, r2: u8)
    requires
        forall|x: u8| ids1.contains(x) <==> ids2.contains(x),
        1 <= r1 <= 99 && !ids1.contains(r1) && (forall|j: u8| 1 <= j < r1 ==> ids1.contains(j)),
        1 <= r2 <= 99 && !ids2.contains(r2) && (forall|j: u8| 1 <= j < r2 ==> ids2.contains(j)),
    ensures
        r1 == r2,
{
    if r1 < r2 {
        assert(ids2.contains(r1));
        assert(ids1.contains(r1));
        assert(false);
    }
    if r2 < r1 {
        assert(ids1.contains(r2));
        assert(ids2.contains(r2));
        assert(false);
    }
}

/// Everything provisioning derives before it touches any collaborator: the
/// allocated identity, the container name, the storage path, and both ports.
#[derive(Debug)]
pub struct ProvisionPlan {
    pub id: u8,
    pub node_name: String,
    pub node_path: String,
    pub api_port: String,
    pub p2p_port: String,
}

/// Derives the provisioning plan for the next node, mutating nothing: the
/// capacity check, the identity allocation, and both resolutions run before
/// any directory, container, or record is created.  Failure precedence:
/// capacity, identity, directory template, API port template, peer-to-peer
/// port template.
pub fn plan_provision(config: &Config, db: &Registry) -> (r: Result<ProvisionPlan, Error>)
    requires
        db.wf(),
        1 <= config.storage.parent_dir_capacity,
    ensures
        r is Ok <==> {
            &&& db@.len() < 99
            &&& !(forall|j: int| 1 <= j <= 99 ==> has_id(db@, j))
            &&& valid_dir_template(config.storage.parent_dir_format@)
            &&& valid_port_template(config.network.api_port@)
            &&& valid_port_template(config.network.p2p_port@)
        },
        r matches Ok(plan) ==> {
            &&& 1 <= plan.id <= 99
            &&& !has_id(db@, plan.id as int)
            &&& forall|j: int| 1 <= j < plan.id ==> has_id(db@, j)
            &&& plan.node_name@ == node_name_spec(plan.id as int)
            &&& plan.node_path@ == node_path_spec(
                config.storage.root_path@,
                config.storage.parent_dir_format@,
                plan.id as int,
                config.storage.parent_dir_capacity as int,
            )
            &&& plan.api_port@ == resolved_port(config.network.api_port@, plan.id as int)
            &&& plan.p2p_port@ == resolved_port(config.network.p2p_port@, plan.id as int)
        },
        r matches Err(e) ==> (if db@.len() >= 99 {
            e == Error::CapacityExceeded
        } else if forall|j: int| 1 <= j <= 99 ==> has_id(db@, j) {
            e == Error::IdUnavailable
        } else if !valid_dir_template(config.storage.parent_dir_format@) {
            e matches Error::InvalidTemplate { message } && message@ == invalid_parent_msg(
                config.storage.parent_dir_format@,
            )
        } else if !valid_port_template(config.network.api_port@) {
            e matches Error::InvalidTemplate { message } && message@ == invalid_port_msg(
                config.network.api_port@,
            )
        } else {
            e matches Error::InvalidTemplate { message } && message@ == invalid_port_msg(
                config.network.p2p_port@,
            )
        }),
{
    if !ensure_capacity(db) {
        return Err(Error::CapacityExceeded);
    }
    let id = match get_new_bee_id(db) {
        Ok(i) => i,
        Err(e) => {
            return Err(e);
        },
    };
    let node_path = match get_node_path(config, id) {
        Ok(p) => p,
        Err(e) => {
            return Err(e);
        },
    };
    let api_port = match get_api_port(config, id) {
        Ok(p) => p,
        Err(e) => {
            return Err(e);
        },
    };
    let p2p_port = match get_p2p_port(config, id) {
        Ok(p) => p,
        Err(e) => {
            return Err(e);
        },
    };
    let node_name = get_node_name(id);
    Ok(ProvisionPlan { id, node_name, node_path, api_port, p2p_port })
}

/// Returns the record of node `bee_id`, or `NotFound` when no node carries
/// that identity.
pub fn find_bee(db: &Registry, bee_id: u8) -> (r: Result<BeeData, Error>)
    ensures
        r is Ok <==> has_id(db@, bee_id as int),
        r matches Ok(b) ==> first_match(db@, bee_id) >= 0 && b == db@[first_match(db@, bee_id)],
        r matches Err(e) ==> e matches Error::NotFound { id } && id == bee_id,
{
    match db.get_bee(bee_id) {
        Some(b) => Ok(b),
        None => Err(Error::NotFound { id: bee_id }),
    }
}

/// The first phase of deletion: records the request time for an existing
/// node, or fails with `NotFound` and changes nothing.
pub fn request_bee_deletion(db: &Registry, guard: &mut DeletionGuard, bee_id: u8, now_ms: u64) -> (r:
    Result<(), Error>)
    ensures
        r is Ok <==> has_id(db@, bee_id as int),
        r is Ok ==> final(guard)@ == old(guard)@.insert(bee_id, now_ms),
        r matches Err(e) ==> e matches Error::NotFound { id } && id == bee_id && final(guard)@
            == old(guard)@,
{
    match find_bee(db, bee_id) {
        Ok(_) => {
            guard.request_deletion(bee_id, now_ms);
            Ok(())
        },
        Err(e) => Err(e),
    }
}

/// The second phase of deletion: for an existing node whose deletion request
/// is younger than the confirmation window, removes the record and then the
/// ticket — the ticket is cleared only once the deletion has succeeded, so a
/// failed deletion can be retried within the window without a new request.
/// An unknown identity fails with `NotFound`; a missing or expired ticket
/// fails with `ConfirmationRequired`, the two indistinguishably.  Either
/// failure changes nothing.
pub fn confirm_and_delete(db: &mut Registry, guard: &mut DeletionGuard, bee_id: u8, now_ms: u64) -> (r:
    Result<(), Error>)
    requires
        old(db).wf(),
    ensures
        final(db).wf(),
        r is Ok <==> has_id(old(db)@, bee_id as int) && can_confirm_spec(
            old(guard)@,
            bee_id,
            now_ms,
        ),
        r is Ok ==> final(db)@ == remove_first(old(db)@, bee_id) && final(guard)@ == old(
            guard,
        )@.remove(bee_id),
        r matches Err(e) ==> final(db)@ == old(db)@ && final(guard)@ == old(guard)@ && (if !has_id(
            old(db)@,
            bee_id as int,
        ) {
            e matches Error::NotFound { id } && id == bee_id
        } else {
            e matches Error::ConfirmationRequired { id } && id == bee_id
        }),
{
    match find_bee(db, bee_id) {
        Ok(_) => (),
        Err(e) => {
            return Err(e);
        },
    };
    if !guard.can_confirm(bee_id, now_ms) {
        return Err(Error::ConfirmationRequired { id: bee_id });
    }
    db.delete_bee(bee_id);
    guard.clear(bee_id);
    Ok(())
}

} // verus!
