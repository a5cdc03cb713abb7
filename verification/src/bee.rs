//! The single-type node API: an identity, its assigned neighborhood, and the
//! reserve-doubling flag, with the derivations that depend on the identity
//! alone.

use crate::bee_fn::format_id;
use crate::bee_fn::get_new_bee_id;
use crate::bee_fn::get_node_name;
use crate::bee_fn::node_name_spec;
use crate::errors::Error;
use crate::models::BeeData;
use crate::network_fn::get_port;
use crate::network_fn::invalid_port_msg;
use crate::network_fn::resolved_port;
use crate::registry::has_id;
use crate::registry::insert_pos;
use crate::registry::Registry;
use crate::storage_fn::dir_index;
use crate::strutil::concat3;
use crate::strutil::pad2;
use crate::strutil::replace_xx;
use crate::strutil::subst_xx;
use crate::templates::is_valid_dir_template;
use crate::templates::valid_dir_template;
use crate::templates::valid_port_template;
use vstd::prelude::*;

verus! {

/// The report for a directory-name template that fails its pattern.
pub open spec fn invalid_volume_msg(fmt: Seq<char>) -> Seq<char> {
    "Invalid volume name format '"@ + fmt + "'"@
}

#[derive(Debug)]
pub struct Bee {
    pub id: u8,
    pub neighborhood: String,
    pub reserve_doubling: bool,
}

impl Clone for Bee {
    /// An exact copy of the node.
    fn clone(&self) -> (r: Bee)
        ensures
            r == *self,
    {
        Bee { id: self.id, neighborhood: self.neighborhood.clone(), reserve_doubling: self.reserve_doubling }
    }
}

impl Bee {
    /// A node identity rendered as exactly two decimal digits.
    pub fn format_id(id: u8) -> (r: String)
        requires
            id <= 99,
        ensures
            r@ == pad2(id as int),
    {
        format_id(id)
    }

    /// The container name of node `id`.
    pub fn get_name(id: u8) -> (r: String)
        requires
            id <= 99,
        ensures
            r@ == node_name_spec(id as int),
    {
        get_node_name(id)
    }

    /// Resolves the port of node `id` against `base_port`.  Succeeds exactly
    /// when `base_port` is a valid port template.
    pub fn get_port(id: u8, base_port: &str) -> (r: Result<String, Error>)
        requires
            id <= 99,
        ensures
            r is Ok <==> valid_port_template(base_port@),
            r matches Ok(p) ==> p@ == resolved_port(base_port@, id as int),
            r matches Err(e) ==> e matches Error::InvalidTemplate { message } && message@
                == invalid_port_msg(base_port@),
    {
        get_port(id, base_port)
    }

    /// The 1-based index of the parent directory that holds node `bee_id`
    /// when each parent directory holds `dir_capacity` nodes.
    pub fn get_dir_id(bee_id: u8, dir_capacity: u8) -> (r: u8)
        requires
            1 <= bee_id,
            1 <= dir_capacity,
        ensures
            r as int == dir_index(bee_id as int, dir_capacity as int),
            1 <= r as int <= bee_id as int,
    {
        proof {
            assert((bee_id - 1) as int / dir_capacity as int <= (bee_id - 1) as int)
                by (nonlinear_arith)
                requires
                    1 <= bee_id,
                    1 <= dir_capacity,
            ;
        }
        (bee_id - 1) / dir_capacity + 1
    }

    /// Derives the parent-directory name of node `bee_id` from a template.
    /// Succeeds exactly when the template is valid, and then substitutes the
    /// two-digit parent index for each `xx` in it.
    pub fn get_dir_name(bee_id: u8, dir_name_format: &str, dir_capacity: u8) -> (r: Result<
        String,
        Error,
    >)
        requires
            1 <= bee_id <= 99,
            1 <= dir_capacity,
        ensures
            r is Ok <==> valid_dir_template(dir_name_format@),
            r matches Ok(p) ==> p@ == subst_xx(
                dir_name_format@,
                pad2(dir_index(bee_id as int, dir_capacity as int)),
            ),
            r matches Err(e) ==> e matches Error::InvalidTemplate { message } && message@
                == invalid_volume_msg(dir_name_format@),
    {
        if !is_valid_dir_template(dir_name_format) {
            let message = concat3("Invalid volume name format '", dir_name_format, "'");
            return Err(Error::InvalidTemplate { message });
        }
        let dir_id = Self::get_dir_id(bee_id, dir_capacity);
        let two = format_id(dir_id);
        Ok(replace_xx(dir_name_format, two.as_str()))
    }

    /// Registers a fresh node: checks capacity, takes the smallest free
    /// identity, and stores a record with an empty neighborhood and default
    /// flags.
    pub fn create(db: &mut Registry) -> (r: Result<Bee, Error>)
        requires
            old(db).wf(),
        ensures
            final(db).wf(),
            old(db)@.len() >= 99 ==> (r matches Err(e) && e == Error::CapacityExceeded
                && final(db)@ == old(db)@),
            old(db)@.len() < 99 && (forall|j: int| 1 <= j <= 99 ==> has_id(old(db)@, j)) ==> (
            r matches Err(e) && e == Error::IdUnavailable && final(db)@ == old(db)@),
            old(db)@.len() < 99 && !(forall|j: int| 1 <= j <= 99 ==> has_id(old(db)@, j))
                ==> r is Ok,
            r matches Ok(bee) ==> {
                &&& old(db)@.len() < 99
                &&& 1 <= bee.id <= 99
                &&& !has_id(old(db)@, bee.id as int)
                &&& forall|j: int| 1 <= j < bee.id ==> has_id(old(db)@, j)
                &&& bee.neighborhood@ == Seq::<char>::empty()
                &&& !bee.reserve_doubling
                &&& final(db)@ == old(db)@.insert(
                    insert_pos(old(db)@, bee.id),
                    final(db)@[insert_pos(old(db)@, bee.id)],
                )
                &&& final(db)@[insert_pos(old(db)@, bee.id)].id == bee.id
                &&& final(db)@[insert_pos(old(db)@, bee.id)].neighborhood@ == Seq::<char>::empty()
                &&& !final(db)@[insert_pos(old(db)@, bee.id)].reserve_doubling
                &&& !final(db)@[insert_pos(old(db)@, bee.id)].full_node
                &&& !final(db)@[insert_pos(old(db)@, bee.id)].swap_enable
            },
    {
        let count = db.count_bees();
        if count >= 99 {
            return Err(Error::CapacityExceeded);
        }
        let new_id = match get_new_bee_id(db) {
            Ok(i) => i,
            Err(e) => {
                return Err(e);
            },
        };
        let record = BeeData {
            id: new_id,
            neighborhood: String::new(),
            full_node: false,
            swap_enable: false,
            reserve_doubling: false,
            data_dir: String::new(),
        };
        let ghost rec = record;
        proof {
            crate::registry::lemma_insert_pos_props(db@, new_id);
        }
        db.add_bee(record);
        proof {
            let ip = insert_pos(old(db)@, new_id);
            assert(0 <= ip <= old(db)@.len());
            assert(db@ == old(db)@.insert(ip, rec));
            assert(db@[ip] == rec);
        }
        Ok(Bee { id: new_id, neighborhood: String::new(), reserve_doubling: false })
    }

    /// The container name of this node.
    pub fn name(&self) -> (r: String)
        requires
            self.id <= 99,
        ensures
            r@ == node_name_spec(self.id as int),
    {
        Self::get_name(self.id)
    }
}

} // verus!
