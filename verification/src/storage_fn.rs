//! Storage layout resolution: grouping nodes into parent directories of fixed
//! capacity and deriving each node's exclusive directory path.

use crate::bee_fn::format_id;
use crate::bee_fn::get_node_name;
use crate::bee_fn::node_name_spec;
use crate::errors::Error;
use crate::models::Config;
use crate::strutil::concat3;
use crate::strutil::pad2;
use crate::strutil::replace_xx;
use crate::strutil::subst_xx;
use crate::templates::is_valid_dir_template;
use crate::templates::valid_dir_template;
use vstd::prelude::*;

verus! {

use vstd::string::StrSliceExecFns;
use vstd::string::StringExecFns;

/// The 1-based index of the parent directory that holds node `id` when each
/// parent directory holds `capacity` nodes.
pub open spec fn dir_index(id: int, capacity: int) -> int {
    (id - 1) / capacity + 1
}

/// The name of the parent directory of node `id`: the template with the
/// two-digit parent index substituted for each `xx`.
pub open spec fn parent_dir_name(fmt: Seq<char>, id: int, capacity: int) -> Seq<char> {
    subst_xx(fmt, pad2(dir_index(id, capacity)))
}

/// The report for a template that fails the directory-name pattern.
pub open spec fn invalid_parent_msg(fmt: Seq<char>) -> Seq<char> {
    "Invalid parent name format '"@ + fmt + "'"@
}

/// Joining of two path segments with a single separator.  An empty left side
/// yields the right side alone; a left side already ending in a separator
/// gains no second one.
pub open spec fn path_join_spec(a: Seq<char>, b: Seq<char>) -> Seq<char> {
    if a.len() == 0 {
        b
    } else if a[a.len() - 1] == '/' {
        a + b
    } else {
        a + seq!['/'] + b
    }
}

/// The full path of the exclusive storage directory of node `id`.
pub open spec fn node_path_spec(root: Seq<char>, fmt: Seq<char>, id: int, capacity: int) -> Seq<
    char,
> {
    path_join_spec(path_join_spec(root, parent_dir_name(fmt, id, capacity)), node_name_spec(id))
}

/// Joining keeps the right-hand segment intact: two joins with equally long
/// right-hand segments can only agree when those segments agree.
pub proof fn lemma_join_keeps_tail(p1: Seq<char>, q1: Seq<char>, p2: Seq<char>, q2: Seq<char>)
    requires
        q1.len() == q2.len(),
        path_join_spec(p1, q1) == path_join_spec(p2, q2),
    ensures
        q1 == q2,
{
    let pre1 = if p1.len() == 0 {
        Seq::<char>::empty()
    } else if p1[p1.len() - 1] == '/' {
        p1
    } else {
        p1 + seq!['/']
    };
    let pre2 = if p2.len() == 0 {
        Seq::<char>::empty()
    } else if p2[p2.len() - 1] == '/' {
        p2
    } else {
        p2 + seq!['/']
    };
    assert(path_join_spec(p1, q1) =~= pre1 + q1);
    assert(path_join_spec(p2, q2) =~= pre2 + q2);
    assert(pre1.len() == pre2.len());
    assert forall|i: int| 0 <= i < q1.len() implies q1[i] == q2[i] by {
        assert((pre1 + q1)[pre1.len() + i] == q1[i]);
        assert((pre2 + q2)[pre2.len() + i] == q2[i]);
    }
    assert(q1 =~= q2);
}

/// Storage directories never collide: one configuration derives disjoint
/// paths for distinct identities, whatever their parent directories are.
pub proof fn lemma_node_paths_disjoint(
    root: Seq<char>,
    fmt: Seq<char>,
    capacity: int,
    a: int,
    b: int,
)
    requires
        0 <= a <= 99,
        0 <= b <= 99,
        a != b,
    ensures
        node_path_spec(root, fmt, a, capacity) != node_path_spec(root, fmt, b, capacity),
{
    crate::bee_fn::lemma_node_names_disjoint(a, b);
    if node_path_spec(root, fmt, a, capacity) == node_path_spec(root, fmt, b, capacity) {
        lemma_join_keeps_tail(
            path_join_spec(root, parent_dir_name(fmt, a, capacity)),
            node_name_spec(a),
            path_join_spec(root, parent_dir_name(fmt, b, capacity)),
            node_name_spec(b),
        );
        assert(false);
    }
}

/// Joins two path segments with a single separator.
pub fn path_join(a: &str, b: &str) -> (r: String)
    ensures
        r@ == path_join_spec(a@, b@),
{
    let len = a.unicode_len();
    if len == 0 {
        return b.to_owned();
    }
    let mut s = a.to_owned();
    if a.get_char(len - 1) != '/' {
        s.push('/');
        proof {
            assert(s@ =~= a@ + seq!['/']);
        }
    }
    s.append(b);
    s
}

/// Computes the 1-based parent-directory index of node `bee_id`.
pub fn get_dir_id(config: &Config, bee_id: u8) -> (r: u8)
    requires
        1 <= bee_id,
        1 <= config.storage.parent_dir_capacity,
    ensures
        r as int == dir_index(bee_id as int, config.storage.parent_dir_capacity as int),
        1 <= r as int <= bee_id as int,
{
    let capacity = config.storage.parent_dir_capacity;
    proof {
        assert((bee_id - 1) as int / capacity as int <= (bee_id - 1) as int) by (nonlinear_arith)
            requires
                1 <= bee_id,
                1 <= capacity,
        ;
    }
    (bee_id - 1) / capacity + 1
}

/// Derives the parent-directory name of node `bee_id`.  Succeeds exactly when
/// the configured template is valid, and then substitutes the two-digit
/// parent index for each `xx` in it.
pub fn get_parent_dir_name(config: &Config, bee_id: u8) -> (r: Result<String, Error>)
    requires
        1 <= bee_id <= 99,
        1 <= config.storage.parent_dir_capacity,
    ensures
        r is Ok <==> valid_dir_template(config.storage.parent_dir_format@),
        r matches Ok(p) ==> p@ == parent_dir_name(
            config.storage.parent_dir_format@,
            bee_id as int,
            config.storage.parent_dir_capacity as int,
        ),
        r matches Err(e) ==> e matches Error::InvalidTemplate { message } && message@
            == invalid_parent_msg(config.storage.parent_dir_format@),
{
    let fmt = config.storage.parent_dir_format.as_str();
    if !is_valid_dir_template(fmt) {
        let message = concat3("Invalid parent name format '", fmt, "'");
        return Err(Error::InvalidTemplate { message });
    }
    let dir_id = get_dir_id(config, bee_id);
    let two = format_id(dir_id);
    Ok(replace_xx(fmt, two.as_str()))
}

/// Derives the full storage path of node `bee_id`: the configured root, the
/// parent-directory name, and the node's own directory name.
pub fn get_node_path(config: &Config, bee_id: u8) -> (r: Result<String, Error>)
    requires
        1 <= bee_id <= 99,
        1 <= config.storage.parent_dir_capacity,
    ensures
        r is Ok <==> valid_dir_template(config.storage.parent_dir_format@),
        r matches Ok(p) ==> p@ == node_path_spec(
            config.storage.root_path@,
            config.storage.parent_dir_format@,
            bee_id as int,
            config.storage.parent_dir_capacity as int,
        ),
        r matches Err(e) ==> e matches Error::InvalidTemplate { message } && message@
            == invalid_parent_msg(config.storage.parent_dir_format@),
{
    let parent_name = match get_parent_dir_name(config, bee_id) {
        Ok(p) => p,
        Err(e) => {
            return Err(e);
        },
    };
    let parent_path = path_join(config.storage.root_path.as_str(), parent_name.as_str());
    let node_name = get_node_name(bee_id);
    Ok(path_join(parent_path.as_str(), node_name.as_str()))
}

} // verus!
