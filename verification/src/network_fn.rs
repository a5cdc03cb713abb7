//! Port resolution: substituting a node identity into a validated port
//! template.

use crate::errors::Error;
use crate::models::Config;
use crate::strutil::concat3;
use crate::strutil::lemma_subst_pure_prefix;
use crate::strutil::pad2;
use crate::strutil::replace_xx;
use crate::strutil::subst_xx;
use crate::templates::is_valid_port_template;
use crate::templates::lemma_port_template_prefix_free;
use crate::templates::valid_port_template;
use vstd::prelude::*;

verus! {

/// The port string obtained from a valid template: its digits, then the
/// two-digit form of the identity in place of the `xx` ending.
pub open spec fn resolved_port(base: Seq<char>, id: int) -> Seq<char> {
    base.take(base.len() - 2) + pad2(id)
}

/// Ports never collide: one template resolves distinct identities to
/// distinct port strings.
pub proof fn lemma_resolved_ports_disjoint(base: Seq<char>, a: int, b: int)
    requires
        valid_port_template(base),
        0 <= a <= 99,
        0 <= b <= 99,
        a != b,
    ensures
        resolved_port(base, a) != resolved_port(base, b),
{
    crate::strutil::lemma_pad2_injective(a, b);
    if resolved_port(base, a) == resolved_port(base, b) {
        let l = base.len() - 2;
        assert(resolved_port(base, a)[l] == pad2(a)[0]);
        assert(resolved_port(base, a)[l + 1] == pad2(a)[1]);
        assert(resolved_port(base, b)[l] == pad2(b)[0]);
        assert(resolved_port(base, b)[l + 1] == pad2(b)[1]);
        assert(pad2(a) =~= pad2(b));
        assert(false);
    }
}

/// The report for a template that fails the port pattern.
pub open spec fn invalid_port_msg(base: Seq<char>) -> Seq<char> {
    "Invalid base port '"@ + base + "'"@
}

/// Resolves the port of node `id` against `base_port`.  Succeeds exactly when
/// `base_port` is a valid port template, and then substitutes the two-digit
/// identity for the `xx` ending.
pub fn get_port(id: u8, base_port: &str) -> (r: Result<String, Error>)
    requires
        id <= 99,
    ensures
        r is Ok <==> valid_port_template(base_port@),
        r matches Ok(p) ==> p@ == resolved_port(base_port@, id as int) && p@ == subst_xx(
            base_port@,
            pad2(id as int),
        ),
        r matches Err(e) ==> e matches Error::InvalidTemplate { message } && message@
            == invalid_port_msg(base_port@),
{
    if !is_valid_port_template(base_port) {
        let message = concat3("Invalid base port '", base_port, "'");
        return Err(Error::InvalidTemplate { message });
    }
    let two = crate::bee_fn::format_id(id);
    let out = replace_xx(base_port, two.as_str());
    proof {
        lemma_port_template_prefix_free(base_port@);
        lemma_subst_pure_prefix(base_port@, pad2(id as int));
    }
    Ok(out)
}

/// Resolves the management-API port of node `id` from the configuration.
pub fn get_api_port(config: &Config, id: u8) -> (r: Result<String, Error>)
    requires
        id <= 99,
    ensures
        r is Ok <==> valid_port_template(config.network.api_port@),
        r matches Ok(p) ==> p@ == resolved_port(config.network.api_port@, id as int),
        r matches Err(e) ==> e matches Error::InvalidTemplate { message } && message@
            == invalid_port_msg(config.network.api_port@),
{
    get_port(id, config.network.api_port.as_str())
}

/// Resolves the peer-to-peer port of node `id` from the configuration.
pub fn get_p2p_port(config: &Config, id: u8) -> (r: Result<String, Error>)
    requires
        id <= 99,
    ensures
        r is Ok <==> valid_port_template(config.network.p2p_port@),
        r matches Ok(p) ==> p@ == resolved_port(config.network.p2p_port@, id as int),
        r matches Err(e) ==> e matches Error::InvalidTemplate { message } && message@
            == invalid_port_msg(config.network.p2p_port@),
{
    get_port(id, config.network.p2p_port.as_str())
}

} // verus!
