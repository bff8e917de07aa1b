//! Security-group rules as the provider reports them.

use vstd::prelude::*;

verus! {

/// One security-group rule as read back from the provider: a transient
/// view of provider-owned state, used only to decide what to delete.
/// The listing is not scoped to the target group, so rules of every
/// group the credentials can see may appear here.
pub struct IngressRule {
    /// The provider's identifier for the rule itself.
    pub rule_id: String,
    /// The security group the rule belongs to.
    pub group_id: String,
    /// Egress rules are never touched.
    pub is_egress: bool,
    /// The rule's IPv4 source range, absent on IPv6-only or
    /// group-referencing rules.
    pub ipv4_cidr: Option<String>,
}

/// The wipe phase deletes exactly the rules that are ingress and carry
/// an IPv4 CIDR; everything else is left standing.
pub open spec fn wipe_target(r: IngressRule) -> bool {
    r.ipv4_cidr is Some && !r.is_egress
}

} // verus!
