//! Which subnet a catch-up package belongs to, and whether the node is
//! still a member of it.

use crate::registry::Registry;
use crate::types::{CatchUpPackage, CupSummary, NodeId, SignerTarget, SubnetId, SubnetIdError};
use vstd::prelude::*;

verus! {

/// The subnet that a catch-up package belongs to. A package signed by its own
/// subnet names it; for a genesis or recovery package the registry says, at the
/// package's registry version, where the first member of the first current
/// committee belongs.
pub open spec fn subnet_id_of(registry: Registry, cup: CatchUpPackage) -> Result<
    SubnetId,
    SubnetIdError,
> {
    if cup.target_subnet == SignerTarget::Local {
        Ok(cup.dealer_subnet)
    } else if cup.current_committees@.len() == 0 {
        Err(SubnetIdError::NoCurrentTranscript)
    } else if cup.current_committees@[0]@.len() == 0 {
        Err(SubnetIdError::EmptyCommittee)
    } else {
        let node = cup.current_committees@[0]@[0];
        match registry.subnet_of_node_at(node, cup.registry_version) {
            Some(subnet) => Ok(subnet),
            None => Err(SubnetIdError::NotInRegistry { node, version: cup.registry_version }),
        }
    }
}

/// Derives the subnet of `cup`.
pub fn get_subnet_id(registry: &Registry, cup: &CatchUpPackage) -> (r: Result<
    SubnetId,
    SubnetIdError,
>)
    ensures
        r == subnet_id_of(*registry, *cup),
        cup.target_subnet == SignerTarget::Local ==> r == Ok::<SubnetId, SubnetIdError>(
            cup.dealer_subnet,
        ),
        cup.target_subnet == SignerTarget::Remote && cup.current_committees@.len() == 0 ==> r
            == Err::<SubnetId, SubnetIdError>(SubnetIdError::NoCurrentTranscript),
{
    match cup.target_subnet {
        SignerTarget::Local => Ok(cup.dealer_subnet),
        SignerTarget::Remote => {
            if cup.current_committees.len() == 0 {
                return Err(SubnetIdError::NoCurrentTranscript);
            }
            let committee = &cup.current_committees[0];
            if committee.len() == 0 {
                return Err(SubnetIdError::EmptyCommittee);
            }
            let node = committee[0];
            match registry.get_subnet_id_from_node_id(node, cup.registry_version) {
                Some(subnet) => Ok(subnet),
                None => Err(SubnetIdError::NotInRegistry { node, version: cup.registry_version }),
            }
        },
    }
}

/// A package signed by its own subnet names that subnet whatever the registry
/// holds.
pub proof fn lemma_local_signer_ignores_registry(a: Registry, b: Registry, cup: CatchUpPackage)
    requires
        cup.target_subnet == SignerTarget::Local,
    ensures
        subnet_id_of(a, cup) == subnet_id_of(b, cup),
        subnet_id_of(a, cup) == Ok::<SubnetId, SubnetIdError>(cup.dealer_subnet),
{
}

/// Whether the registry lists `node` on `subnet` at no version from `oldest`
/// to `latest`, both included.
pub open spec fn absent_throughout(
    registry: Registry,
    node: NodeId,
    subnet: SubnetId,
    oldest: u64,
    latest: u64,
) -> bool {
    forall|v: u64| oldest <= v <= latest ==> !#[trigger] registry.is_member_at(subnet, v, node)
}

/// Whether the node has left the subnet: the registry's latest version is not
/// behind the oldest version the package still uses, and from the one to the
/// other no version lists the node.
pub open spec fn left_subnet(
    registry: Registry,
    node: NodeId,
    subnet: SubnetId,
    cup: CupSummary,
) -> bool {
    &&& cup.oldest_registry_version_in_use <= registry.latest_version
    &&& absent_throughout(
        registry,
        node,
        subnet,
        cup.oldest_registry_version_in_use,
        registry.latest_version,
    )
}

/// Checks whether the node still belongs to the subnet it was last assigned
/// to, from the oldest version that `cup` uses up to the registry's latest.
pub fn should_node_become_unassigned(
    registry: &Registry,
    node_id: NodeId,
    subnet_id: SubnetId,
    cup: &CupSummary,
) -> (r: bool)
    ensures
        r == left_subnet(*registry, node_id, subnet_id, *cup),
        registry.latest_version < cup.oldest_registry_version_in_use ==> !r,
        (exists|v: u64|
            cup.oldest_registry_version_in_use <= v <= registry.latest_version
                && registry.is_member_at(subnet_id, v, node_id)) ==> !r,
{
    let oldest = cup.oldest_registry_version_in_use;
    let latest = registry.get_latest_version();
    if latest < oldest {
        return false;
    }
    let mut version: u64 = oldest;
    loop
        invariant
            oldest <= version <= latest,
            latest == registry.latest_version,
            oldest == cup.oldest_registry_version_in_use,
            forall|v: u64| oldest <= v < version ==> !#[trigger] registry.is_member_at(subnet_id, v, node_id),
        decreases latest - version,
    {
        if registry.is_member(subnet_id, version, node_id) {
            return false;
        }
        if version == latest {
            return true;
        }
        version += 1;
    }
}

} // verus!
