//! The registry as the controller reads it: records by key and version, and
//! the reads over them.

use crate::types::{NodeId, RegistryStore, SubnetId};
use vstd::prelude::*;

verus! {

/// What the registry holds of one subnet at one version.
#[derive(Clone, Debug, PartialEq, Eq)]
pub struct SubnetRecord {
    pub version: u64,
    pub subnet: SubnetId,
    pub members: Vec<NodeId>,
    /// The replica version the subnet is to run.
    pub replica_version: String,
    /// Set while the control-plane subnet is being recovered.
    pub registry_store: Option<RegistryStore>,
}

/// The replica version of unassigned nodes at one registry version.
#[derive(Clone, Debug, PartialEq, Eq)]
pub struct UnassignedRecord {
    pub version: u64,
    pub replica_version: String,
}

/// Where the image of one replica version is to be had.
#[derive(Clone, Debug, PartialEq, Eq)]
pub struct ReplicaVersionRecord {
    pub replica_version: String,
    /// The registry version at which the record is read.
    pub version: u64,
    pub release_package_urls: Vec<String>,
    /// The single URL of older records.
    pub release_package_url: String,
    pub release_package_sha256_hex: String,
}

/// A view of the registry: the answer to every read, by key and version.
/// Of several records under one key the first answers.
#[derive(Clone, Debug, PartialEq, Eq)]
pub struct Registry {
    pub latest_version: u64,
    pub subnets: Vec<SubnetRecord>,
    pub unassigned: Vec<UnassignedRecord>,
    pub releases: Vec<ReplicaVersionRecord>,
}

/// Index of the first record at or after `from` for `subnet` at `version`.
pub open spec fn first_subnet_record(
    recs: Seq<SubnetRecord>,
    subnet: SubnetId,
    version: u64,
    from: int,
) -> Option<int>
    decreases recs.len() - from,
{
    if from < 0 || from >= recs.len() {
        None
    } else if recs[from].subnet == subnet && recs[from].version == version {
        Some(from)
    } else {
        first_subnet_record(recs, subnet, version, from + 1)
    }
}

/// Index of the first record at or after `from` that lists `node` at `version`.
pub open spec fn first_assignment(
    recs: Seq<SubnetRecord>,
    node: NodeId,
    version: u64,
    from: int,
) -> Option<int>
    decreases recs.len() - from,
{
    if from < 0 || from >= recs.len() {
        None
    } else if recs[from].version == version && recs[from].members@.contains(node) {
        Some(from)
    } else {
        first_assignment(recs, node, version, from + 1)
    }
}

/// Index of the first record at or after `from` for `version`.
pub open spec fn first_unassigned(recs: Seq<UnassignedRecord>, version: u64, from: int) -> Option<
    int,
>
    decreases recs.len() - from,
{
    if from < 0 || from >= recs.len() {
        None
    } else if recs[from].version == version {
        Some(from)
    } else {
        first_unassigned(recs, version, from + 1)
    }
}

/// Index of the first record at or after `from` of `replica_version` at `version`.
pub open spec fn first_release(
    recs: Seq<ReplicaVersionRecord>,
    replica_version: Seq<char>,
    version: u64,
    from: int,
) -> Option<int>
    decreases recs.len() - from,
{
    if from < 0 || from >= recs.len() {
        None
    } else if recs[from].replica_version@ == replica_version && recs[from].version == version {
        Some(from)
    } else {
        first_release(recs, replica_version, version, from + 1)
    }
}

/// Whether `node` is among `members`.
pub fn contains_node(members: &Vec<NodeId>, node: NodeId) -> (r: bool)
    ensures
        r == members@.contains(node),
{
    let mut i: usize = 0;
    while i < members.len()
        invariant
            i <= members.len(),
            forall|j: int| 0 <= j < i ==> members@[j] != node,
        decreases members.len() - i,
    {
        if members[i] == node {
            return true;
        }
        i += 1;
    }
    false
}

impl Registry {
    /// The record that a read for `subnet` at `version` returns.
    pub open spec fn subnet_record_at(&self, subnet: SubnetId, version: u64) -> Option<
        SubnetRecord,
    > {
        match first_subnet_record(self.subnets@, subnet, version, 0) {
            Some(i) => Some(self.subnets@[i]),
            None => None,
        }
    }

    /// Whether the registry lists `node` on `subnet` at `version`; a missing
    /// record lists nobody.
    pub open spec fn is_member_at(&self, subnet: SubnetId, version: u64, node: NodeId) -> bool {
        match self.subnet_record_at(subnet, version) {
            Some(rec) => rec.members@.contains(node),
            None => false,
        }
    }

    /// The replica version that `subnet` is to run at `version`.
    pub open spec fn replica_version_at(&self, subnet: SubnetId, version: u64) -> Option<String> {
        match self.subnet_record_at(subnet, version) {
            Some(rec) => Some(rec.replica_version),
            None => None,
        }
    }

    /// The replacement registry store named for `subnet` at `version`.
    pub open spec fn registry_store_at(&self, subnet: SubnetId, version: u64) -> Option<
        RegistryStore,
    > {
        match self.subnet_record_at(subnet, version) {
            Some(rec) => rec.registry_store,
            None => None,
        }
    }

    /// The subnet that lists `node` at `version`.
    pub open spec fn subnet_of_node_at(&self, node: NodeId, version: u64) -> Option<SubnetId> {
        match first_assignment(self.subnets@, node, version, 0) {
            Some(i) => Some(self.subnets@[i].subnet),
            None => None,
        }
    }

    /// The replica version of unassigned nodes at `version`.
    pub open spec fn unassigned_replica_version_at(&self, version: u64) -> Option<String> {
        match first_unassigned(self.unassigned@, version, 0) {
            Some(i) => Some(self.unassigned@[i].replica_version),
            None => None,
        }
    }

    /// The release record of `replica_version` as read at `version`.
    pub open spec fn release_record_at(&self, replica_version: Seq<char>, version: u64) -> Option<
        ReplicaVersionRecord,
    > {
        match first_release(self.releases@, replica_version, version, 0) {
            Some(i) => Some(self.releases@[i]),
            None => None,
        }
    }

    pub fn get_latest_version(&self) -> (r: u64)
        ensures
            r == self.latest_version,
    {
        self.latest_version
    }

    /// Position of the record for `subnet` at `version`.
    pub fn find_subnet_record(&self, subnet: SubnetId, version: u64) -> (r: Option<usize>)
        ensures
            match r {
                Some(i) => i < self.subnets.len() && self.subnet_record_at(subnet, version)
                    == Some(self.subnets@[i as int]),
                None => self.subnet_record_at(subnet, version) is None,
            },
    {
        let mut i: usize = 0;
        while i < self.subnets.len()
            invariant
                i <= self.subnets.len(),
                first_subnet_record(self.subnets@, subnet, version, 0) == first_subnet_record(
                    self.subnets@,
                    subnet,
                    version,
                    i as int,
                ),
            decreases self.subnets.len() - i,
        {
            if self.subnets[i].subnet == subnet && self.subnets[i].version == version {
                return Some(i);
            }
            i += 1;
        }
        None
    }

    /// Whether `node` is listed on `subnet` at `version`.
    pub fn is_member(&self, subnet: SubnetId, version: u64, node: NodeId) -> (r: bool)
        ensures
            r == self.is_member_at(subnet, version, node),
    {
        match self.find_subnet_record(subnet, version) {
            Some(i) => contains_node(&self.subnets[i].members, node),
            None => false,
        }
    }

    pub fn get_replica_version(&self, subnet: SubnetId, version: u64) -> (r: Option<String>)
        ensures
            r == self.replica_version_at(subnet, version),
    {
        match self.find_subnet_record(subnet, version) {
            Some(i) => Some(self.subnets[i].replica_version.clone()),
            None => None,
        }
    }

    /// The replica version that `subnet` is to run as of the latest version,
    /// which may be ahead of what the last checkpoint asks for.
    pub fn get_expected_replica_version(&self, subnet: SubnetId) -> (r: Option<String>)
        ensures
            r == self.replica_version_at(subnet, self.latest_version),
    {
        self.get_replica_version(subnet, self.latest_version)
    }

    pub fn get_registry_store(&self, subnet: SubnetId, version: u64) -> (r: Option<RegistryStore>)
        ensures
            r == self.registry_store_at(subnet, version),
    {
        match self.find_subnet_record(subnet, version) {
            Some(i) => match &self.subnets[i].registry_store {
                Some(store) => Some(RegistryStore { uri: store.uri.clone(), hash: store.hash.clone() }),
                None => None,
            },
            None => None,
        }
    }

    pub fn get_subnet_id_from_node_id(&self, node: NodeId, version: u64) -> (r: Option<SubnetId>)
        ensures
            r == self.subnet_of_node_at(node, version),
    {
        let mut i: usize = 0;
        while i < self.subnets.len()
            invariant
                i <= self.subnets.len(),
                first_assignment(self.subnets@, node, version, 0) == first_assignment(
                    self.subnets@,
                    node,
                    version,
                    i as int,
                ),
            decreases self.subnets.len() - i,
        {
            if self.subnets[i].version == version && contains_node(&self.subnets[i].members, node) {
                return Some(self.subnets[i].subnet);
            }
            i += 1;
        }
        None
    }

    pub fn get_unassigned_replica_version(&self, version: u64) -> (r: Option<String>)
        ensures
            r == self.unassigned_replica_version_at(version),
    {
        let mut i: usize = 0;
        while i < self.unassigned.len()
            invariant
                i <= self.unassigned.len(),
                first_unassigned(self.unassigned@, version, 0) == first_unassigned(
                    self.unassigned@,
                    version,
                    i as int,
                ),
            decreases self.unassigned.len() - i,
        {
            if self.unassigned[i].version == version {
                return Some(self.unassigned[i].replica_version.clone());
            }
            i += 1;
        }
        None
    }

    /// Position of the release record of `replica_version` as read at `version`.
    pub fn find_release(&self, replica_version: &String, version: u64) -> (r: Option<usize>)
        ensures
            match r {
                Some(i) => i < self.releases.len() && self.release_record_at(
                    replica_version@,
                    version,
                ) == Some(self.releases@[i as int]),
                None => self.release_record_at(replica_version@, version) is None,
            },
    {
        let mut i: usize = 0;
        while i < self.releases.len()
            invariant
                i <= self.releases.len(),
                first_release(self.releases@, replica_version@, version, 0) == first_release(
                    self.releases@,
                    replica_version@,
                    version,
                    i as int,
                ),
            decreases self.releases.len() - i,
        {
            if self.releases[i].replica_version == *replica_version && self.releases[i].version
                == version {
                return Some(i);
            }
            i += 1;
        }
        None
    }
}

} // verus!
