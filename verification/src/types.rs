//! Identifiers, the controller's reading of a catch-up package, and the
//! errors of a tick.

use vstd::prelude::*;

verus! {

/// Identifier of a node.
#[derive(Clone, Copy, Debug, PartialEq, Eq, Structural)]
pub struct NodeId {
    pub id: u64,
}

/// Identifier of a subnet.
#[derive(Clone, Copy, Debug, PartialEq, Eq, Structural)]
pub struct SubnetId {
    pub id: u64,
}

/// Whom the key material behind a checkpoint's signer was dealt for.
#[derive(Clone, Copy, Debug, PartialEq, Eq, Structural)]
pub enum SignerTarget {
    /// The subnet dealt the key for itself.
    Local,
    /// Another subnet dealt the key: genesis or recovery.
    Remote,
}

/// What the controller reads of a catch-up package.
#[derive(Clone, Debug, PartialEq, Eq)]
pub struct CatchUpPackage {
    pub height: u64,
    /// Registry version of the checkpoint's key-generation summary.
    pub registry_version: u64,
    pub oldest_registry_version_in_use: u64,
    /// Subnet that dealt the signer's key.
    pub dealer_subnet: SubnetId,
    pub target_subnet: SignerTarget,
    /// Empty for a genesis or recovery package.
    pub signature: Vec<u8>,
    /// Committees of the current key-generation transcripts, in their order.
    pub current_committees: Vec<Vec<NodeId>>,
}

/// The scalar facts of a catch-up package that outlive the package itself
/// within one tick.
#[derive(Clone, Copy, Debug, PartialEq, Eq, Structural)]
pub struct CupSummary {
    pub height: u64,
    pub registry_version: u64,
    pub oldest_registry_version_in_use: u64,
    pub unsigned: bool,
}

impl CatchUpPackage {
    /// An empty signature marks a genesis or recovery package.
    pub open spec fn is_unsigned(&self) -> bool {
        self.signature@.len() == 0
    }

    pub open spec fn spec_summary(&self) -> CupSummary {
        CupSummary {
            height: self.height,
            registry_version: self.registry_version,
            oldest_registry_version_in_use: self.oldest_registry_version_in_use,
            unsigned: self.is_unsigned(),
        }
    }

    pub fn unsigned(&self) -> (r: bool)
        ensures
            r == self.is_unsigned(),
    {
        self.signature.len() == 0
    }

    pub fn summary(&self) -> (r: CupSummary)
        ensures
            r == self.spec_summary(),
    {
        CupSummary {
            height: self.height,
            registry_version: self.registry_version,
            oldest_registry_version_in_use: self.oldest_registry_version_in_use,
            unsigned: self.unsigned(),
        }
    }
}

/// Where a replacement registry store is to be had.
#[derive(Clone, Debug, PartialEq, Eq)]
pub struct RegistryStore {
    pub uri: String,
    pub hash: String,
}

/// The three pieces of subnet state on disk, in the order of their removal.
#[derive(Clone, Copy, Debug, PartialEq, Eq, Structural)]
pub enum StatePart {
    ConsensusPool,
    ExecutionState,
    CupFile,
}

/// Why a subnet could not be derived from a catch-up package.
#[derive(Clone, Copy, Debug, PartialEq, Eq, Structural)]
pub enum SubnetIdError {
    /// The summary holds no current transcript.
    NoCurrentTranscript,
    /// The first current transcript has an empty committee.
    EmptyCommittee,
    /// The registry maps the committee member to no subnet at that version.
    NotInRegistry { node: NodeId, version: u64 },
}

/// What ends a tick short of a decision.
#[derive(Clone, Copy, Debug, PartialEq, Eq, Structural)]
pub enum UpgradeError {
    /// The local catch-up package names no subnet.
    SubnetId(SubnetIdError),
    /// A value the tick needs is absent from the registry.
    RegistryRead,
    /// No catch-up package could be fetched.
    CupFetch,
    /// The replacement registry store could not be downloaded.
    FileDownload,
    /// The replica did not stop.
    StopReplica,
    /// The replica did not start.
    StartReplica,
    /// One piece of subnet state could not be deleted.
    Removal(StatePart),
    /// Staging or applying an image failed.
    Upgrade,
    /// The event answers no action that is under way.
    UnexpectedEvent,
}

} // verus!
