//! The upgrade controller: a tick is a dialogue in which the driver reports
//! an event and the controller answers with the next action.

use crate::registry::Registry;
use crate::release::load_balance_number;
use crate::release::xor_fold;
use crate::subnet::{get_subnet_id, left_subnet, should_node_become_unassigned, subnet_id_of};
use crate::types::{CatchUpPackage, CupSummary, NodeId, RegistryStore, StatePart, SubnetId, UpgradeError};
use vstd::prelude::*;

verus! {

/// What the replica is started with.
#[derive(Clone, Debug, PartialEq, Eq)]
pub struct ReplicaStart {
    /// Directory that holds the replica binary.
    pub binary_dir: String,
    pub replica_version: String,
    pub config_file: String,
    pub cup_path: String,
    pub subnet_id: SubnetId,
}

/// What the driver reports back to the controller.
#[derive(Clone, Debug, PartialEq, Eq)]
pub enum Event {
    /// A new tick begins.
    Tick,
    /// The catch-up package on disk, if there is one.
    LocalCup(Option<CatchUpPackage>),
    /// The best catch-up package to be had, or none where fetching failed.
    LatestCup(Option<CatchUpPackage>),
    /// Whether the replica runs.
    Running(bool),
    /// The last action was carried out.
    Succeeded,
    /// The last action failed; for an action that replaces the process, it
    /// did not take effect.
    Failed,
}

/// What the controller asks the driver to do next.
#[derive(Debug, PartialEq, Eq)]
pub enum Action {
    ReadLocalCup,
    /// Get the latest catch-up package from disk, peers or registry, and
    /// persist it.
    FetchLatestCup { local_cup: Option<CatchUpPackage>, subnet_id: SubnetId },
    /// Download and unpack the replacement registry store.
    DownloadRegistryStore(RegistryStore),
    StopReplica,
    /// Point the local registry store at what was downloaded and run the
    /// current process anew.
    ReplaceRegistryStoreAndReexec,
    /// Run the current process anew with the arguments it was started with.
    Reexec,
    /// Delete one piece of subnet state.
    Remove(StatePart),
    /// Run the image of this version in place of the current process, after
    /// staging it where it is not staged yet.
    ExecuteUpgrade { version: String, staged: bool },
    /// Ask whether the replica runs.
    ProbeReplica,
    StartReplica(ReplicaStart),
    /// Stage the image of this version.
    PrepareUpgrade(String),
    /// The tick is over: the subnet of the node, none where it is unassigned,
    /// or what went wrong.
    Finish(Result<Option<SubnetId>, UpgradeError>),
}

impl Action {
    /// Whether the action, where it succeeds, ends the current process.
    pub open spec fn is_terminal(self) -> bool {
        self is ReplaceRegistryStoreAndReexec || self is Reexec || self is ExecuteUpgrade
    }

    /// Whether the action, where it succeeds, ends the current process, so
    /// that only its failure is ever reported.
    pub fn ends_process(&self) -> (r: bool)
        ensures
            r == self.is_terminal(),
    {
        match self {
            Action::ReplaceRegistryStoreAndReexec => true,
            Action::Reexec => true,
            Action::ExecuteUpgrade { .. } => true,
            _ => false,
        }
    }

    /// Whether the action touches the replica process or what the node keeps
    /// on disk for its subnet.
    pub open spec fn touches_replica_or_state(self) -> bool {
        self is StopReplica || self is StartReplica || self is Remove || self is FetchLatestCup
            || self is DownloadRegistryStore || self is ReplaceRegistryStoreAndReexec
    }
}

/// What a tick knows once the latest catch-up package is there.
#[derive(Clone, Copy, Debug, PartialEq, Eq, Structural)]
pub struct TickContext {
    pub subnet_id: SubnetId,
    pub cup: CupSummary,
    /// Height of the package that was on disk when the tick began.
    pub old_cup_height: Option<u64>,
}

/// Where a tick stands: the answer that the controller waits for.
#[derive(Clone, Debug, PartialEq, Eq)]
pub enum Step {
    /// Between ticks.
    Idle,
    AwaitLocalCup,
    AwaitLatestCup { subnet_id: SubnetId, old_cup_height: Option<u64> },
    AwaitStoreDownload(TickContext),
    AwaitStopForSwap(TickContext),
    AwaitReexecAfterSwap(TickContext),
    AwaitStopForRemoval,
    AwaitRemoval(StatePart),
    AwaitUpgrade,
    AwaitRecoveryStop(SubnetId),
    AwaitReexecAfterStop(SubnetId),
    AwaitProbe(SubnetId),
    AwaitStart(SubnetId),
    AwaitPrepare { subnet_id: SubnetId, version: String },
}

/// How the removal of the subnet state goes on.
#[derive(Clone, Copy, Debug, PartialEq, Eq, Structural)]
pub enum RemovalStep {
    Delete(StatePart),
    /// All three pieces are gone.
    Removed,
    /// This piece could not be deleted; those after it are left alone.
    Failed(StatePart),
}

/// The pieces go in the order consensus pool, execution state, catch-up
/// package; the first failure ends the removal.
pub open spec fn removal_after(done: Option<StatePart>, succeeded: bool) -> RemovalStep {
    match done {
        None => RemovalStep::Delete(StatePart::ConsensusPool),
        Some(part) => if !succeeded {
            RemovalStep::Failed(part)
        } else {
            match part {
                StatePart::ConsensusPool => RemovalStep::Delete(StatePart::ExecutionState),
                StatePart::ExecutionState => RemovalStep::Delete(StatePart::CupFile),
                StatePart::CupFile => RemovalStep::Removed,
            }
        },
    }
}

/// The next step of the removal, given the piece whose deletion was last
/// tried (none at the start) and whether it succeeded.
pub fn remove_node_state(done: Option<StatePart>, succeeded: bool) -> (r: RemovalStep)
    ensures
        r == removal_after(done, succeeded),
{
    match done {
        None => RemovalStep::Delete(StatePart::ConsensusPool),
        Some(part) => {
            if !succeeded {
                RemovalStep::Failed(part)
            } else {
                match part {
                    StatePart::ConsensusPool => RemovalStep::Delete(StatePart::ExecutionState),
                    StatePart::ExecutionState => RemovalStep::Delete(StatePart::CupFile),
                    StatePart::CupFile => RemovalStep::Removed,
                }
            }
        },
    }
}

/// An unsigned package above the height of the package that was on disk.
pub open spec fn is_new_recovery_cup(cup: CupSummary, old_cup_height: Option<u64>) -> bool {
    cup.unsigned && old_cup_height is Some && cup.height > old_cup_height.unwrap()
}

/// Whether the replica has to stop so that it picks up `cup` when it starts
/// again: consensus takes an unsigned package only then.
pub fn stop_replica_if_new_recovery_cup(cup: &CupSummary, old_cup_height: Option<u64>) -> (r: bool)
    ensures
        r == is_new_recovery_cup(*cup, old_cup_height),
{
    match old_cup_height {
        Some(old) => cup.unsigned && cup.height > old,
        None => false,
    }
}

/// The replacement registry store that a recovery of the control-plane subnet
/// names: only an unsigned package can announce one.
pub open spec fn recovery_registry_store(
    registry: Registry,
    subnet_id: SubnetId,
    cup: CupSummary,
) -> Option<RegistryStore> {
    if cup.unsigned {
        registry.registry_store_at(subnet_id, cup.registry_version)
    } else {
        None
    }
}

/// The registry store to download before the process runs anew, if `cup`
/// announces one.
pub fn download_registry_and_restart_if_nns_subnet_recovery(
    registry: &Registry,
    subnet_id: SubnetId,
    cup: &CupSummary,
) -> (r: Option<RegistryStore>)
    ensures
        r == recovery_registry_store(*registry, subnet_id, *cup),
{
    if cup.unsigned {
        registry.get_registry_store(subnet_id, cup.registry_version)
    } else {
        None
    }
}

/// The controller of one node: what it was configured with, the version it
/// has staged, and where the current tick stands.
#[derive(Clone, Debug, PartialEq, Eq)]
pub struct Upgrade {
    pub node_id: NodeId,
    /// The bytes of the node's identity.
    pub node_principal: Vec<u8>,
    pub replica_version: String,
    pub replica_config_file: String,
    pub cup_path: String,
    pub ic_binary_dir: String,
    pub image_path: String,
    /// The version whose image is staged, ready for an upgrade.
    pub prepared_upgrade_version: Option<String>,
    pub orchestrator_data_directory: Option<String>,
    pub step: Step,
}

impl Upgrade {
    /// The same controller at another step.
    pub open spec fn at(self, step: Step) -> Upgrade {
        Upgrade { step, ..self }
    }

    /// The end of a tick.
    pub open spec fn finish(self, result: Result<Option<SubnetId>, UpgradeError>) -> (
        Upgrade,
        Action,
    ) {
        (self.at(Step::Idle), Action::Finish(result))
    }

    /// The version that an unassigned node is to switch to: none where it
    /// runs the version that the registry names at its latest version.
    pub open spec fn unassigned_upgrade(self, registry: Registry) -> Result<
        Option<String>,
        UpgradeError,
    > {
        match registry.unassigned_replica_version_at(registry.latest_version) {
            None => Err(UpgradeError::RegistryRead),
            Some(version) => if version@ == self.replica_version@ {
                Ok(None)
            } else {
                Ok(Some(version))
            },
        }
    }

    /// The version to stage ahead of its checkpoint: the one that the subnet
    /// is to run as of the latest registry version, unless it runs or is
    /// staged.
    pub open spec fn scheduled_upgrade(self, registry: Registry, subnet_id: SubnetId) -> Result<
        Option<String>,
        UpgradeError,
    > {
        match registry.replica_version_at(subnet_id, registry.latest_version) {
            None => Err(UpgradeError::RegistryRead),
            Some(version) => if version@ == self.replica_version@ || self.is_staged(version) {
                Ok(None)
            } else {
                Ok(Some(version))
            },
        }
    }

    /// Whether the image of `version` is staged.
    pub open spec fn is_staged(self, version: String) -> bool {
        self.prepared_upgrade_version is Some && self.prepared_upgrade_version.unwrap()@
            == version@
    }

    /// The upgrade to `version`, which ends the process where it succeeds.
    pub open spec fn upgrade_to(self, version: String) -> (Upgrade, Action) {
        (
            self.at(Step::AwaitUpgrade),
            Action::ExecuteUpgrade { version, staged: self.is_staged(version) },
        )
    }

    /// What the replica of `subnet_id` is started with.
    pub open spec fn replica_start(self, subnet_id: SubnetId) -> ReplicaStart {
        ReplicaStart {
            binary_dir: self.ic_binary_dir,
            replica_version: self.replica_version,
            config_file: self.replica_config_file,
            cup_path: self.cup_path,
            subnet_id,
        }
    }

    /// Finds the subnet: from the package on disk or, without one, from the
    /// registry at its latest version. A node that the registry lists nowhere
    /// is unassigned and follows the version of unassigned nodes.
    pub open spec fn locate_subnet(self, registry: Registry, local_cup: Option<CatchUpPackage>) -> (
        Upgrade,
        Action,
    ) {
        match local_cup {
            Some(cup) => match subnet_id_of(registry, cup) {
                Ok(subnet_id) => (
                    self.at(Step::AwaitLatestCup { subnet_id, old_cup_height: Some(cup.height) }),
                    Action::FetchLatestCup { local_cup, subnet_id },
                ),
                Err(e) => self.finish(Err(UpgradeError::SubnetId(e))),
            },
            None => match registry.subnet_of_node_at(self.node_id, registry.latest_version) {
                Some(subnet_id) => (
                    self.at(Step::AwaitLatestCup { subnet_id, old_cup_height: None }),
                    Action::FetchLatestCup { local_cup, subnet_id },
                ),
                None => match self.unassigned_upgrade(registry) {
                    Err(e) => self.finish(Err(e)),
                    Ok(None) => self.finish(Ok(None)),
                    Ok(Some(version)) => self.upgrade_to(version),
                },
            },
        }
    }

    /// With the latest package in hand: a recovery of the control-plane subnet
    /// comes first, then everything else.
    pub open spec fn recover_registry(self, registry: Registry, tick: TickContext) -> (
        Upgrade,
        Action,
    ) {
        match recovery_registry_store(registry, tick.subnet_id, tick.cup) {
            Some(store) => (
                self.at(Step::AwaitStoreDownload(tick)),
                Action::DownloadRegistryStore(store),
            ),
            None => self.revalidate(registry, tick),
        }
    }

    /// Membership first, then the version that the package asks for, then a
    /// restart for a new recovery package, then liveness.
    pub open spec fn revalidate(self, registry: Registry, tick: TickContext) -> (Upgrade, Action) {
        if left_subnet(registry, self.node_id, tick.subnet_id, tick.cup) {
            (self.at(Step::AwaitStopForRemoval), Action::StopReplica)
        } else {
            match registry.replica_version_at(tick.subnet_id, tick.cup.registry_version) {
                None => self.finish(Err(UpgradeError::RegistryRead)),
                Some(version) => if version@ != self.replica_version@ {
                    self.upgrade_to(version)
                } else if is_new_recovery_cup(tick.cup, tick.old_cup_height) {
                    (self.at(Step::AwaitRecoveryStop(tick.subnet_id)), Action::StopReplica)
                } else {
                    (self.at(Step::AwaitProbe(tick.subnet_id)), Action::ProbeReplica)
                },
            }
        }
    }

    /// A replica that runs is left alone; one that does not is started.
    pub open spec fn keep_running(self, registry: Registry, subnet_id: SubnetId, running: bool) -> (
        Upgrade,
        Action,
    ) {
        if running {
            self.prestage(registry, subnet_id)
        } else {
            (self.at(Step::AwaitStart(subnet_id)), Action::StartReplica(self.replica_start(subnet_id)))
        }
    }

    /// The last step of a tick on an assigned node.
    pub open spec fn prestage(self, registry: Registry, subnet_id: SubnetId) -> (Upgrade, Action) {
        match self.scheduled_upgrade(registry, subnet_id) {
            Err(e) => self.finish(Err(e)),
            Ok(None) => self.finish(Ok(Some(subnet_id))),
            Ok(Some(version)) => (
                self.at(Step::AwaitPrepare { subnet_id, version }),
                Action::PrepareUpgrade(version),
            ),
        }
    }

    /// The removal of the subnet state, one deletion at a time.
    pub open spec fn removal(self, done: Option<StatePart>, succeeded: bool) -> (Upgrade, Action) {
        match removal_after(done, succeeded) {
            RemovalStep::Delete(part) => (self.at(Step::AwaitRemoval(part)), Action::Remove(part)),
            RemovalStep::Removed => self.finish(Ok(None)),
            RemovalStep::Failed(part) => self.finish(Err(UpgradeError::Removal(part))),
        }
    }

    /// The controller after `event`, and what it asks for next. An event that
    /// answers nothing under way ends the tick with an error.
    pub open spec fn next(self, registry: Registry, event: Event) -> (Upgrade, Action) {
        let unexpected = self.finish(Err(UpgradeError::UnexpectedEvent));
        match self.step {
            Step::Idle => match event {
                Event::Tick => (self.at(Step::AwaitLocalCup), Action::ReadLocalCup),
                _ => unexpected,
            },
            Step::AwaitLocalCup => match event {
                Event::LocalCup(local_cup) => self.locate_subnet(registry, local_cup),
                _ => unexpected,
            },
            Step::AwaitLatestCup { subnet_id, old_cup_height } => match event {
                Event::LatestCup(Some(cup)) => self.recover_registry(
                    registry,
                    TickContext { subnet_id, cup: cup.spec_summary(), old_cup_height },
                ),
                Event::LatestCup(None) => self.finish(Err(UpgradeError::CupFetch)),
                _ => unexpected,
            },
            Step::AwaitStoreDownload(tick) => match event {
                Event::Succeeded => (self.at(Step::AwaitStopForSwap(tick)), Action::StopReplica),
                Event::Failed => self.finish(Err(UpgradeError::FileDownload)),
                _ => unexpected,
            },
            Step::AwaitStopForSwap(tick) => match event {
                Event::Succeeded => (
                    self.at(Step::AwaitReexecAfterSwap(tick)),
                    Action::ReplaceRegistryStoreAndReexec,
                ),
                Event::Failed => (
                    self.at(Step::AwaitReexecAfterSwap(tick)),
                    Action::ReplaceRegistryStoreAndReexec,
                ),
                _ => unexpected,
            },
            Step::AwaitReexecAfterSwap(tick) => match event {
                Event::Failed => self.revalidate(registry, tick),
                _ => unexpected,
            },
            Step::AwaitStopForRemoval => match event {
                Event::Succeeded => self.removal(None, true),
                Event::Failed => self.finish(Err(UpgradeError::StopReplica)),
                _ => unexpected,
            },
            Step::AwaitRemoval(part) => match event {
                Event::Succeeded => self.removal(Some(part), true),
                Event::Failed => self.removal(Some(part), false),
                _ => unexpected,
            },
            Step::AwaitUpgrade => match event {
                Event::Failed => self.finish(Err(UpgradeError::Upgrade)),
                _ => unexpected,
            },
            Step::AwaitRecoveryStop(subnet_id) => match event {
                Event::Succeeded => (self.at(Step::AwaitProbe(subnet_id)), Action::ProbeReplica),
                Event::Failed => (self.at(Step::AwaitReexecAfterStop(subnet_id)), Action::Reexec),
                _ => unexpected,
            },
            Step::AwaitReexecAfterStop(subnet_id) => match event {
                Event::Failed => (self.at(Step::AwaitProbe(subnet_id)), Action::ProbeReplica),
                _ => unexpected,
            },
            Step::AwaitProbe(subnet_id) => match event {
                Event::Running(running) => self.keep_running(registry, subnet_id, running),
                _ => unexpected,
            },
            Step::AwaitStart(subnet_id) => match event {
                Event::Succeeded => self.prestage(registry, subnet_id),
                Event::Failed => self.finish(Err(UpgradeError::StartReplica)),
                _ => unexpected,
            },
            Step::AwaitPrepare { subnet_id, version } => match event {
                Event::Succeeded => (
                    Upgrade {
                        prepared_upgrade_version: Some(version),
                        step: Step::Idle,
                        ..self
                    },
                    Action::Finish(Ok(Some(subnet_id))),
                ),
                Event::Failed => self.finish(Err(UpgradeError::Upgrade)),
                _ => unexpected,
            },
        }
    }

    /// A controller between ticks, with nothing staged.
    pub fn new(
        node_id: NodeId,
        node_principal: Vec<u8>,
        replica_version: String,
        replica_config_file: String,
        cup_path: String,
        ic_binary_dir: String,
        image_path: String,
        orchestrator_data_directory: Option<String>,
    ) -> (r: Upgrade)
        ensures
            r == (Upgrade {
                node_id,
                node_principal,
                replica_version,
                replica_config_file,
                cup_path,
                ic_binary_dir,
                image_path,
                prepared_upgrade_version: None,
                orchestrator_data_directory,
                step: Step::Idle,
            }),
    {
        Upgrade {
            node_id,
            node_principal,
            replica_version,
            replica_config_file,
            cup_path,
            ic_binary_dir,
            image_path,
            prepared_upgrade_version: None,
            orchestrator_data_directory,
            step: Step::Idle,
        }
    }

    /// Whether the image of `version` is staged.
    pub fn has_staged(&self, version: &String) -> (r: bool)
        ensures
            r == self.is_staged(*version),
    {
        match &self.prepared_upgrade_version {
            Some(prepared) => *prepared == *version,
            None => false,
        }
    }

    fn execute_upgrade(&mut self, version: String) -> (action: Action)
        ensures
            (*final(self), action) == old(self).upgrade_to(version),
    {
        let staged = self.has_staged(&version);
        self.step = Step::AwaitUpgrade;
        Action::ExecuteUpgrade { version, staged }
    }

    /// The version that this node, unassigned, is to switch to, if any.
    pub fn check_for_upgrade_as_unassigned(&self, registry: &Registry) -> (r: Result<
        Option<String>,
        UpgradeError,
    >)
        ensures
            r == self.unassigned_upgrade(*registry),
    {
        match registry.get_unassigned_replica_version(registry.get_latest_version()) {
            None => Err(UpgradeError::RegistryRead),
            Some(version) => {
                if version == self.replica_version {
                    Ok(None)
                } else {
                    Ok(Some(version))
                }
            },
        }
    }

    /// The version whose image is to be staged now, if any.
    pub fn prepare_upgrade_if_scheduled(&self, registry: &Registry, subnet_id: SubnetId) -> (r:
        Result<Option<String>, UpgradeError>)
        ensures
            r == self.scheduled_upgrade(*registry, subnet_id),
    {
        match registry.get_expected_replica_version(subnet_id) {
            None => Err(UpgradeError::RegistryRead),
            Some(version) => {
                if version == self.replica_version || self.has_staged(&version) {
                    Ok(None)
                } else {
                    Ok(Some(version))
                }
            },
        }
    }

    /// What to start the replica with; nothing where it runs already.
    pub fn ensure_replica_is_running(&self, running: bool, subnet_id: SubnetId) -> (r: Option<
        ReplicaStart,
    >)
        ensures
            running ==> r is None,
            !running ==> r == Some(self.replica_start(subnet_id)),
    {
        if running {
            None
        } else {
            Some(
                ReplicaStart {
                    binary_dir: self.ic_binary_dir.clone(),
                    replica_version: self.replica_version.clone(),
                    config_file: self.replica_config_file.clone(),
                    cup_path: self.cup_path.clone(),
                    subnet_id,
                },
            )
        }
    }

    /// The exclusive-or of the bytes of the node's identity.
    pub fn get_load_balance_number(&self) -> (r: usize)
        ensures
            r == xor_fold(self.node_principal@),
    {
        load_balance_number(self.node_principal.as_slice())
    }

    pub fn get_prepared_version(&self) -> (r: Option<&String>)
        ensures
            r == match self.prepared_upgrade_version {
                Some(version) => Some(&version),
                None => None,
            },
    {
        self.prepared_upgrade_version.as_ref()
    }

    pub fn set_prepared_version(&mut self, version: Option<String>)
        ensures
            *final(self) == (Upgrade { prepared_upgrade_version: version, ..*old(self) }),
    {
        self.prepared_upgrade_version = version;
    }

    fn end_tick(&mut self, result: Result<Option<SubnetId>, UpgradeError>) -> (action: Action)
        ensures
            (*final(self), action) == old(self).finish(result),
    {
        self.step = Step::Idle;
        Action::Finish(result)
    }

    fn do_locate_subnet(&mut self, registry: &Registry, local_cup: Option<CatchUpPackage>) -> (action:
        Action)
        ensures
            (*final(self), action) == old(self).locate_subnet(*registry, local_cup),
    {
        match &local_cup {
            Some(cup) => match get_subnet_id(registry, cup) {
                Ok(subnet_id) => {
                    self.step = Step::AwaitLatestCup { subnet_id, old_cup_height: Some(cup.height) };
                    Action::FetchLatestCup { local_cup, subnet_id }
                },
                Err(e) => self.end_tick(Err(UpgradeError::SubnetId(e))),
            },
            None => match registry.get_subnet_id_from_node_id(
                self.node_id,
                registry.get_latest_version(),
            ) {
                Some(subnet_id) => {
                    self.step = Step::AwaitLatestCup { subnet_id, old_cup_height: None };
                    Action::FetchLatestCup { local_cup, subnet_id }
                },
                None => match self.check_for_upgrade_as_unassigned(registry) {
                    Err(e) => self.end_tick(Err(e)),
                    Ok(None) => self.end_tick(Ok(None)),
                    Ok(Some(version)) => self.execute_upgrade(version),
                },
            },
        }
    }

    fn do_recover_registry(&mut self, registry: &Registry, tick: TickContext) -> (action: Action)
        ensures
            (*final(self), action) == old(self).recover_registry(*registry, tick),
    {
        match download_registry_and_restart_if_nns_subnet_recovery(
            registry,
            tick.subnet_id,
            &tick.cup,
        ) {
            Some(store) => {
                self.step = Step::AwaitStoreDownload(tick);
                Action::DownloadRegistryStore(store)
            },
            None => self.do_revalidate(registry, tick),
        }
    }

    fn do_revalidate(&mut self, registry: &Registry, tick: TickContext) -> (action: Action)
        ensures
            (*final(self), action) == old(self).revalidate(*registry, tick),
    {
        if should_node_become_unassigned(registry, self.node_id, tick.subnet_id, &tick.cup) {
            self.step = Step::AwaitStopForRemoval;
            return Action::StopReplica;
        }
        match registry.get_replica_version(tick.subnet_id, tick.cup.registry_version) {
            None => self.end_tick(Err(UpgradeError::RegistryRead)),
            Some(version) => {
                if version != self.replica_version {
                    self.execute_upgrade(version)
                } else if stop_replica_if_new_recovery_cup(&tick.cup, tick.old_cup_height) {
                    self.step = Step::AwaitRecoveryStop(tick.subnet_id);
                    Action::StopReplica
                } else {
                    self.step = Step::AwaitProbe(tick.subnet_id);
                    Action::ProbeReplica
                }
            },
        }
    }

    fn do_keep_running(&mut self, registry: &Registry, subnet_id: SubnetId, running: bool) -> (action:
        Action)
        ensures
            (*final(self), action) == old(self).keep_running(*registry, subnet_id, running),
    {
        match self.ensure_replica_is_running(running, subnet_id) {
            None => self.do_prestage(registry, subnet_id),
            Some(start) => {
                self.step = Step::AwaitStart(subnet_id);
                Action::StartReplica(start)
            },
        }
    }

    fn do_prestage(&mut self, registry: &Registry, subnet_id: SubnetId) -> (action: Action)
        ensures
            (*final(self), action) == old(self).prestage(*registry, subnet_id),
    {
        match self.prepare_upgrade_if_scheduled(registry, subnet_id) {
            Err(e) => self.end_tick(Err(e)),
            Ok(None) => self.end_tick(Ok(Some(subnet_id))),
            Ok(Some(version)) => {
                self.step = Step::AwaitPrepare { subnet_id, version: version.clone() };
                Action::PrepareUpgrade(version)
            },
        }
    }

    fn do_removal(&mut self, done: Option<StatePart>, succeeded: bool) -> (action: Action)
        ensures
            (*final(self), action) == old(self).removal(done, succeeded),
    {
        match remove_node_state(done, succeeded) {
            RemovalStep::Delete(part) => {
                self.step = Step::AwaitRemoval(part);
                Action::Remove(part)
            },
            RemovalStep::Removed => self.end_tick(Ok(None)),
            RemovalStep::Failed(part) => self.end_tick(Err(UpgradeError::Removal(part))),
        }
    }

    /// Takes one step of a tick: given what the driver reports and the
    /// registry as it is now, moves the controller on and says what to do
    /// next.
    pub fn check(&mut self, registry: &Registry, event: Event) -> (action: Action)
        ensures
            (*final(self), action) == old(self).next(*registry, event),
    {
        let mut step = Step::Idle;
        core::mem::swap(&mut self.step, &mut step);
        match step {
            Step::Idle => match event {
                Event::Tick => {
                    self.step = Step::AwaitLocalCup;
                    Action::ReadLocalCup
                },
                _ => self.end_tick(Err(UpgradeError::UnexpectedEvent)),
            },
            Step::AwaitLocalCup => match event {
                Event::LocalCup(local_cup) => self.do_locate_subnet(registry, local_cup),
                _ => self.end_tick(Err(UpgradeError::UnexpectedEvent)),
            },
            Step::AwaitLatestCup { subnet_id, old_cup_height } => match event {
                Event::LatestCup(Some(cup)) => {
                    let tick = TickContext { subnet_id, cup: cup.summary(), old_cup_height };
                    self.do_recover_registry(registry, tick)
                },
                Event::LatestCup(None) => self.end_tick(Err(UpgradeError::CupFetch)),
                _ => self.end_tick(Err(UpgradeError::UnexpectedEvent)),
            },
            Step::AwaitStoreDownload(tick) => match event {
                Event::Succeeded => {
                    self.step = Step::AwaitStopForSwap(tick);
                    Action::StopReplica
                },
                Event::Failed => self.end_tick(Err(UpgradeError::FileDownload)),
                _ => self.end_tick(Err(UpgradeError::UnexpectedEvent)),
            },
            Step::AwaitStopForSwap(tick) => match event {
                Event::Succeeded => {
                    self.step = Step::AwaitReexecAfterSwap(tick);
                    Action::ReplaceRegistryStoreAndReexec
                },
                Event::Failed => {
                    self.step = Step::AwaitReexecAfterSwap(tick);
                    Action::ReplaceRegistryStoreAndReexec
                },
                _ => self.end_tick(Err(UpgradeError::UnexpectedEvent)),
            },
            Step::AwaitReexecAfterSwap(tick) => match event {
                Event::Failed => self.do_revalidate(registry, tick),
                _ => self.end_tick(Err(UpgradeError::UnexpectedEvent)),
            },
            Step::AwaitStopForRemoval => match event {
                Event::Succeeded => self.do_removal(None, true),
                Event::Failed => self.end_tick(Err(UpgradeError::StopReplica)),
                _ => self.end_tick(Err(UpgradeError::UnexpectedEvent)),
            },
            Step::AwaitRemoval(part) => match event {
                Event::Succeeded => self.do_removal(Some(part), true),
                Event::Failed => self.do_removal(Some(part), false),
                _ => self.end_tick(Err(UpgradeError::UnexpectedEvent)),
            },
            Step::AwaitUpgrade => match event {
                Event::Failed => self.end_tick(Err(UpgradeError::Upgrade)),
                _ => self.end_tick(Err(UpgradeError::UnexpectedEvent)),
            },
            Step::AwaitRecoveryStop(subnet_id) => match event {
                Event::Succeeded => {
                    self.step = Step::AwaitProbe(subnet_id);
                    Action::ProbeReplica
                },
                Event::Failed => {
                    self.step = Step::AwaitReexecAfterStop(subnet_id);
                    Action::Reexec
                },
                _ => self.end_tick(Err(UpgradeError::UnexpectedEvent)),
            },
            Step::AwaitReexecAfterStop(subnet_id) => match event {
                Event::Failed => {
                    self.step = Step::AwaitProbe(subnet_id);
                    Action::ProbeReplica
                },
                _ => self.end_tick(Err(UpgradeError::UnexpectedEvent)),
            },
            Step::AwaitProbe(subnet_id) => match event {
                Event::Running(running) => self.do_keep_running(registry, subnet_id, running),
                _ => self.end_tick(Err(UpgradeError::UnexpectedEvent)),
            },
            Step::AwaitStart(subnet_id) => match event {
                Event::Succeeded => self.do_prestage(registry, subnet_id),
                Event::Failed => self.end_tick(Err(UpgradeError::StartReplica)),
                _ => self.end_tick(Err(UpgradeError::UnexpectedEvent)),
            },
            Step::AwaitPrepare { subnet_id, version } => match event {
                Event::Succeeded => {
                    self.prepared_upgrade_version = Some(version);
                    self.step = Step::Idle;
                    Action::Finish(Ok(Some(subnet_id)))
                },
                Event::Failed => self.end_tick(Err(UpgradeError::Upgrade)),
                _ => self.end_tick(Err(UpgradeError::UnexpectedEvent)),
            },
        }
    }
}

} // verus!
