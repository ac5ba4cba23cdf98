//! What holds of every step of the controller.

use crate::registry::Registry;
use crate::subnet::left_subnet;
use crate::types::{CatchUpPackage, StatePart, SubnetId, UpgradeError};
use crate::upgrade::{recovery_registry_store, Action, Event, Step, TickContext, Upgrade};
use vstd::prelude::*;

verus! {

/// A node without a package on disk that the registry lists on no subnet at
/// its latest version only compares versions: where it runs the version of
/// unassigned nodes the tick ends with no subnet and the controller as it was;
/// where it runs another, the upgrade to that version is all that follows;
/// where the registry names none, the tick ends with that error. The replica
/// and the subnet state are not touched.
pub proof fn lemma_unlisted_node_is_unassigned(u: Upgrade, registry: Registry)
    requires
        u.step is Idle,
        registry.subnet_of_node_at(u.node_id, registry.latest_version) is None,
    ensures
        ({
            let (u1, a1) = u.next(registry, Event::Tick);
            let (u2, a2) = u1.next(registry, Event::LocalCup(None));
            &&& a1 == Action::ReadLocalCup
            &&& !a2.touches_replica_or_state()
            &&& match u.unassigned_upgrade(registry) {
                Ok(None) => a2 == Action::Finish(Ok(None)) && u2 == u,
                Ok(Some(version)) => a2 == u.upgrade_to(version).1 && u2.next(
                    registry,
                    Event::Failed,
                ) == u.finish(Err(UpgradeError::Upgrade)),
                Err(e) => a2 == Action::Finish(Err(e)) && u2 == u,
            }
        }),
{
}

/// On a node that is still a member and runs the version that the package asks
/// for, an unsigned package above the height of the one that was on disk has
/// the replica stopped and, once it has stopped, started again; any other
/// package leaves a running replica alone.
pub proof fn lemma_recovery_cup_restarts_replica(
    u: Upgrade,
    registry: Registry,
    subnet_id: SubnetId,
    old_cup_height: Option<u64>,
    cup: CatchUpPackage,
)
    requires
        u.step == (Step::AwaitLatestCup { subnet_id, old_cup_height }),
        recovery_registry_store(registry, subnet_id, cup.spec_summary()) is None,
        !left_subnet(registry, u.node_id, subnet_id, cup.spec_summary()),
        registry.replica_version_at(subnet_id, cup.registry_version) is Some,
        registry.replica_version_at(subnet_id, cup.registry_version).unwrap()@
            == u.replica_version@,
    ensures
        ({
            let (u1, a1) = u.next(registry, Event::LatestCup(Some(cup)));
            if cup.is_unsigned() && old_cup_height is Some && cup.height > old_cup_height.unwrap() {
                let (u2, a2) = u1.next(registry, Event::Succeeded);
                let (u3, a3) = u2.next(registry, Event::Running(false));
                &&& a1 == Action::StopReplica
                &&& a2 == Action::ProbeReplica
                &&& a3 == Action::StartReplica(u.replica_start(subnet_id))
            } else {
                &&& a1 == Action::ProbeReplica
                &&& !(u1.next(registry, Event::Running(true)).1 is StartReplica)
                &&& !(u1.next(registry, Event::Running(true)).1 is StopReplica)
            }
        }),
{
}

/// A replica that runs is not started again. One that does not run is
/// started once, with the current version, the configuration file, the
/// package file and the subnet; what follows the start is no second start.
pub proof fn lemma_liveness_is_idempotent(u: Upgrade, registry: Registry, subnet_id: SubnetId)
    requires
        u.step == Step::AwaitProbe(subnet_id),
    ensures
        !(u.next(registry, Event::Running(true)).1 is StartReplica),
        u.next(registry, Event::Running(true)) == u.prestage(registry, subnet_id),
        u.next(registry, Event::Running(false)) == (
            u.at(Step::AwaitStart(subnet_id)),
            Action::StartReplica(u.replica_start(subnet_id)),
        ),
        !(u.next(registry, Event::Running(false)).0.next(registry, Event::Succeeded).1
            is StartReplica),
{
}

/// On a node that is still a member, a package that asks for another version
/// than the one that runs leads to the upgrade to that version and to nothing
/// else: the replica is not stopped and no state is removed.
pub proof fn lemma_version_change_upgrades(u: Upgrade, registry: Registry, tick: TickContext)
    requires
        !left_subnet(registry, u.node_id, tick.subnet_id, tick.cup),
        registry.replica_version_at(tick.subnet_id, tick.cup.registry_version) is Some,
        registry.replica_version_at(tick.subnet_id, tick.cup.registry_version).unwrap()@
            != u.replica_version@,
    ensures
        u.revalidate(registry, tick) == u.upgrade_to(
            registry.replica_version_at(tick.subnet_id, tick.cup.registry_version).unwrap(),
        ),
        u.at(Step::AwaitUpgrade).next(registry, Event::Failed) == u.finish(
            Err(UpgradeError::Upgrade),
        ),
{
}

/// Subnet state is deleted on one path only: the node has left its subnet by
/// the registry, and the replica has stopped. The consensus pool goes first.
pub proof fn lemma_removal_only_after_leaving(u: Upgrade, registry: Registry, event: Event)
    ensures
        ({
            let (u1, a1) = u.next(registry, event);
            &&& a1 is Remove ==> (u.step is AwaitStopForRemoval && event is Succeeded && a1
                == Action::Remove(StatePart::ConsensusPool)) || (u.step is AwaitRemoval && event
                is Succeeded)
            &&& u1.step is AwaitStopForRemoval ==> a1 == Action::StopReplica && match u.step {
                Step::AwaitLatestCup { subnet_id, old_cup_height } => event matches Event::LatestCup(
                    Some(cup),
                ) && left_subnet(registry, u.node_id, subnet_id, cup.spec_summary()),
                Step::AwaitReexecAfterSwap(tick) => left_subnet(
                    registry,
                    u.node_id,
                    tick.subnet_id,
                    tick.cup,
                ),
                _ => false,
            }
        }),
{
}

/// The three pieces of subnet state go in a fixed order, and the first
/// deletion that fails ends the tick with the piece it failed on.
pub proof fn lemma_removal_order(u: Upgrade, registry: Registry, part: StatePart)
    requires
        u.step == Step::AwaitRemoval(part),
    ensures
        u.next(registry, Event::Failed) == u.finish(Err(UpgradeError::Removal(part))),
        part == StatePart::ConsensusPool ==> u.next(registry, Event::Succeeded).1 == Action::Remove(
            StatePart::ExecutionState,
        ),
        part == StatePart::ExecutionState ==> u.next(registry, Event::Succeeded).1
            == Action::Remove(StatePart::CupFile),
        part == StatePart::CupFile ==> u.next(registry, Event::Succeeded) == u.finish(Ok(None)),
{
}

/// An upper bound on the events that a tick can still take at `step`.
pub open spec fn events_left(step: Step) -> nat {
    match step {
        Step::Idle => 11,
        Step::AwaitLocalCup => 10,
        Step::AwaitLatestCup { .. } => 9,
        Step::AwaitStoreDownload(_) => 8,
        Step::AwaitStopForSwap(_) => 7,
        Step::AwaitReexecAfterSwap(_) => 6,
        Step::AwaitStopForRemoval => 5,
        Step::AwaitRecoveryStop(_) => 5,
        Step::AwaitRemoval(StatePart::ConsensusPool) => 4,
        Step::AwaitReexecAfterStop(_) => 4,
        Step::AwaitRemoval(StatePart::ExecutionState) => 3,
        Step::AwaitProbe(_) => 3,
        Step::AwaitRemoval(StatePart::CupFile) => 2,
        Step::AwaitStart(_) => 2,
        Step::AwaitPrepare { .. } => 1,
        Step::AwaitUpgrade => 1,
    }
}

/// Every tick ends: each event either ends it, which leaves the controller
/// between ticks, or brings it strictly closer to its end. No tick takes more
/// than eleven events, whatever the driver reports.
pub proof fn lemma_tick_ends(u: Upgrade, registry: Registry, event: Event)
    ensures
        ({
            let (u1, a1) = u.next(registry, event);
            &&& a1 is Finish <==> u1.step is Idle
            &&& !(a1 is Finish) ==> events_left(u1.step) < events_left(u.step)
        }),
{
}

/// A step changes where the tick stands and nothing else, but for the staged
/// version, which changes only when staging has succeeded, to the version
/// that was staged.
pub proof fn lemma_step_keeps_configuration(u: Upgrade, registry: Registry, event: Event)
    ensures
        ({
            let u1 = u.next(registry, event).0;
            &&& u1.at(u.step) == (Upgrade {
                prepared_upgrade_version: u1.prepared_upgrade_version,
                ..u
            })
            &&& u1.prepared_upgrade_version != u.prepared_upgrade_version ==> (event is Succeeded
                && (u.step matches Step::AwaitPrepare { version, .. }
                && u1.prepared_upgrade_version == Some(version)))
        }),
{
}

/// A version is run in place of the current one on two paths only: the node
/// is unassigned and follows the version of unassigned nodes, or it is still
/// a member of its subnet by the latest package and that package asks for the
/// version. An image that was staged for the version is not staged again.
pub proof fn lemma_upgrade_only_when_due(u: Upgrade, registry: Registry, event: Event)
    ensures
        ({
            let (u1, a1) = u.next(registry, event);
            a1 matches Action::ExecuteUpgrade { version, staged } ==> {
                &&& u1.step is AwaitUpgrade
                &&& version@ != u.replica_version@
                &&& staged == u.is_staged(version)
                &&& match u.step {
                    Step::AwaitLocalCup => event == Event::LocalCup(None)
                        && registry.subnet_of_node_at(u.node_id, registry.latest_version) is None
                        && registry.unassigned_replica_version_at(registry.latest_version)
                        == Some(version),
                    Step::AwaitLatestCup { subnet_id, old_cup_height } => (event
                        matches Event::LatestCup(Some(cup)) && !left_subnet(
                        registry,
                        u.node_id,
                        subnet_id,
                        cup.spec_summary(),
                    ) && registry.replica_version_at(subnet_id, cup.registry_version) == Some(
                        version,
                    )),
                    Step::AwaitReexecAfterSwap(tick) => !left_subnet(
                        registry,
                        u.node_id,
                        tick.subnet_id,
                        tick.cup,
                    ) && registry.replica_version_at(tick.subnet_id, tick.cup.registry_version)
                        == Some(version),
                    _ => false,
                }
            }
        }),
{
}

/// Once a version is staged, an upgrade to it finds its image in place.
pub proof fn lemma_staged_image_is_reused(
    u: Upgrade,
    registry: Registry,
    subnet_id: SubnetId,
    version: String,
)
    requires
        u.step == (Step::AwaitPrepare { subnet_id, version }),
    ensures
        ({
            let (u1, a1) = u.next(registry, Event::Succeeded);
            &&& a1 == Action::Finish(Ok(Some(subnet_id)))
            &&& u1.is_staged(version)
            &&& u1.upgrade_to(version).1 == (Action::ExecuteUpgrade { version, staged: true })
            &&& u1.scheduled_upgrade(registry, subnet_id) != Ok::<Option<String>, UpgradeError>(
                Some(version),
            )
        }),
{
}

/// An action that replaces the process is the last decision of its tick
/// unless it fails: the controller then waits for the failure alone, and a
/// report of success answers nothing. After an upgrade that failed the tick
/// ends with that error.
pub proof fn lemma_process_replacement_is_terminal(u: Upgrade, registry: Registry, event: Event)
    ensures
        ({
            let (u1, a1) = u.next(registry, event);
            &&& a1.is_terminal() ==> u1.next(registry, Event::Succeeded) == u1.finish(
                Err(UpgradeError::UnexpectedEvent),
            )
            &&& a1 is ExecuteUpgrade ==> u1.next(registry, Event::Failed) == u1.finish(
                Err(UpgradeError::Upgrade),
            )
        }),
{
}

} // verus!
