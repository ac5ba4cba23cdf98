use orchestrator::registry::{contains_node, Registry, SubnetRecord};
use orchestrator::subnet::should_node_become_unassigned;
use orchestrator::types::{CupSummary, NodeId, SubnetId};

fn node(id: u64) -> NodeId {
    NodeId { id }
}

fn subnet(id: u64) -> SubnetId {
    SubnetId { id }
}

fn members(version: u64, subnet_id: u64, nodes: &[u64]) -> SubnetRecord {
    SubnetRecord {
        version,
        subnet: subnet(subnet_id),
        members: nodes.iter().map(|id| node(*id)).collect(),
        replica_version: "A".to_string(),
        registry_store: None,
    }
}

fn registry(latest_version: u64, subnets: Vec<SubnetRecord>) -> Registry {
    Registry { latest_version, subnets, unassigned: vec![], releases: vec![] }
}

fn cup_since(oldest: u64) -> CupSummary {
    CupSummary {
        height: 100,
        registry_version: oldest,
        oldest_registry_version_in_use: oldest,
        unsigned: false,
    }
}

#[test]
fn registry_behind_the_cup_never_removes_state() {
    let reg = registry(9, vec![members(9, 1, &[2, 3])]);
    assert!(!should_node_become_unassigned(&reg, node(7), subnet(1), &cup_since(10)));
    let empty = registry(9, vec![]);
    assert!(!should_node_become_unassigned(&empty, node(7), subnet(1), &cup_since(10)));
}

#[test]
fn member_at_one_version_in_range_stays_assigned() {
    let reg = registry(
        7,
        vec![members(5, 1, &[2, 3]), members(6, 1, &[2, 7]), members(7, 1, &[2, 3])],
    );
    assert!(!should_node_become_unassigned(&reg, node(7), subnet(1), &cup_since(5)));
}

#[test]
fn absent_at_every_version_in_range_becomes_unassigned() {
    let reg = registry(
        7,
        vec![members(5, 1, &[2, 3]), members(6, 1, &[2, 4]), members(7, 1, &[2, 3])],
    );
    assert!(should_node_become_unassigned(&reg, node(7), subnet(1), &cup_since(5)));
}

#[test]
fn membership_outside_the_range_does_not_count() {
    let reg = registry(
        7,
        vec![
            members(4, 1, &[7]),
            members(5, 1, &[2]),
            members(6, 1, &[2]),
            members(7, 1, &[2]),
            members(8, 1, &[7]),
        ],
    );
    assert!(should_node_become_unassigned(&reg, node(7), subnet(1), &cup_since(5)));
}

#[test]
fn membership_of_another_subnet_does_not_count() {
    let reg = registry(6, vec![members(5, 2, &[7]), members(6, 2, &[7]), members(6, 1, &[3])]);
    assert!(should_node_become_unassigned(&reg, node(7), subnet(1), &cup_since(5)));
    assert!(!should_node_become_unassigned(&reg, node(7), subnet(2), &cup_since(5)));
}

#[test]
fn versions_without_a_record_count_as_absent() {
    let none = registry(7, vec![]);
    assert!(should_node_become_unassigned(&none, node(7), subnet(1), &cup_since(5)));
    let last_only = registry(7, vec![members(7, 1, &[7])]);
    assert!(!should_node_become_unassigned(&last_only, node(7), subnet(1), &cup_since(5)));
}

#[test]
fn range_of_a_single_version() {
    let present = registry(5, vec![members(5, 1, &[7])]);
    assert!(!should_node_become_unassigned(&present, node(7), subnet(1), &cup_since(5)));
    let absent = registry(5, vec![members(5, 1, &[8])]);
    assert!(should_node_become_unassigned(&absent, node(7), subnet(1), &cup_since(5)));
}

#[test]
fn range_that_ends_at_the_largest_version() {
    let top = u64::MAX;
    let absent = registry(top, vec![members(top - 1, 1, &[8])]);
    assert!(should_node_become_unassigned(&absent, node(7), subnet(1), &cup_since(top - 2)));
    let present = registry(top, vec![members(top, 1, &[7])]);
    assert!(!should_node_become_unassigned(&present, node(7), subnet(1), &cup_since(top)));
}

#[test]
fn first_record_under_a_key_answers() {
    let reg = registry(5, vec![members(5, 1, &[8]), members(5, 1, &[7])]);
    assert!(!reg.is_member(subnet(1), 5, node(7)));
    assert!(reg.is_member(subnet(1), 5, node(8)));
    assert_eq!(reg.find_subnet_record(subnet(1), 5), Some(0));
    assert_eq!(reg.find_subnet_record(subnet(1), 6), None);
    assert!(should_node_become_unassigned(&reg, node(7), subnet(1), &cup_since(5)));
}

#[test]
fn contains_node_finds_any_position() {
    let list = vec![node(1), node(2), node(3)];
    assert!(contains_node(&list, node(1)));
    assert!(contains_node(&list, node(3)));
    assert!(!contains_node(&list, node(4)));
    assert!(!contains_node(&vec![], node(1)));
}
