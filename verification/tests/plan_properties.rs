//! Candidate filtering and plan building.

use std::cell::Cell;

use ebs_restore::errors::RestoreError;
use ebs_restore::model::{Attachment, Instance, Snapshot, SnapshotState};
use ebs_restore::plan::{build_plan, candidates};

fn snap(id: &str, vol: &str, size: u64, state: SnapshotState, t: i64) -> Snapshot {
    Snapshot {
        snapshot_id: id.to_string(),
        volume_id: vol.to_string(),
        volume_size: size,
        state,
        start_time: t,
        name: Some(format!("{}-name", id)),
    }
}

fn att(device: &str, vol: &str, size: u64) -> Attachment {
    Attachment { device: device.to_string(), volume_id: vol.to_string(), volume_size: size }
}

fn instance(id: &str, attachments: Vec<Attachment>) -> Instance {
    Instance { instance_id: id.to_string(), name: None, attachments }
}

fn catalog() -> Vec<Snapshot> {
    vec![
        snap("snap-1", "vol-a", 20, SnapshotState::Completed, 100),
        snap("snap-2", "vol-b", 100, SnapshotState::Completed, 200),
        snap("snap-3", "vol-a", 20, SnapshotState::Pending, 300),
        snap("snap-4", "vol-c", 20, SnapshotState::Error, 400),
        snap("snap-5", "vol-d", 20, SnapshotState::Completed, 500),
    ]
}

#[test]
fn candidates_keep_exactly_completed_of_matching_size() {
    let c = candidates(&catalog(), 20);
    let ids: Vec<&str> = c.iter().map(|s| s.snapshot_id.as_str()).collect();
    assert_eq!(ids, vec!["snap-1", "snap-5"]);
}

#[test]
fn candidates_empty_when_nothing_matches() {
    let c = candidates(&catalog(), 8);
    assert!(c.is_empty());
}

#[test]
fn candidates_ignore_catalog_order() {
    let mut reversed = catalog();
    reversed.reverse();
    let a = candidates(&catalog(), 20);
    let b = candidates(&reversed, 20);
    let mut ids_a: Vec<String> = a.iter().map(|s| s.snapshot_id.clone()).collect();
    let mut ids_b: Vec<String> = b.iter().map(|s| s.snapshot_id.clone()).collect();
    ids_a.sort();
    ids_b.sort();
    assert_eq!(ids_a, ids_b);
}

#[test]
fn plan_has_one_entry_per_device() {
    let inst = instance("i-1", vec![att("/dev/sda1", "vol-a", 20), att("/dev/sdb", "vol-b", 100)]);
    let plan = build_plan(&inst, &catalog(), |c: &Vec<Snapshot>| {
        if c.is_empty() {
            None
        } else {
            Some(0)
        }
    })
    .expect("plan should build");
    assert_eq!(plan.entries.len(), 2);
    assert_eq!(plan.entries[0].device, "/dev/sda1");
    assert_eq!(plan.entries[0].source_volume_id, "vol-a");
    assert_eq!(plan.entries[0].snapshot_id, "snap-1");
    assert_eq!(plan.entries[1].device, "/dev/sdb");
    assert_eq!(plan.entries[1].source_volume_id, "vol-b");
    assert_eq!(plan.entries[1].snapshot_id, "snap-2");
}

#[test]
fn empty_candidates_fail_fast_without_selection() {
    // The first device's size matches no completed snapshot: the builder
    // reports that device and never asks for a selection, neither for it nor
    // for the later device.
    let inst = instance("i-1", vec![att("/dev/sda1", "vol-a", 8), att("/dev/sdb", "vol-b", 100)]);
    let calls = Cell::new(0u32);
    let r = build_plan(&inst, &catalog(), |c: &Vec<Snapshot>| {
        calls.set(calls.get() + 1);
        if c.is_empty() {
            None
        } else {
            Some(0)
        }
    });
    match r {
        Err(RestoreError::NoCandidateSnapshot { device }) => assert_eq!(device, "/dev/sda1"),
        _ => panic!("expected NoCandidateSnapshot"),
    }
    assert_eq!(calls.get(), 0);
}

#[test]
fn no_candidate_on_later_device_stops_there() {
    let inst = instance("i-1", vec![att("/dev/sda1", "vol-a", 20), att("/dev/sdb", "vol-b", 7)]);
    let calls = Cell::new(0u32);
    let r = build_plan(&inst, &catalog(), |_c: &Vec<Snapshot>| {
        calls.set(calls.get() + 1);
        Some(0)
    });
    match r {
        Err(RestoreError::NoCandidateSnapshot { device }) => assert_eq!(device, "/dev/sdb"),
        _ => panic!("expected NoCandidateSnapshot"),
    }
    // Only the first device reached selection.
    assert_eq!(calls.get(), 1);
}

#[test]
fn operator_abort_propagates_with_device() {
    let inst = instance("i-1", vec![att("/dev/sda1", "vol-a", 20)]);
    let r = build_plan(&inst, &catalog(), |_c: &Vec<Snapshot>| None);
    match r {
        Err(RestoreError::SelectionAborted { device }) => assert_eq!(device, "/dev/sda1"),
        _ => panic!("expected SelectionAborted"),
    }
}

#[test]
fn selection_picks_among_candidates_only() {
    // Choosing the second candidate for a 20 GiB device picks the later
    // completed snapshot of that size, not the pending one.
    let inst = instance("i-1", vec![att("/dev/sda1", "vol-a", 20)]);
    let plan = build_plan(&inst, &catalog(), |_c: &Vec<Snapshot>| Some(1)).expect("plan");
    assert_eq!(plan.entries[0].snapshot_id, "snap-5");
}

#[test]
fn largest_size_still_matches_exactly() {
    let huge = u64::MAX;
    let mut cat = catalog();
    cat.push(snap("snap-big", "vol-big", huge, SnapshotState::Completed, 600));
    let c = candidates(&cat, huge);
    assert_eq!(c.len(), 1);
    assert_eq!(c[0].snapshot_id, "snap-big");
}

#[test]
fn plan_covers_no_devices_only_for_no_attachments() {
    let inst = instance("i-1", vec![]);
    let calls = Cell::new(0u32);
    let plan = build_plan(&inst, &catalog(), |_c: &Vec<Snapshot>| {
        calls.set(calls.get() + 1);
        Some(0)
    })
    .expect("plan");
    assert!(plan.entries.is_empty());
    assert_eq!(calls.get(), 0);
}
