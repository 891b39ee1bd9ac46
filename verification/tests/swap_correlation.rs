//! Materialization, correlation and swap planning.

use ebs_restore::errors::RestoreError;
use ebs_restore::materialize::{
    CreateOutcome, MaterializedVolume, collect_create_outcomes, plan_create_requests,
    volume_id_list,
};
use ebs_restore::model::{Attachment, Instance};
use ebs_restore::plan::{PlanEntry, RestorePlan};
use ebs_restore::swap::swap_steps;

fn entry(device: &str, vol: &str, snapshot: &str) -> PlanEntry {
    PlanEntry {
        device: device.to_string(),
        source_volume_id: vol.to_string(),
        snapshot_id: snapshot.to_string(),
    }
}

fn att(device: &str, vol: &str, size: u64) -> Attachment {
    Attachment { device: device.to_string(), volume_id: vol.to_string(), volume_size: size }
}

fn vol(id: &str, tag: &str) -> MaterializedVolume {
    MaterializedVolume { volume_id: id.to_string(), device_tag: tag.to_string() }
}

fn three_device_plan() -> RestorePlan {
    RestorePlan {
        entries: vec![
            entry("/dev/sda1", "vol-a", "snap-1"),
            entry("/dev/sdb", "vol-b", "snap-2"),
            entry("/dev/sdc", "vol-c", "snap-3"),
        ],
    }
}

#[test]
fn requests_carry_snapshot_and_device_tag() {
    let reqs = plan_create_requests(&three_device_plan());
    assert_eq!(reqs.len(), 3);
    assert_eq!(reqs[0].snapshot_id, "snap-1");
    assert_eq!(reqs[0].device_tag, "/dev/sda1");
    assert_eq!(reqs[2].snapshot_id, "snap-3");
    assert_eq!(reqs[2].device_tag, "/dev/sdc");
}

#[test]
fn all_successes_materialize_tagged_volumes() {
    let plan = three_device_plan();
    let outcomes = vec![
        CreateOutcome::Created { volume_id: "v1".to_string() },
        CreateOutcome::Created { volume_id: "v2".to_string() },
        CreateOutcome::Created { volume_id: "v3".to_string() },
    ];
    let vols = collect_create_outcomes(&plan, &outcomes).expect("all created");
    assert_eq!(vols.len(), 3);
    assert_eq!(vols[0].volume_id, "v1");
    assert_eq!(vols[0].device_tag, "/dev/sda1");
    assert_eq!(vols[1].device_tag, "/dev/sdb");
    assert_eq!(vols[2].device_tag, "/dev/sdc");
    let ids = volume_id_list(&vols);
    assert_eq!(ids, vec!["v1", "v2", "v3"]);
}

#[test]
fn one_failure_fails_the_whole_materialization() {
    // The second of three requests fails: the whole fan-in reports the
    // partial failure, naming the volumes that were created.
    let plan = three_device_plan();
    let outcomes = vec![
        CreateOutcome::Created { volume_id: "v1".to_string() },
        CreateOutcome::Failed { message: "insufficient capacity".to_string() },
        CreateOutcome::Created { volume_id: "v3".to_string() },
    ];
    match collect_create_outcomes(&plan, &outcomes) {
        Err(RestoreError::PartialCreateFailure { succeeded_volume_ids, message }) => {
            assert_eq!(succeeded_volume_ids, vec!["v1", "v3"]);
            assert_eq!(message, "insufficient capacity");
        },
        _ => panic!("expected PartialCreateFailure"),
    }
}

fn two_device_instance() -> Instance {
    Instance {
        instance_id: "i-1".to_string(),
        name: Some("web".to_string()),
        attachments: vec![att("/dev/sda1", "vol-a", 20), att("/dev/sdb", "vol-b", 100)],
    }
}

#[test]
fn swap_finds_every_device_once() {
    // Correlation goes by tag, not by ordering: the volumes arrive in the
    // opposite order and are still matched to their devices.
    let inst = two_device_instance();
    let vols = vec![vol("v2", "/dev/sdb"), vol("v1", "/dev/sda1")];
    let steps = swap_steps(&inst, &vols).expect("every device tagged");
    assert_eq!(steps.len(), 2);
    assert_eq!(steps[0].device, "/dev/sda1");
    assert_eq!(steps[0].detach_volume_id, "vol-a");
    assert_eq!(steps[0].attach_volume_id, "v1");
    assert_eq!(steps[1].device, "/dev/sdb");
    assert_eq!(steps[1].detach_volume_id, "vol-b");
    assert_eq!(steps[1].attach_volume_id, "v2");
}

#[test]
fn swap_preserves_device_names() {
    let inst = two_device_instance();
    let vols = vec![vol("v1", "/dev/sda1"), vol("v2", "/dev/sdb")];
    let steps = swap_steps(&inst, &vols).expect("steps");
    for (step, attachment) in steps.iter().zip(inst.attachments.iter()) {
        // The new volume lands on the very device that held the original.
        assert_eq!(step.device, attachment.device);
        let tagged = vols.iter().find(|v| v.volume_id == step.attach_volume_id).unwrap();
        assert_eq!(tagged.device_tag, attachment.device);
    }
}

#[test]
fn missing_tag_is_a_correlation_error() {
    let inst = two_device_instance();
    let vols = vec![vol("v1", "/dev/sda1")];
    match swap_steps(&inst, &vols) {
        Err(RestoreError::CorrelationMissing { device }) => assert_eq!(device, "/dev/sdb"),
        _ => panic!("expected CorrelationMissing"),
    }
}

#[test]
fn first_matching_tag_wins() {
    let inst = Instance {
        instance_id: "i-1".to_string(),
        name: None,
        attachments: vec![att("/dev/sda1", "vol-a", 20)],
    };
    let vols = vec![vol("v-first", "/dev/sda1"), vol("v-second", "/dev/sda1")];
    let steps = swap_steps(&inst, &vols).expect("steps");
    assert_eq!(steps[0].attach_volume_id, "v-first");
}
