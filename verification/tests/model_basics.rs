//! The data model's small pieces: tags, names, attachments, errors.

use ebs_restore::args::Args;
use ebs_restore::errors::{ApplicationError, RestoreError};
use ebs_restore::model::{
    Attachment, DeviceMapping, EbsInfo, Instance, Tag, ebs_attachments, name_tag_value,
    require_matches, volume_ids,
};

fn tag(key: &str, value: &str) -> Tag {
    Tag { key: key.to_string(), value: value.to_string() }
}

#[test]
fn name_tag_takes_the_first_name_key() {
    let tags = vec![tag("env", "prod"), tag("Name", "web-1"), tag("Name", "shadow")];
    assert_eq!(name_tag_value(&tags).map(|s| s.as_str()), Some("web-1"));
}

#[test]
fn name_tag_absent_yields_none() {
    let tags = vec![tag("env", "prod"), tag("team", "storage")];
    assert!(name_tag_value(&tags).is_none());
}

#[test]
fn display_name_prefers_the_name_over_the_id() {
    let named = Instance {
        instance_id: "i-1".to_string(),
        name: Some("web-1".to_string()),
        attachments: vec![],
    };
    let unnamed = Instance { instance_id: "i-2".to_string(), name: None, attachments: vec![] };
    assert_eq!(named.display_name(), "web-1");
    assert_eq!(unnamed.display_name(), "i-2");
}

#[test]
fn devices_without_volumes_are_skipped() {
    // An instance-store device sits between two block-storage devices: the
    // attachments keep order and skip it, not an error.
    let mappings = vec![
        DeviceMapping {
            device: "/dev/sda1".to_string(),
            ebs: Some(EbsInfo { volume_id: "vol-a".to_string(), volume_size: 20 }),
        },
        DeviceMapping { device: "/dev/sdb".to_string(), ebs: None },
        DeviceMapping {
            device: "/dev/sdc".to_string(),
            ebs: Some(EbsInfo { volume_id: "vol-c".to_string(), volume_size: 30 }),
        },
    ];
    let atts = ebs_attachments(&mappings);
    assert_eq!(atts.len(), 2);
    assert_eq!(atts[0].device, "/dev/sda1");
    assert_eq!(atts[0].volume_id, "vol-a");
    assert_eq!(atts[0].volume_size, 20);
    assert_eq!(atts[1].device, "/dev/sdc");
    assert_eq!(atts[1].volume_id, "vol-c");
}

#[test]
fn volume_ids_keep_attachment_order() {
    let atts = vec![
        Attachment { device: "/dev/sda1".to_string(), volume_id: "vol-a".to_string(), volume_size: 1 },
        Attachment { device: "/dev/sdb".to_string(), volume_id: "vol-b".to_string(), volume_size: 2 },
    ];
    assert_eq!(volume_ids(&atts), vec!["vol-a", "vol-b"]);
}

#[test]
fn empty_instance_set_is_not_found() {
    match require_matches(vec![]) {
        Err(RestoreError::NotFound) => {},
        _ => panic!("expected NotFound"),
    }
}

#[test]
fn non_empty_instance_set_passes_through() {
    let inst = Instance { instance_id: "i-1".to_string(), name: None, attachments: vec![] };
    let out = require_matches(vec![inst]).expect("one match suffices");
    assert_eq!(out.len(), 1);
    assert_eq!(out[0].instance_id, "i-1");
}

#[test]
fn application_error_keeps_its_message() {
    let e = ApplicationError::new("nothing to restore".to_string());
    assert_eq!(e.message(), "nothing to restore");
}

#[test]
fn application_error_from_err_prefixes_the_context() {
    let e = ApplicationError::from_err("reading instance names", 7);
    assert_eq!(e.message(), "reading instance names: 7");
}

#[test]
fn args_collapse_to_run_flags() {
    let args = Args {
        profile: "ops".to_string(),
        instance_file: "instances.txt".to_string(),
        region: "eu-central-1".to_string(),
        execute: true,
        start_instances: false,
        stop_instances: true,
    };
    let flags = args.flags();
    assert!(flags.execute);
    assert!(flags.stop);
    assert!(!flags.start);
}
