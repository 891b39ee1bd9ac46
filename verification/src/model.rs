//! The data the restore works on: instances, their attached devices, and the
//! snapshots available as restore sources.
//!
//! Every exec type has a spec-level mirror (its deep view) with strings
//! abstracted to character sequences; all contracts are stated over those
//! mirrors.

use vstd::prelude::*;
use crate::errors::RestoreError;

verus! {

/// How far a snapshot has progressed on the remote side. Only `Completed`
/// snapshots are eligible as restore sources.
#[derive(Clone, Copy, PartialEq, Eq, Structural, Debug)]
pub enum SnapshotState {
    Pending,
    Completed,
    Error,
}

/// Spec-level mirror of [`Snapshot`].
pub ghost struct SnapshotView {
    pub snapshot_id: Seq<char>,
    pub volume_id: Seq<char>,
    pub volume_size: u64,
    pub state: SnapshotState,
    pub start_time: i64,
    pub name: Option<Seq<char>>,
}

/// One point-in-time copy of a volume, as the snapshot catalog reports it:
/// identity, source volume, size in GiB, completion state, start timestamp
/// and an optional name tag.
pub struct Snapshot {
    pub snapshot_id: String,
    pub volume_id: String,
    pub volume_size: u64,
    pub state: SnapshotState,
    pub start_time: i64,
    pub name: Option<String>,
}

impl DeepView for Snapshot {
    type V = SnapshotView;

    open spec fn deep_view(&self) -> SnapshotView {
        SnapshotView {
            snapshot_id: self.snapshot_id.deep_view(),
            volume_id: self.volume_id.deep_view(),
            volume_size: self.volume_size,
            state: self.state,
            start_time: self.start_time,
            name: self.name.deep_view(),
        }
    }
}

impl Clone for Snapshot {
    fn clone(&self) -> (r: Snapshot)
        ensures
            r == *self,
    {
        Snapshot {
            snapshot_id: self.snapshot_id.clone(),
            volume_id: self.volume_id.clone(),
            volume_size: self.volume_size,
            state: self.state,
            start_time: self.start_time,
            name: self.name.clone(),
        }
    }
}

/// Spec-level mirror of [`Attachment`].
pub ghost struct AttachmentView {
    pub device: Seq<char>,
    pub volume_id: Seq<char>,
    pub volume_size: u64,
}

/// One block device slot on an instance: the device name, the volume bound to
/// it, and that volume's size in GiB. The device name is the stable key that
/// correlates original volume, candidate snapshots and replacement volume.
pub struct Attachment {
    pub device: String,
    pub volume_id: String,
    pub volume_size: u64,
}

impl DeepView for Attachment {
    type V = AttachmentView;

    open spec fn deep_view(&self) -> AttachmentView {
        AttachmentView {
            device: self.device.deep_view(),
            volume_id: self.volume_id.deep_view(),
            volume_size: self.volume_size,
        }
    }
}

impl Clone for Attachment {
    fn clone(&self) -> (r: Attachment)
        ensures
            r == *self,
    {
        Attachment {
            device: self.device.clone(),
            volume_id: self.volume_id.clone(),
            volume_size: self.volume_size,
        }
    }
}

/// Spec-level mirror of [`Instance`].
pub ghost struct InstanceView {
    pub instance_id: Seq<char>,
    pub name: Option<Seq<char>>,
    pub attachments: Seq<AttachmentView>,
}

impl InstanceView {
    /// Device names are unique within an instance.
    pub open spec fn wf(self) -> bool {
        forall|i: int, j: int|
            0 <= i < j < self.attachments.len() ==> self.attachments[i].device
                != self.attachments[j].device
    }
}

/// A read-only description of one instance at plan time: identity, optional
/// human name, and its block-storage attachments in the order the directory
/// enumerated them.
pub struct Instance {
    pub instance_id: String,
    pub name: Option<String>,
    pub attachments: Vec<Attachment>,
}

impl DeepView for Instance {
    type V = InstanceView;

    open spec fn deep_view(&self) -> InstanceView {
        InstanceView {
            instance_id: self.instance_id.deep_view(),
            name: self.name.deep_view(),
            attachments: self.attachments.deep_view(),
        }
    }
}

impl Instance {
    /// The name to report the instance under: its name tag if it has one,
    /// otherwise its id.
    pub fn display_name(&self) -> (r: &String)
        ensures
            match self.deep_view().name {
                Some(n) => r@ == n,
                None => r@ == self.deep_view().instance_id,
            },
    {
        match &self.name {
            Some(n) => n,
            None => &self.instance_id,
        }
    }
}

/// The resource directory's non-empty check: a caller that requires at least
/// one matching instance fails with `NotFound` on an empty result; otherwise
/// every match is passed through, none dropped.
pub fn require_matches(instances: Vec<Instance>) -> (r: Result<Vec<Instance>, RestoreError>)
    ensures
        instances@.len() > 0 ==> (r matches Ok(v) && v == instances),
        instances@.len() == 0 ==> r matches Err(RestoreError::NotFound),
{
    if instances.len() == 0 {
        Err(RestoreError::NotFound)
    } else {
        Ok(instances)
    }
}

/// Spec-level mirror of [`Tag`].
pub ghost struct TagView {
    pub key: Seq<char>,
    pub value: Seq<char>,
}

/// One key/value tag on a remote resource.
pub struct Tag {
    pub key: String,
    pub value: String,
}

impl DeepView for Tag {
    type V = TagView;

    open spec fn deep_view(&self) -> TagView {
        TagView { key: self.key.deep_view(), value: self.value.deep_view() }
    }
}

/// The value of the first tag whose key is `"Name"`, if any: how a resource's
/// human name is read off its tag list.
pub fn name_tag_value(tags: &Vec<Tag>) -> (r: Option<&String>)
    ensures
        match r {
            Some(v) => exists|i: int|
                0 <= i < tags.deep_view().len() && tags.deep_view()[i].key == spec_name_key()
                    && tags.deep_view()[i].value == v@ && (forall|j: int|
                    0 <= j < i ==> tags.deep_view()[j].key != spec_name_key()),
            None => forall|i: int|
                0 <= i < tags.deep_view().len() ==> tags.deep_view()[i].key != spec_name_key(),
        },
{
    let ghost tv = tags.deep_view();
    let name_key: String = "Name".to_owned();
    let mut i: usize = 0;
    while i < tags.len()
        invariant
            0 <= i <= tags.len(),
            tv == tags.deep_view(),
            name_key@ == spec_name_key(),
            forall|j: int| 0 <= j < i ==> tv[j].key != spec_name_key(),
        decreases tags.len() - i,
    {
        let tag = &tags[i];
        if tag.key == name_key {
            proof {
                assert(0 <= i < tv.len() && tv[i as int].key == spec_name_key()
                    && tv[i as int].value == tag.value@ && (forall|j: int|
                    0 <= j < i ==> tv[j].key != spec_name_key()));
            }
            return Some(&tag.value);
        }
        i += 1;
    }
    None
}

/// The tag key under which a resource's human name is stored.
pub open spec fn spec_name_key() -> Seq<char> {
    "Name"@
}

/// Spec-level mirror of [`DeviceMapping`].
pub ghost struct DeviceMappingView {
    pub device: Seq<char>,
    pub ebs: Option<EbsInfoView>,
}

/// Spec-level mirror of [`EbsInfo`].
pub ghost struct EbsInfoView {
    pub volume_id: Seq<char>,
    pub volume_size: u64,
}

/// A raw block-device entry as the resource directory reports it: the device
/// name, and the backing block-storage volume if the device has one.
/// Devices without one (instance-store devices) carry `None`.
pub struct DeviceMapping {
    pub device: String,
    pub ebs: Option<EbsInfo>,
}

/// The block-storage volume behind a device: its id and size in GiB.
pub struct EbsInfo {
    pub volume_id: String,
    pub volume_size: u64,
}

impl DeepView for EbsInfo {
    type V = EbsInfoView;

    open spec fn deep_view(&self) -> EbsInfoView {
        EbsInfoView { volume_id: self.volume_id.deep_view(), volume_size: self.volume_size }
    }
}

impl DeepView for DeviceMapping {
    type V = DeviceMappingView;

    open spec fn deep_view(&self) -> DeviceMappingView {
        DeviceMappingView { device: self.device.deep_view(), ebs: self.ebs.deep_view() }
    }
}

/// The attachments among `mappings`: one entry per device with a
/// block-storage volume, in mapping order; devices without one are skipped.
pub open spec fn spec_ebs_attachments(mappings: Seq<DeviceMappingView>) -> Seq<AttachmentView>
    decreases mappings.len(),
{
    if mappings.len() == 0 {
        Seq::empty()
    } else {
        let rest = spec_ebs_attachments(mappings.drop_last());
        match mappings.last().ebs {
            Some(e) => rest.push(
                AttachmentView {
                    device: mappings.last().device,
                    volume_id: e.volume_id,
                    volume_size: e.volume_size,
                },
            ),
            None => rest,
        }
    }
}

/// Narrows raw device mappings to the block-storage attachments: one
/// [`Attachment`] per device backed by a volume, in mapping order. Devices
/// without a backing volume are skipped, not an error.
pub fn ebs_attachments(mappings: &Vec<DeviceMapping>) -> (r: Vec<Attachment>)
    ensures
        r.deep_view() == spec_ebs_attachments(mappings.deep_view()),
{
    let ghost mv = mappings.deep_view();
    let mut r: Vec<Attachment> = Vec::new();
    let mut i: usize = 0;
    while i < mappings.len()
        invariant
            0 <= i <= mappings.len(),
            mv == mappings.deep_view(),
            r.deep_view() == spec_ebs_attachments(mv.subrange(0, i as int)),
        decreases mappings.len() - i,
    {
        proof {
            assert(mv.subrange(0, i + 1 as int).drop_last() =~= mv.subrange(0, i as int));
            assert(mv.subrange(0, i + 1 as int).last() == mv[i as int]);
        }
        let m = &mappings[i];
        match &m.ebs {
            Some(e) => {
                r.push(
                    Attachment {
                        device: m.device.clone(),
                        volume_id: e.volume_id.clone(),
                        volume_size: e.volume_size,
                    },
                );
            },
            None => {},
        }
        i += 1;
    }
    proof {
        assert(mv.subrange(0, mappings.deep_view().len() as int) =~= mv);
    }
    r
}

/// The volume ids of `attachments`, in order: the id set the snapshot catalog
/// is queried with.
pub fn volume_ids(attachments: &Vec<Attachment>) -> (r: Vec<String>)
    ensures
        r.deep_view().len() == attachments.deep_view().len(),
        forall|i: int|
            0 <= i < attachments.deep_view().len() ==> r.deep_view()[i]
                == attachments.deep_view()[i].volume_id,
{
    let mut r: Vec<String> = Vec::new();
    let mut i: usize = 0;
    while i < attachments.len()
        invariant
            0 <= i <= attachments.len(),
            r.deep_view().len() == i,
            forall|j: int|
                0 <= j < i ==> r.deep_view()[j] == attachments.deep_view()[j].volume_id,
        decreases attachments.len() - i,
    {
        let ghost prev = r.deep_view();
        r.push(attachments[i].volume_id.clone());
        proof {
            assert(r.deep_view() =~= prev.push(attachments.deep_view()[i as int].volume_id));
        }
        i += 1;
    }
    r
}

} // verus!
