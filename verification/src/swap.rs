//! Planning the swap: for each attachment, in attachment order, locate the
//! materialized volume tagged with the attachment's device name and pair a
//! detach of the original volume with an attach of the new one on the very
//! same device.

use vstd::prelude::*;
use crate::errors::{RestoreError, RestoreErrorView};
use crate::materialize::{MaterializedVolume, MaterializedVolumeView, is_materialization_of};
use crate::model::{AttachmentView, Instance, InstanceView};
use crate::plan::{PlanEntryView, plan_matches_instance};

verus! {

/// Spec-level mirror of [`SwapStep`].
pub ghost struct SwapStepView {
    pub device: Seq<char>,
    pub detach_volume_id: Seq<char>,
    pub attach_volume_id: Seq<char>,
}

/// One device's swap: detach the original volume from the device, then
/// attach the replacement volume to the same device name.
pub struct SwapStep {
    pub device: String,
    pub detach_volume_id: String,
    pub attach_volume_id: String,
}

impl DeepView for SwapStep {
    type V = SwapStepView;

    open spec fn deep_view(&self) -> SwapStepView {
        SwapStepView {
            device: self.device.deep_view(),
            detach_volume_id: self.detach_volume_id.deep_view(),
            attach_volume_id: self.attach_volume_id.deep_view(),
        }
    }
}

/// Some volume in `vols` is tagged `device`.
pub open spec fn has_tag(vols: Seq<MaterializedVolumeView>, device: Seq<char>) -> bool {
    exists|j: int| 0 <= j < vols.len() && #[trigger] vols[j].device_tag == device
}

/// `j` is the first index in `vols` whose volume is tagged `device`.
pub open spec fn is_first_tag_match(
    vols: Seq<MaterializedVolumeView>,
    device: Seq<char>,
    j: int,
) -> bool {
    &&& 0 <= j < vols.len()
    &&& vols[j].device_tag == device
    &&& forall|k: int| 0 <= k < j ==> #[trigger] vols[k].device_tag != device
}

/// Step `i` is correct for attachment `i`: it names the attachment's device,
/// detaches the attachment's volume, and attaches the first volume tagged
/// with that device.
pub open spec fn swap_step_matches(
    attachments: Seq<AttachmentView>,
    vols: Seq<MaterializedVolumeView>,
    steps: Seq<SwapStepView>,
    i: int,
) -> bool {
    &&& steps[i].device == attachments[i].device
    &&& steps[i].detach_volume_id == attachments[i].volume_id
    &&& exists|j: int|
        is_first_tag_match(vols, attachments[i].device, j) && steps[i].attach_volume_id
            == #[trigger] vols[j].volume_id
}

/// The detach/attach pairs that swap `vols` onto `instance`: one step per
/// attachment, in attachment order. A device with no volume tagged for it
/// fails with `CorrelationMissing` — a plan/materialization mismatch that is
/// never silently skipped.
pub fn swap_steps(instance: &Instance, vols: &Vec<MaterializedVolume>) -> (r: Result<
    Vec<SwapStep>,
    RestoreError,
>)
    ensures
        ({
            let atts = instance.deep_view().attachments;
            let vv = vols.deep_view();
            match r {
                Ok(steps) => {
                    &&& steps.deep_view().len() == atts.len()
                    &&& forall|i: int|
                        0 <= i < atts.len() ==> #[trigger] swap_step_matches(
                            atts,
                            vv,
                            steps.deep_view(),
                            i,
                        )
                },
                Err(e) => {
                    &&& e.deep_view() matches RestoreErrorView::CorrelationMissing { device }
                    &&& exists|i: int|
                        0 <= i < atts.len() && #[trigger] atts[i].device
                            == e.deep_view()->CorrelationMissing_device && !has_tag(
                            vv,
                            atts[i].device,
                        ) && (forall|j: int|
                            0 <= j < i ==> has_tag(vv, #[trigger] atts[j].device))
                },
            }
        }),
        (r matches Ok(_)) <==> (forall|i: int|
            0 <= i < instance.deep_view().attachments.len() ==> has_tag(
                vols.deep_view(),
                #[trigger] instance.deep_view().attachments[i].device,
            )),
{
    let ghost atts = instance.deep_view().attachments;
    let ghost vv = vols.deep_view();
    let mut steps: Vec<SwapStep> = Vec::new();
    let mut i: usize = 0;
    while i < instance.attachments.len()
        invariant
            0 <= i <= instance.attachments.len(),
            atts == instance.deep_view().attachments,
            vv == vols.deep_view(),
            steps.deep_view().len() == i,
            forall|j: int|
                0 <= j < i ==> #[trigger] swap_step_matches(atts, vv, steps.deep_view(), j),
            forall|j: int| 0 <= j < i ==> has_tag(vv, #[trigger] atts[j].device),
        decreases instance.attachments.len() - i,
    {
        let attachment = &instance.attachments[i];
        let mut found: Option<usize> = None;
        let mut j: usize = 0;
        while j < vols.len()
            invariant_except_break
                found matches None,
                forall|k: int| 0 <= k < j ==> #[trigger] vv[k].device_tag != attachment.device@,
            invariant
                0 <= j <= vols.len(),
                vv == vols.deep_view(),
            ensures
                match found {
                    Some(f) => is_first_tag_match(vv, attachment.device@, f as int),
                    None => forall|k: int|
                        0 <= k < vv.len() ==> #[trigger] vv[k].device_tag != attachment.device@,
                },
            decreases vols.len() - j,
        {
            if vols[j].device_tag == attachment.device {
                found = Some(j);
                break ;
            }
            j += 1;
        }
        match found {
            None => {
                proof {
                    assert(atts[i as int].device == attachment.device@);
                    assert(!has_tag(vv, atts[i as int].device));
                }
                return Err(
                    RestoreError::CorrelationMissing { device: attachment.device.clone() },
                );
            },
            Some(f) => {
                let ghost prev = steps.deep_view();
                steps.push(
                    SwapStep {
                        device: attachment.device.clone(),
                        detach_volume_id: attachment.volume_id.clone(),
                        attach_volume_id: vols[f].volume_id.clone(),
                    },
                );
                proof {
                    assert(steps.deep_view() =~= prev.push(
                        SwapStepView {
                            device: atts[i as int].device,
                            detach_volume_id: atts[i as int].volume_id,
                            attach_volume_id: vv[f as int].volume_id,
                        },
                    ));
                    assert(swap_step_matches(atts, vv, steps.deep_view(), i as int));
                    assert forall|k: int|
                        0 <= k < i + 1 implies #[trigger] swap_step_matches(
                        atts,
                        vv,
                        steps.deep_view(),
                        k,
                    ) by {
                        if k < i {
                            assert(swap_step_matches(atts, vv, prev, k));
                            assert(steps.deep_view()[k] == prev[k]);
                        }
                    }
                }
            },
        }
        i += 1;
    }
    Ok(steps)
}

/// Correlation integrity: when a well-formed instance is covered by a plan
/// and the volumes materialize that plan, every device of the plan has
/// exactly one volume tagged for it — the swap finds every device and
/// `CorrelationMissing` is unreachable.
pub proof fn lemma_correlation_integrity(
    instance: InstanceView,
    plan: Seq<PlanEntryView>,
    vols: Seq<MaterializedVolumeView>,
)
    requires
        instance.wf(),
        plan_matches_instance(plan, instance),
        is_materialization_of(vols, plan),
    ensures
        forall|i: int| 0 <= i < plan.len() ==> has_tag(vols, #[trigger] plan[i].device),
        forall|i: int, j: int|
            0 <= i < plan.len() && 0 <= j < vols.len() && #[trigger] vols[j].device_tag
                == #[trigger] plan[i].device ==> j == i,
        forall|i: int|
            0 <= i < instance.attachments.len() ==> has_tag(
                vols,
                #[trigger] instance.attachments[i].device,
            ),
{
    assert forall|i: int| 0 <= i < plan.len() implies has_tag(
        vols,
        #[trigger] plan[i].device,
    ) by {
        assert(vols[i].device_tag == plan[i].device);
    }
    assert forall|i: int, j: int|
        0 <= i < plan.len() && 0 <= j < vols.len() && #[trigger] vols[j].device_tag
            == #[trigger] plan[i].device implies j == i by {
        assert(vols[j].device_tag == plan[j].device);
        assert(plan[j].device == instance.attachments[j].device);
        assert(plan[i].device == instance.attachments[i].device);
    }
    assert forall|i: int| 0 <= i < instance.attachments.len() implies has_tag(
        vols,
        #[trigger] instance.attachments[i].device,
    ) by {
        assert(plan[i].device == instance.attachments[i].device);
        assert(vols[i].device_tag == plan[i].device);
    }
}

/// Device preservation: a correct swap reattaches at exactly the device that
/// held the original volume — each step's attach happens on the step's own
/// device, which is the attachment's device, and the volume attached there
/// is one tagged with that very device.
pub proof fn lemma_device_preservation(
    attachments: Seq<AttachmentView>,
    vols: Seq<MaterializedVolumeView>,
    steps: Seq<SwapStepView>,
)
    requires
        steps.len() == attachments.len(),
        forall|i: int|
            0 <= i < attachments.len() ==> #[trigger] swap_step_matches(
                attachments,
                vols,
                steps,
                i,
            ),
    ensures
        forall|i: int|
            0 <= i < steps.len() ==> #[trigger] steps[i].device == attachments[i].device,
        forall|i: int|
            0 <= i < steps.len() ==> #[trigger] step_attaches_tagged_volume(
                attachments,
                vols,
                steps,
                i,
            ),
{
    assert forall|i: int| 0 <= i < steps.len() implies #[trigger] steps[i].device
        == attachments[i].device by {
        assert(swap_step_matches(attachments, vols, steps, i));
    }
    assert forall|i: int| 0 <= i < steps.len() implies #[trigger] step_attaches_tagged_volume(
        attachments,
        vols,
        steps,
        i,
    ) by {
        assert(swap_step_matches(attachments, vols, steps, i));
        let j: int = choose|j: int|
            is_first_tag_match(vols, attachments[i].device, j) && steps[i].attach_volume_id
                == #[trigger] vols[j].volume_id;
        assert(0 <= j < vols.len() && vols[j].device_tag == attachments[i].device
            && vols[j].volume_id == steps[i].attach_volume_id);
    }
}

/// The volume that step `i` attaches is one of the materialized volumes, and
/// it carries the tag of the device the step attaches it to.
pub open spec fn step_attaches_tagged_volume(
    attachments: Seq<AttachmentView>,
    vols: Seq<MaterializedVolumeView>,
    steps: Seq<SwapStepView>,
    i: int,
) -> bool {
    exists|j: int|
        0 <= j < vols.len() && #[trigger] vols[j].device_tag == attachments[i].device
            && vols[j].volume_id == steps[i].attach_volume_id
}

} // verus!
