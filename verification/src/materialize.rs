//! Materializing a plan: one create-volume request per plan entry, each
//! tagged with its device name so the result can be matched back without
//! relying on response ordering, and fan-in of the per-request outcomes with
//! all-or-nothing semantics.

use vstd::prelude::*;
use crate::errors::{RestoreError, RestoreErrorView};
use crate::plan::{PlanEntryView, RestorePlan};

verus! {

/// Spec-level mirror of [`CreateRequest`].
pub ghost struct CreateRequestView {
    pub snapshot_id: Seq<char>,
    pub device_tag: Seq<char>,
}

/// One create-volume request: the snapshot to create from, and the device
/// name to tag the new volume with for later correlation.
pub struct CreateRequest {
    pub snapshot_id: String,
    pub device_tag: String,
}

impl DeepView for CreateRequest {
    type V = CreateRequestView;

    open spec fn deep_view(&self) -> CreateRequestView {
        CreateRequestView {
            snapshot_id: self.snapshot_id.deep_view(),
            device_tag: self.device_tag.deep_view(),
        }
    }
}

/// Spec-level mirror of [`CreateOutcome`].
pub ghost enum CreateOutcomeView {
    Created { volume_id: Seq<char> },
    Failed { message: Seq<char> },
}

/// How one create-volume request ended: the id of the new volume, or the
/// remote error rendered as a message.
pub enum CreateOutcome {
    Created { volume_id: String },
    Failed { message: String },
}

impl DeepView for CreateOutcome {
    type V = CreateOutcomeView;

    open spec fn deep_view(&self) -> CreateOutcomeView {
        match self {
            CreateOutcome::Created { volume_id } => CreateOutcomeView::Created {
                volume_id: volume_id.deep_view(),
            },
            CreateOutcome::Failed { message } => CreateOutcomeView::Failed {
                message: message.deep_view(),
            },
        }
    }
}

/// Spec-level mirror of [`MaterializedVolume`].
pub ghost struct MaterializedVolumeView {
    pub volume_id: Seq<char>,
    pub device_tag: Seq<char>,
}

/// A volume created from a chosen snapshot, carrying the device name it was
/// tagged with at creation: the correlation key the swap stage matches on.
pub struct MaterializedVolume {
    pub volume_id: String,
    pub device_tag: String,
}

impl DeepView for MaterializedVolume {
    type V = MaterializedVolumeView;

    open spec fn deep_view(&self) -> MaterializedVolumeView {
        MaterializedVolumeView {
            volume_id: self.volume_id.deep_view(),
            device_tag: self.device_tag.deep_view(),
        }
    }
}

/// A volume set materializes a plan when it has exactly one volume per plan
/// entry, in plan order, tagged with that entry's device.
pub open spec fn is_materialization_of(
    vols: Seq<MaterializedVolumeView>,
    plan: Seq<PlanEntryView>,
) -> bool {
    &&& vols.len() == plan.len()
    &&& forall|i: int|
        0 <= i < vols.len() ==> #[trigger] vols[i].device_tag == plan[i].device
}

/// The create-volume requests for a plan: one per entry, in plan order, each
/// naming the entry's chosen snapshot and tagged with the entry's device.
pub fn plan_create_requests(plan: &RestorePlan) -> (r: Vec<CreateRequest>)
    ensures
        r.deep_view() == spec_requests_of_plan(plan.deep_view()),
        r.deep_view().len() == plan.deep_view().len(),
        forall|i: int|
            #![trigger r.deep_view()[i]]
            0 <= i < plan.deep_view().len() ==> r.deep_view()[i].snapshot_id
                == plan.deep_view()[i].snapshot_id && r.deep_view()[i].device_tag
                == plan.deep_view()[i].device,
{
    let mut r: Vec<CreateRequest> = Vec::new();
    let mut i: usize = 0;
    while i < plan.entries.len()
        invariant
            0 <= i <= plan.entries.len(),
            r.deep_view().len() == i,
            forall|j: int|
                #![trigger r.deep_view()[j]]
                0 <= j < i ==> r.deep_view()[j].snapshot_id
                    == plan.deep_view()[j].snapshot_id && r.deep_view()[j].device_tag
                    == plan.deep_view()[j].device,
        decreases plan.entries.len() - i,
    {
        let entry = &plan.entries[i];
        let ghost prev = r.deep_view();
        r.push(
            CreateRequest {
                snapshot_id: entry.snapshot_id.clone(),
                device_tag: entry.device.clone(),
            },
        );
        proof {
            assert(r.deep_view() =~= prev.push(
                CreateRequestView {
                    snapshot_id: plan.deep_view()[i as int].snapshot_id,
                    device_tag: plan.deep_view()[i as int].device,
                },
            ));
        }
        i += 1;
    }
    proof {
        assert(r.deep_view() =~= spec_requests_of_plan(plan.deep_view()));
    }
    r
}

/// The create requests a plan induces: one per entry, in plan order, naming
/// the entry's chosen snapshot and tagged with the entry's device.
pub open spec fn spec_requests_of_plan(plan: Seq<PlanEntryView>) -> Seq<CreateRequestView> {
    plan.map_values(
        |e: PlanEntryView| CreateRequestView { snapshot_id: e.snapshot_id, device_tag: e.device },
    )
}

/// Fan-in of the per-request outcomes, all-or-nothing: the materialized
/// volumes if every request succeeded, otherwise `PartialCreateFailure`
/// naming the volumes that were created and the first failure — the caller
/// must not proceed to attach a partial set.
pub fn collect_create_outcomes(plan: &RestorePlan, outcomes: &Vec<CreateOutcome>) -> (r: Result<
    Vec<MaterializedVolume>,
    RestoreError,
>)
    requires
        outcomes.deep_view().len() == plan.deep_view().len(),
    ensures
        r matches Ok(_) <==> (forall|i: int|
            0 <= i < outcomes.deep_view().len() ==> #[trigger] outcomes.deep_view()[i] matches
                CreateOutcomeView::Created { .. }),
        r matches Ok(vols) ==> is_materialization_of(vols.deep_view(), plan.deep_view()) && (
        forall|i: int|
            0 <= i < vols.deep_view().len() ==> (#[trigger] outcomes.deep_view()[i] matches
                CreateOutcomeView::Created { volume_id } && vols.deep_view()[i].volume_id
                == volume_id)),
        r matches Err(e) ==> e.deep_view() matches RestoreErrorView::PartialCreateFailure {
            succeeded_volume_ids,
            message,
        } && succeeded_volume_ids == spec_created_ids(outcomes.deep_view()) && (exists|k: int|
            0 <= k < outcomes.deep_view().len() && (#[trigger] outcomes.deep_view()[k] matches
                CreateOutcomeView::Failed { message: m } && m == message) && (forall|j: int|
                0 <= j < k ==> #[trigger] outcomes.deep_view()[j] matches
                    CreateOutcomeView::Created { .. })),
{
    let ghost ov = outcomes.deep_view();
    let mut vols: Vec<MaterializedVolume> = Vec::new();
    let mut i: usize = 0;
    while i < outcomes.len()
        invariant
            0 <= i <= outcomes.len(),
            ov == outcomes.deep_view(),
            outcomes.deep_view().len() == plan.deep_view().len(),
            vols.deep_view().len() == i,
            forall|j: int|
                0 <= j < i ==> #[trigger] ov[j] matches CreateOutcomeView::Created { .. },
            forall|j: int|
                0 <= j < i ==> (#[trigger] ov[j] matches CreateOutcomeView::Created { volume_id }
                    && vols.deep_view()[j].volume_id == volume_id && vols.deep_view()[j].device_tag
                    == plan.deep_view()[j].device),
        decreases outcomes.len() - i,
    {
        match &outcomes[i] {
            CreateOutcome::Created { volume_id } => {
                let ghost prev = vols.deep_view();
                vols.push(
                    MaterializedVolume {
                        volume_id: volume_id.clone(),
                        device_tag: plan.entries[i].device.clone(),
                    },
                );
                proof {
                    assert(vols.deep_view() =~= prev.push(
                        MaterializedVolumeView {
                            volume_id: ov[i as int]->Created_volume_id,
                            device_tag: plan.deep_view()[i as int].device,
                        },
                    ));
                }
            },
            CreateOutcome::Failed { message } => {
                let succeeded = created_ids(outcomes);
                proof {
                    assert(0 <= i < ov.len() && (ov[i as int] matches CreateOutcomeView::Failed {
                        message: m,
                    } && m == message@) && (forall|j: int|
                        0 <= j < i ==> #[trigger] ov[j] matches CreateOutcomeView::Created {
                            ..
                        }));
                }
                return Err(
                    RestoreError::PartialCreateFailure {
                        succeeded_volume_ids: succeeded,
                        message: message.clone(),
                    },
                );
            },
        }
        i += 1;
    }
    proof {
        assert forall|j: int| 0 <= j < vols.deep_view().len() implies #[trigger] vols.deep_view()[j].device_tag
            == plan.deep_view()[j].device by {
            assert(ov[j] matches CreateOutcomeView::Created { .. });
        }
    }
    Ok(vols)
}

/// The ids of the volumes whose creation succeeded, in request order.
pub open spec fn spec_created_ids(outcomes: Seq<CreateOutcomeView>) -> Seq<Seq<char>>
    decreases outcomes.len(),
{
    if outcomes.len() == 0 {
        Seq::empty()
    } else {
        let rest = spec_created_ids(outcomes.drop_last());
        match outcomes.last() {
            CreateOutcomeView::Created { volume_id } => rest.push(volume_id),
            CreateOutcomeView::Failed { .. } => rest,
        }
    }
}

/// The ids of the volumes whose creation succeeded, in request order.
fn created_ids(outcomes: &Vec<CreateOutcome>) -> (r: Vec<String>)
    ensures
        r.deep_view() == spec_created_ids(outcomes.deep_view()),
{
    let ghost ov = outcomes.deep_view();
    let mut r: Vec<String> = Vec::new();
    let mut i: usize = 0;
    while i < outcomes.len()
        invariant
            0 <= i <= outcomes.len(),
            ov == outcomes.deep_view(),
            r.deep_view() == spec_created_ids(ov.subrange(0, i as int)),
        decreases outcomes.len() - i,
    {
        proof {
            assert(ov.subrange(0, i + 1 as int).drop_last() =~= ov.subrange(0, i as int));
            assert(ov.subrange(0, i + 1 as int).last() == ov[i as int]);
        }
        match &outcomes[i] {
            CreateOutcome::Created { volume_id } => {
                let ghost prev = r.deep_view();
                r.push(volume_id.clone());
                proof {
                    assert(r.deep_view() =~= prev.push(ov[i as int]->Created_volume_id));
                }
            },
            CreateOutcome::Failed { .. } => {},
        }
        i += 1;
    }
    proof {
        assert(ov.subrange(0, outcomes.deep_view().len() as int) =~= ov);
    }
    r
}

/// When every request succeeded, the succeeded ids are exactly the created
/// volumes' ids, in request order.
pub proof fn lemma_created_ids_all(outcomes: Seq<CreateOutcomeView>)
    requires
        forall|i: int|
            0 <= i < outcomes.len() ==> #[trigger] outcomes[i] matches CreateOutcomeView::Created {
                ..
            },
    ensures
        spec_created_ids(outcomes).len() == outcomes.len(),
        forall|i: int|
            #![trigger spec_created_ids(outcomes)[i]]
            0 <= i < outcomes.len() ==> spec_created_ids(outcomes)[i]
                == outcomes[i]->Created_volume_id,
    decreases outcomes.len(),
{
    if outcomes.len() > 0 {
        assert forall|i: int|
            0 <= i < outcomes.drop_last().len() implies #[trigger] outcomes.drop_last()[i] matches
            CreateOutcomeView::Created { .. } by {
            assert(outcomes.drop_last()[i] == outcomes[i]);
        }
        lemma_created_ids_all(outcomes.drop_last());
        assert(outcomes.last() matches CreateOutcomeView::Created { .. });
    }
}

/// The ids of `vols`, in order: what the availability wait is given.
pub fn volume_id_list(vols: &Vec<MaterializedVolume>) -> (r: Vec<String>)
    ensures
        r.deep_view().len() == vols.deep_view().len(),
        forall|i: int|
            #![trigger r.deep_view()[i]]
            0 <= i < vols.deep_view().len() ==> r.deep_view()[i] == vols.deep_view()[i].volume_id,
{
    let mut r: Vec<String> = Vec::new();
    let mut i: usize = 0;
    while i < vols.len()
        invariant
            0 <= i <= vols.len(),
            r.deep_view().len() == i,
            forall|j: int|
                #![trigger r.deep_view()[j]]
                0 <= j < i ==> r.deep_view()[j] == vols.deep_view()[j].volume_id,
        decreases vols.len() - i,
    {
        let ghost prev = r.deep_view();
        r.push(vols[i].volume_id.clone());
        proof {
            assert(r.deep_view() =~= prev.push(vols.deep_view()[i as int].volume_id));
        }
        i += 1;
    }
    r
}

} // verus!
