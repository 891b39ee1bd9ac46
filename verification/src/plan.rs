//! Building a restore plan: narrow the snapshot catalog to the candidates
//! compatible with each attached device, resolve the operator's selection,
//! and record one `(device, source volume, chosen snapshot)` entry per
//! device.

use vstd::prelude::*;
use crate::errors::{RestoreError, RestoreErrorView};
use crate::model::{Instance, InstanceView, Snapshot, SnapshotState, SnapshotView};

verus! {

/// A snapshot is compatible with a device of size `size` exactly when it is
/// completed and its size equals the device's volume size.
pub open spec fn is_candidate(s: SnapshotView, size: u64) -> bool {
    &&& s.state == SnapshotState::Completed
    &&& s.volume_size == size
}

/// The candidates among `snapshots` for a device of size `size`, in catalog
/// order.
pub open spec fn spec_candidates(snapshots: Seq<SnapshotView>, size: u64) -> Seq<SnapshotView> {
    snapshots.filter(|s: SnapshotView| is_candidate(s, size))
}

/// Filtering a sequence extended by one element keeps the filtered prefix and
/// appends the new element exactly when it passes the predicate.
proof fn lemma_filter_push<A>(s: Seq<A>, x: A, pred: spec_fn(A) -> bool)
    ensures
        s.push(x).filter(pred) == if pred(x) {
            s.filter(pred).push(x)
        } else {
            s.filter(pred)
        },
{
    reveal(Seq::filter);
    assert(s.push(x).drop_last() =~= s);
    assert(s.push(x).last() == x);
    if pred(x) {
        assert(s.push(x).filter(pred) =~= s.filter(pred).push(x));
    }
}

/// The candidate snapshots among `snapshots` for a device of size `size`:
/// exactly those that are completed and match the size, in catalog order.
pub fn candidates(snapshots: &Vec<Snapshot>, size: u64) -> (r: Vec<Snapshot>)
    ensures
        r.deep_view() == spec_candidates(snapshots.deep_view(), size),
{
    let ghost sv = snapshots.deep_view();
    let ghost pred = |s: SnapshotView| is_candidate(s, size);
    let mut r: Vec<Snapshot> = Vec::new();
    let mut i: usize = 0;
    while i < snapshots.len()
        invariant
            0 <= i <= snapshots.len(),
            sv == snapshots.deep_view(),
            pred == (|s: SnapshotView| is_candidate(s, size)),
            r.deep_view() == sv.subrange(0, i as int).filter(pred),
        decreases snapshots.len() - i,
    {
        let s = &snapshots[i];
        proof {
            assert(sv.subrange(0, i + 1 as int).drop_last() =~= sv.subrange(0, i as int));
            assert(sv.subrange(0, i + 1 as int) =~= sv.subrange(0, i as int).push(sv[i as int]));
            lemma_filter_push(sv.subrange(0, i as int), sv[i as int], pred);
        }
        if matches!(s.state, SnapshotState::Completed) && s.volume_size == size {
            let ghost prev = r.deep_view();
            r.push(s.clone());
            proof {
                assert(r.deep_view() =~= prev.push(sv[i as int]));
            }
        }
        i += 1;
    }
    proof {
        assert(sv.subrange(0, snapshots.deep_view().len() as int) =~= sv);
    }
    r
}

/// Every element of a filtered sequence comes from the sequence and passes
/// the predicate.
proof fn lemma_filter_implies_member<A>(s: Seq<A>, pred: spec_fn(A) -> bool, x: A)
    requires
        s.filter(pred).contains(x),
    ensures
        s.contains(x),
        pred(x),
    decreases s.len(),
{
    reveal(Seq::filter);
    broadcast use vstd::seq_lib::group_filter_ensures;

    if s.len() > 0 {
        let f = s.filter(pred);
        let rest = s.drop_last().filter(pred);
        let i: int = choose|i: int| 0 <= i < f.len() && f[i] == x;
        if pred(s.last()) && i == f.len() - 1 {
            assert(s[s.len() - 1] == x);
        } else {
            assert(rest[i] == x);
            assert(rest.contains(x));
            lemma_filter_implies_member(s.drop_last(), pred, x);
            let j: int = choose|j: int| 0 <= j < s.drop_last().len() && s.drop_last()[j] == x;
            assert(s[j] == x);
        }
    }
}

/// Candidate filtering is a pure membership test: a snapshot is in the
/// candidate sequence exactly when it is in the catalog and compatible.
pub proof fn lemma_candidates_membership(snapshots: Seq<SnapshotView>, size: u64, s: SnapshotView)
    ensures
        spec_candidates(snapshots, size).contains(s) <==> snapshots.contains(s) && is_candidate(
            s,
            size,
        ),
{
    broadcast use vstd::seq_lib::group_filter_ensures;

    let pred = |x: SnapshotView| is_candidate(x, size);
    if spec_candidates(snapshots, size).contains(s) {
        lemma_filter_implies_member(snapshots, pred, s);
    }
    if snapshots.contains(s) && is_candidate(s, size) {
        let i: int = choose|i: int| 0 <= i < snapshots.len() && snapshots[i] == s;
        assert(pred(snapshots[i]));
        assert(snapshots.filter(pred).contains(snapshots[i]));
    }
}

/// The order of the catalog does not affect the candidate set: two catalogs
/// holding the same snapshots yield the same candidates, as sets.
pub proof fn lemma_candidates_order_insensitive(
    s1: Seq<SnapshotView>,
    s2: Seq<SnapshotView>,
    size: u64,
)
    requires
        forall|s: SnapshotView| s1.contains(s) <==> s2.contains(s),
    ensures
        forall|s: SnapshotView|
            spec_candidates(s1, size).contains(s) <==> spec_candidates(s2, size).contains(s),
{
    assert forall|s: SnapshotView|
        spec_candidates(s1, size).contains(s) <==> spec_candidates(s2, size).contains(s) by {
        lemma_candidates_membership(s1, size, s);
        lemma_candidates_membership(s2, size, s);
    }
}

/// Spec-level mirror of [`PlanEntry`].
pub ghost struct PlanEntryView {
    pub device: Seq<char>,
    pub source_volume_id: Seq<char>,
    pub snapshot_id: Seq<char>,
}

/// One resolved device of a restore plan: the device name, the volume
/// currently attached there, and the snapshot chosen to replace it.
pub struct PlanEntry {
    pub device: String,
    pub source_volume_id: String,
    pub snapshot_id: String,
}

impl DeepView for PlanEntry {
    type V = PlanEntryView;

    open spec fn deep_view(&self) -> PlanEntryView {
        PlanEntryView {
            device: self.device.deep_view(),
            source_volume_id: self.source_volume_id.deep_view(),
            snapshot_id: self.snapshot_id.deep_view(),
        }
    }
}

/// The finalized device-to-snapshot mapping for one instance, in attachment
/// order. Immutable once built: the single source of truth for which new
/// volume replaces which device.
pub struct RestorePlan {
    pub entries: Vec<PlanEntry>,
}

impl DeepView for RestorePlan {
    type V = Seq<PlanEntryView>;

    open spec fn deep_view(&self) -> Seq<PlanEntryView> {
        self.entries.deep_view()
    }
}

/// A plan covers an instance exactly when it has one entry per attachment,
/// in attachment order, each naming that attachment's device and volume.
pub open spec fn plan_matches_instance(plan: Seq<PlanEntryView>, instance: InstanceView) -> bool {
    &&& plan.len() == instance.attachments.len()
    &&& forall|i: int|
        0 <= i < plan.len() ==> #[trigger] plan[i].device == instance.attachments[i].device
            && plan[i].source_volume_id == instance.attachments[i].volume_id
}

/// The selector, given exactly the candidate contents `cands`, admits the
/// answer `ret`: some candidate vector holding those snapshots satisfies the
/// selector's postcondition with that answer.
pub open spec fn selector_answered<F: Fn(&Vec<Snapshot>) -> Option<usize>>(
    select: F,
    cands: Seq<SnapshotView>,
    ret: Option<usize>,
) -> bool {
    exists|c: &Vec<Snapshot>| c.deep_view() == cands && #[trigger] call_ensures(select, (c,), ret)
}

/// Entry `entry` records the selector's own pick for a device of size
/// `size`: the selector admits answering some index `k` on that device's
/// candidates, and the entry's snapshot id is candidate `k`'s id.
pub open spec fn entry_is_selectors_pick<F: Fn(&Vec<Snapshot>) -> Option<usize>>(
    select: F,
    snapshots: Seq<SnapshotView>,
    size: u64,
    entry: PlanEntryView,
) -> bool {
    exists|k: usize|
        k < spec_candidates(snapshots, size).len() && #[trigger] selector_answered(
            select,
            spec_candidates(snapshots, size),
            Some(k),
        ) && entry.snapshot_id == spec_candidates(snapshots, size)[k as int].snapshot_id
}

/// Resolves one snapshot per attached device into a restore plan.
///
/// Per attachment, in attachment order: the catalog is narrowed to the
/// completed snapshots whose size equals the attachment's volume size; an
/// empty candidate set fails with `NoCandidateSnapshot` for that device
/// before any later device is considered; otherwise `select` is asked to
/// choose among the candidates, `None` meaning the operator aborted, which
/// fails with `SelectionAborted`. No partial plan is ever returned.
///
/// Both outcomes answer to the selector: a plan records, per device, an id
/// the selector itself picked among that device's candidates, and an abort
/// is reported only where the selector's postcondition admits `None` — a
/// selector that always picks forces a plan whenever every device has a
/// candidate.
pub fn build_plan<F: Fn(&Vec<Snapshot>) -> Option<usize>>(
    instance: &Instance,
    snapshots: &Vec<Snapshot>,
    select: F,
) -> (r: Result<RestorePlan, RestoreError>)
    requires
        forall|c: &Vec<Snapshot>| c.deep_view().len() > 0 ==> call_requires(select, (c,)),
        forall|c: &Vec<Snapshot>, ret: Option<usize>|
            call_ensures(select, (c,), ret) ==> (ret matches Some(k) ==> k < c@.len()),
    ensures
        ({
            let iv = instance.deep_view();
            let sv = snapshots.deep_view();
            match r {
                Ok(plan) => {
                    &&& plan_matches_instance(plan.deep_view(), iv)
                    &&& forall|i: int|
                        0 <= i < plan.deep_view().len() ==> entry_is_selectors_pick(
                            select,
                            sv,
                            iv.attachments[i].volume_size,
                            #[trigger] plan.deep_view()[i],
                        )
                },
                Err(e) => {
                    &&& match e.deep_view() {
                        RestoreErrorView::NoCandidateSnapshot { device } => exists|i: int|
                            0 <= i < iv.attachments.len() && #[trigger] iv.attachments[i].device
                                == device && spec_candidates(
                                sv,
                                iv.attachments[i].volume_size,
                            ).len() == 0 && (forall|j: int|
                                0 <= j < i ==> spec_candidates(
                                    sv,
                                    #[trigger] iv.attachments[j].volume_size,
                                ).len() > 0),
                        RestoreErrorView::SelectionAborted { device } => exists|i: int|
                            0 <= i < iv.attachments.len() && #[trigger] iv.attachments[i].device
                                == device && spec_candidates(
                                sv,
                                iv.attachments[i].volume_size,
                            ).len() > 0 && selector_answered(
                                select,
                                spec_candidates(sv, iv.attachments[i].volume_size),
                                None::<usize>,
                            ) && (forall|j: int|
                                0 <= j < i ==> spec_candidates(
                                    sv,
                                    #[trigger] iv.attachments[j].volume_size,
                                ).len() > 0),
                        _ => false,
                    }
                },
            }
        }),
        (exists|i: int|
            0 <= i < instance.deep_view().attachments.len() && spec_candidates(
                snapshots.deep_view(),
                #[trigger] instance.deep_view().attachments[i].volume_size,
            ).len() == 0) ==> !(r matches Ok(_)),
{
    let ghost iv = instance.deep_view();
    let ghost sv = snapshots.deep_view();
    let mut entries: Vec<PlanEntry> = Vec::new();
    let mut i: usize = 0;
    while i < instance.attachments.len()
        invariant
            0 <= i <= instance.attachments.len(),
            iv == instance.deep_view(),
            sv == snapshots.deep_view(),
            forall|c: &Vec<Snapshot>| c.deep_view().len() > 0 ==> call_requires(select, (c,)),
            forall|c: &Vec<Snapshot>, ret: Option<usize>|
                call_ensures(select, (c,), ret) ==> (ret matches Some(k) ==> k < c@.len()),
            entries.deep_view().len() == i,
            forall|j: int|
                0 <= j < i ==> #[trigger] entries.deep_view()[j].device == iv.attachments[j].device
                    && entries.deep_view()[j].source_volume_id == iv.attachments[j].volume_id,
            forall|j: int|
                0 <= j < i ==> entry_is_selectors_pick(
                    select,
                    sv,
                    iv.attachments[j].volume_size,
                    #[trigger] entries.deep_view()[j],
                ),
            forall|j: int|
                0 <= j < i ==> spec_candidates(
                    sv,
                    #[trigger] iv.attachments[j].volume_size,
                ).len() > 0,
        decreases instance.attachments.len() - i,
    {
        let attachment = &instance.attachments[i];
        let cands = candidates(snapshots, attachment.volume_size);
        if cands.len() == 0 {
            proof {
                assert(iv.attachments[i as int].device == attachment.device@);
                assert(spec_candidates(sv, iv.attachments[i as int].volume_size).len() == 0);
            }
            return Err(RestoreError::NoCandidateSnapshot { device: attachment.device.clone() });
        }
        let picked = select(&cands);
        match picked {
            None => {
                proof {
                    assert(iv.attachments[i as int].device == attachment.device@);
                    assert(spec_candidates(sv, iv.attachments[i as int].volume_size).len() > 0);
                    assert(cands.deep_view() == spec_candidates(
                        sv,
                        iv.attachments[i as int].volume_size,
                    ) && call_ensures(select, (&cands,), None::<usize>));
                }
                return Err(RestoreError::SelectionAborted { device: attachment.device.clone() });
            },
            Some(k) => {
                let chosen = &cands[k];
                let ghost prev = entries.deep_view();
                entries.push(
                    PlanEntry {
                        device: attachment.device.clone(),
                        source_volume_id: attachment.volume_id.clone(),
                        snapshot_id: chosen.snapshot_id.clone(),
                    },
                );
                proof {
                    assert(entries.deep_view() =~= prev.push(
                        PlanEntryView {
                            device: iv.attachments[i as int].device,
                            source_volume_id: iv.attachments[i as int].volume_id,
                            snapshot_id: cands.deep_view()[k as int].snapshot_id,
                        },
                    ));
                    let ghost cs = spec_candidates(sv, iv.attachments[i as int].volume_size);
                    assert(cands.deep_view() == cs && call_ensures(
                        select,
                        (&cands,),
                        Some(k),
                    ));
                    assert(selector_answered(select, cs, Some(k)));
                    assert(k < cs.len());
                    assert(entry_is_selectors_pick(
                        select,
                        sv,
                        iv.attachments[i as int].volume_size,
                        entries.deep_view()[i as int],
                    ));
                    assert forall|j: int|
                        0 <= j < i + 1 implies entry_is_selectors_pick(
                        select,
                        sv,
                        iv.attachments[j].volume_size,
                        #[trigger] entries.deep_view()[j],
                    ) by {
                        if j < i {
                            assert(entries.deep_view()[j] == prev[j]);
                            assert(entry_is_selectors_pick(
                                select,
                                sv,
                                iv.attachments[j].volume_size,
                                prev[j],
                            ));
                        }
                    }
                }
            },
        }
        i += 1;
    }
    Ok(RestorePlan { entries })
}



} // verus!
