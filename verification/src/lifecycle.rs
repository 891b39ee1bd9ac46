//! The per-instance lifecycle state machine that sequences a restore:
//! optional stop, volume creation, the availability wait, the device-by-device
//! swap, and the optional start.
//!
//! The machine performs no remote call itself. The embedding program asks it
//! to [`RestoreRun::step`] with the latest [`Event`], performs the returned
//! [`Action`], and reports how it went with the next event; runs for distinct
//! instances are independent and may be driven concurrently. The whole
//! behaviour of `step` is the [`transition`] relation.

use vstd::prelude::*;
use crate::errors::RestoreError;
use crate::materialize::{
    CreateOutcome, CreateOutcomeView, CreateRequest, MaterializedVolume, collect_create_outcomes,
    is_materialization_of, lemma_created_ids_all, plan_create_requests, spec_created_ids,
    spec_requests_of_plan, volume_id_list,
};
use crate::model::{Instance, InstanceView};
use crate::plan::{RestorePlan, plan_matches_instance};
use crate::swap::{SwapStep, SwapStepView, swap_step_matches, lemma_correlation_integrity, swap_steps};

verus! {

/// The operator's switches: whether to mutate at all (`execute` unset is a
/// pure dry run), whether to stop the instance before the swap, and whether
/// to start it again afterwards.
#[derive(Clone, Copy, PartialEq, Eq, Structural, Debug)]
pub struct Flags {
    pub execute: bool,
    pub stop: bool,
    pub start: bool,
}

/// Where a run stands. `Done` and `Failed` are terminal.
#[derive(Clone, Copy, PartialEq, Eq, Structural, Debug)]
pub enum Stage {
    /// Constructed, nothing asked of the remote side yet.
    Idle,
    /// The stop was requested; awaiting the stopped state.
    Stopping,
    /// The create-volume requests were issued; awaiting their outcomes.
    Creating,
    /// All volumes created; awaiting their available state.
    AwaitingVolumes,
    /// The detach for the current swap step was requested.
    Detaching,
    /// The attach for the current swap step was requested.
    Attaching,
    /// The start was requested; awaiting the running state.
    Starting,
    /// The run ended without failure.
    Done,
    /// The run aborted; already-swapped devices stay swapped.
    Failed,
}

/// What the embedding program reports back: how the action it was last asked
/// to perform ended.
pub enum Event {
    /// Nothing performed yet; asks for the first action.
    Begin,
    /// The instance reached the stopped state.
    InstanceStopped,
    /// The stop request or its wait failed.
    StopFailed { message: String },
    /// Every create-volume request came back, each with its outcome, in
    /// request order.
    VolumesCreated { outcomes: Vec<CreateOutcome> },
    /// Every created volume reached the available state.
    VolumesAvailable,
    /// The availability wait failed.
    VolumeWaitFailed { message: String },
    /// The wait in flight was cancelled; the remote state is unknown.
    WaitCancelled,
    /// The wait in flight exceeded its bound.
    WaitTimedOut,
    /// The requested detach completed.
    VolumeDetached,
    /// The requested detach failed.
    DetachFailed { message: String },
    /// The requested attach completed.
    VolumeAttached,
    /// The requested attach failed.
    AttachFailed { message: String },
    /// The instance reached the running state.
    InstanceStarted,
    /// The start request or its wait failed.
    StartFailed { message: String },
}

/// What the machine asks the embedding program to do next. Every variant but
/// `Finished` stands for a mutating remote call or a wait on one.
pub enum Action {
    /// Stop the instance and wait until it is stopped.
    StopInstance { instance_id: String },
    /// Issue every create-volume request, in parallel, and collect all
    /// outcomes before reporting back.
    CreateVolumes { requests: Vec<CreateRequest> },
    /// Wait until every listed volume is available.
    AwaitVolumes { volume_ids: Vec<String> },
    /// Detach the volume from the device on the instance.
    DetachVolume { instance_id: String, device: String, volume_id: String },
    /// Attach the volume to the device on the instance.
    AttachVolume { instance_id: String, device: String, volume_id: String },
    /// Start the instance and wait until it is running.
    StartInstance { instance_id: String },
    /// The run is over; nothing remains to perform.
    Finished,
}

impl Action {
    /// Every action but `Finished` stands for a mutating remote call.
    pub open spec fn is_mutating(self) -> bool {
        !(self matches Action::Finished)
    }
}

/// One instance's restore run: the immutable inputs, the stage, and the
/// working state the stages hand along.
pub struct RestoreRun {
    /// The instance being restored; read-only.
    pub instance: Instance,
    /// The plan being executed; read-only.
    pub plan: RestorePlan,
    /// The operator's switches; read-only.
    pub flags: Flags,
    /// The created volumes, once `Creating` succeeded.
    pub volumes: Vec<MaterializedVolume>,
    /// The swap steps, once `AwaitingVolumes` succeeded.
    pub steps: Vec<SwapStep>,
    /// The swap step being performed in `Detaching` and `Attaching`.
    pub step_index: usize,
    /// Where the run stands.
    pub stage: Stage,
}

impl RestoreRun {
    /// What every stage maintains: the plan covers the well-formed instance;
    /// from `AwaitingVolumes` on, the volumes materialize the plan; during
    /// the swap, the steps are correct for the attachments and the current
    /// index is in range. Without `execute` the run never leaves `Idle`
    /// except straight to `Done`.
    pub open spec fn wf(self) -> bool {
        let iv = self.instance.deep_view();
        let pv = self.plan.deep_view();
        &&& iv.wf()
        &&& plan_matches_instance(pv, iv)
        &&& (!self.flags.execute ==> self.stage == Stage::Idle || self.stage == Stage::Done)
        &&& ((self.stage == Stage::AwaitingVolumes || self.stage == Stage::Detaching
            || self.stage == Stage::Attaching) ==> is_materialization_of(
            self.volumes.deep_view(),
            pv,
        ))
        &&& ((self.stage == Stage::Detaching || self.stage == Stage::Attaching) ==> {
            &&& self.steps.deep_view().len() == iv.attachments.len()
            &&& forall|i: int|
                0 <= i < iv.attachments.len() ==> #[trigger] swap_step_matches(
                    iv.attachments,
                    self.volumes.deep_view(),
                    self.steps.deep_view(),
                    i,
                )
            &&& self.step_index < self.steps.deep_view().len()
        })
    }

    /// The run takes no further event.
    pub open spec fn is_terminal(self) -> bool {
        self.stage == Stage::Done || self.stage == Stage::Failed
    }

    /// Which events answer the current stage: each stage accepts exactly the
    /// completions of the action it last issued; terminal stages accept
    /// nothing.
    pub open spec fn accepts(self, event: Event) -> bool {
        match self.stage {
            Stage::Idle => event matches Event::Begin,
            Stage::Stopping => event matches Event::InstanceStopped || event matches
                Event::StopFailed { .. } || event matches Event::WaitCancelled || event matches
                Event::WaitTimedOut,
            Stage::Creating => event matches Event::VolumesCreated { outcomes } && outcomes.deep_view().len()
                == self.plan.deep_view().len(),
            Stage::AwaitingVolumes => event matches Event::VolumesAvailable || event matches
                Event::VolumeWaitFailed { .. } || event matches Event::WaitCancelled
                || event matches Event::WaitTimedOut,
            Stage::Detaching => event matches Event::VolumeDetached || event matches
                Event::DetachFailed { .. },
            Stage::Attaching => event matches Event::VolumeAttached || event matches
                Event::AttachFailed { .. },
            Stage::Starting => event matches Event::InstanceStarted || event matches
                Event::StartFailed { .. } || event matches Event::WaitCancelled || event matches
                Event::WaitTimedOut,
            Stage::Done => false,
            Stage::Failed => false,
        }
    }

    /// A fresh run for one instance, standing at `Idle`.
    pub fn new(instance: Instance, plan: RestorePlan, flags: Flags) -> (r: RestoreRun)
        requires
            instance.deep_view().wf(),
            plan_matches_instance(plan.deep_view(), instance.deep_view()),
        ensures
            r.wf(),
            r.stage == Stage::Idle,
            r.instance == instance,
            r.plan == plan,
            r.flags == flags,
            r.volumes@.len() == 0,
            r.steps@.len() == 0,
            r.step_index == 0,
    {
        RestoreRun {
            instance,
            plan,
            flags,
            volumes: Vec::new(),
            steps: Vec::new(),
            step_index: 0,
            stage: Stage::Idle,
        }
    }

    /// Feeds the machine one event and takes the next action, or the error
    /// that ends the run. The whole behaviour is the [`transition`] relation.
    pub fn step(&mut self, event: Event) -> (r: Result<Action, RestoreError>)
        requires
            old(self).wf(),
            old(self).accepts(event),
        ensures
            final(self).wf(),
            transition(*old(self), event, *final(self), r),
            r matches Err(_) ==> final(self).stage == Stage::Failed,
            (r matches Ok(a) && a.is_mutating()) ==> old(self).flags.execute,
            !old(self).flags.execute ==> (r matches Ok(Action::Finished) && final(self).stage
                == Stage::Done),
    {
        let ghost iv = self.instance.deep_view();
        let ghost pv = self.plan.deep_view();
        match self.stage {
            Stage::Idle => {
                if !self.flags.execute {
                    self.stage = Stage::Done;
                    Ok(Action::Finished)
                } else if self.flags.stop {
                    self.stage = Stage::Stopping;
                    Ok(Action::StopInstance { instance_id: self.instance.instance_id.clone() })
                } else {
                    self.stage = Stage::Creating;
                    Ok(Action::CreateVolumes { requests: plan_create_requests(&self.plan) })
                }
            },
            Stage::Stopping => {
                match event {
                    Event::InstanceStopped => {
                        self.stage = Stage::Creating;
                        Ok(Action::CreateVolumes { requests: plan_create_requests(&self.plan) })
                    },
                    Event::StopFailed { message } => {
                        self.stage = Stage::Failed;
                        Err(RestoreError::UpstreamError { message })
                    },
                    Event::WaitCancelled => {
                        self.stage = Stage::Failed;
                        Err(RestoreError::WaitCancelled)
                    },
                    Event::WaitTimedOut => {
                        self.stage = Stage::Failed;
                        Err(RestoreError::Timeout)
                    },
                    _ => unreached(),
                }
            },
            Stage::Creating => {
                match event {
                    Event::VolumesCreated { outcomes } => {
                        match collect_create_outcomes(&self.plan, &outcomes) {
                            Ok(vols) => {
                                self.volumes = vols;
                                self.stage = Stage::AwaitingVolumes;
                                let ids = volume_id_list(&self.volumes);
                                proof {
                                    lemma_created_ids_all(outcomes.deep_view());
                                    assert(ids.deep_view() =~= spec_created_ids(
                                        outcomes.deep_view(),
                                    ));
                                }
                                Ok(Action::AwaitVolumes { volume_ids: ids })
                            },
                            Err(e) => {
                                self.stage = Stage::Failed;
                                Err(e)
                            },
                        }
                    },
                    _ => unreached(),
                }
            },
            Stage::AwaitingVolumes => {
                match event {
                    Event::VolumesAvailable => {
                        proof {
                            lemma_correlation_integrity(iv, pv, self.volumes.deep_view());
                        }
                        match swap_steps(&self.instance, &self.volumes) {
                            Ok(steps) => {
                                if steps.len() == 0 {
                                    self.steps = steps;
                                    self.step_index = 0;
                                    if self.flags.start {
                                        self.stage = Stage::Starting;
                                        Ok(
                                            Action::StartInstance {
                                                instance_id: self.instance.instance_id.clone(),
                                            },
                                        )
                                    } else {
                                        self.stage = Stage::Done;
                                        Ok(Action::Finished)
                                    }
                                } else {
                                    let device = steps[0].device.clone();
                                    let volume_id = steps[0].detach_volume_id.clone();
                                    self.steps = steps;
                                    self.step_index = 0;
                                    self.stage = Stage::Detaching;
                                    proof {
                                        assert(swap_step_matches(
                                            iv.attachments,
                                            self.volumes.deep_view(),
                                            self.steps.deep_view(),
                                            0,
                                        ));
                                    }
                                    Ok(
                                        Action::DetachVolume {
                                            instance_id: self.instance.instance_id.clone(),
                                            device,
                                            volume_id,
                                        },
                                    )
                                }
                            },
                            Err(_) => unreached(),
                        }
                    },
                    Event::VolumeWaitFailed { message } => {
                        self.stage = Stage::Failed;
                        Err(RestoreError::VolumeNotAvailable { message })
                    },
                    Event::WaitCancelled => {
                        self.stage = Stage::Failed;
                        Err(RestoreError::WaitCancelled)
                    },
                    Event::WaitTimedOut => {
                        self.stage = Stage::Failed;
                        Err(RestoreError::Timeout)
                    },
                    _ => unreached(),
                }
            },
            Stage::Detaching => {
                match event {
                    Event::VolumeDetached => {
                        self.stage = Stage::Attaching;
                        proof {
                            assert(swap_step_matches(
                                iv.attachments,
                                self.volumes.deep_view(),
                                self.steps.deep_view(),
                                self.step_index as int,
                            ));
                        }
                        let step = &self.steps[self.step_index];
                        Ok(
                            Action::AttachVolume {
                                instance_id: self.instance.instance_id.clone(),
                                device: step.device.clone(),
                                volume_id: step.attach_volume_id.clone(),
                            },
                        )
                    },
                    Event::DetachFailed { message } => {
                        proof {
                            assert(swap_step_matches(
                                iv.attachments,
                                self.volumes.deep_view(),
                                self.steps.deep_view(),
                                self.step_index as int,
                            ));
                        }
                        let step = &self.steps[self.step_index];
                        let device = step.device.clone();
                        let volume_id = step.detach_volume_id.clone();
                        self.stage = Stage::Failed;
                        Err(RestoreError::DetachFailed { device, volume_id, message })
                    },
                    _ => unreached(),
                }
            },
            Stage::Attaching => {
                match event {
                    Event::VolumeAttached => {
                        let last: usize = self.steps.len() - 1;
                        if self.step_index < last {
                            self.step_index = self.step_index + 1;
                            self.stage = Stage::Detaching;
                            proof {
                                assert(swap_step_matches(
                                    iv.attachments,
                                    self.volumes.deep_view(),
                                    self.steps.deep_view(),
                                    self.step_index as int,
                                ));
                            }
                            let step = &self.steps[self.step_index];
                            Ok(
                                Action::DetachVolume {
                                    instance_id: self.instance.instance_id.clone(),
                                    device: step.device.clone(),
                                    volume_id: step.detach_volume_id.clone(),
                                },
                            )
                        } else {
                            if self.flags.start {
                                self.stage = Stage::Starting;
                                Ok(
                                    Action::StartInstance {
                                        instance_id: self.instance.instance_id.clone(),
                                    },
                                )
                            } else {
                                self.stage = Stage::Done;
                                Ok(Action::Finished)
                            }
                        }
                    },
                    Event::AttachFailed { message } => {
                        proof {
                            assert(swap_step_matches(
                                iv.attachments,
                                self.volumes.deep_view(),
                                self.steps.deep_view(),
                                self.step_index as int,
                            ));
                        }
                        let step = &self.steps[self.step_index];
                        let device = step.device.clone();
                        let volume_id = step.attach_volume_id.clone();
                        self.stage = Stage::Failed;
                        Err(RestoreError::AttachFailed { device, volume_id, message })
                    },
                    _ => unreached(),
                }
            },
            Stage::Starting => {
                match event {
                    Event::InstanceStarted => {
                        self.stage = Stage::Done;
                        Ok(Action::Finished)
                    },
                    Event::StartFailed { message } => {
                        self.stage = Stage::Failed;
                        Err(RestoreError::UpstreamError { message })
                    },
                    Event::WaitCancelled => {
                        self.stage = Stage::Failed;
                        Err(RestoreError::WaitCancelled)
                    },
                    Event::WaitTimedOut => {
                        self.stage = Stage::Failed;
                        Err(RestoreError::Timeout)
                    },
                    _ => unreached(),
                }
            },
            Stage::Done => unreached(),
            Stage::Failed => unreached(),
        }
    }
}

/// The machine's working state other than the stage is unchanged.
pub open spec fn frames_work(pre: RestoreRun, post: RestoreRun) -> bool {
    &&& post.volumes == pre.volumes
    &&& post.steps == pre.steps
    &&& post.step_index == pre.step_index
}

/// The action asks to detach, from the instance, the original volume of
/// attachment `idx`, at that attachment's device.
pub open spec fn is_detach_action(a: Action, iv: InstanceView, idx: int) -> bool {
    a matches Action::DetachVolume { instance_id, device, volume_id }
        && instance_id@ == iv.instance_id && device@ == iv.attachments[idx].device && volume_id@
        == iv.attachments[idx].volume_id
}

/// The action asks to attach, on the instance, the replacement volume of
/// swap step `idx`, at the device of attachment `idx`.
pub open spec fn is_attach_action(
    a: Action,
    iv: InstanceView,
    steps: Seq<SwapStepView>,
    idx: int,
) -> bool {
    a matches Action::AttachVolume { instance_id, device, volume_id }
        && instance_id@ == iv.instance_id && device@ == iv.attachments[idx].device && volume_id@
        == steps[idx].attach_volume_id
}

/// The swap is over: the run wraps up with a start when asked for one,
/// otherwise it is done.
pub open spec fn wrapup(pre: RestoreRun, post: RestoreRun, r: Result<
    Action,
    RestoreError,
>) -> bool {
    if pre.flags.start {
        &&& post.stage == Stage::Starting
        &&& r matches Ok(a) && (a matches Action::StartInstance { instance_id } && instance_id@
            == pre.instance.deep_view().instance_id)
    } else {
        &&& post.stage == Stage::Done
        &&& r matches Ok(Action::Finished)
    }
}

/// The step relation of the machine: given the stage the run stood at and
/// the event reported, what the run becomes and what it answers. The inputs
/// (instance, plan, flags) never change.
pub open spec fn transition(
    pre: RestoreRun,
    event: Event,
    post: RestoreRun,
    r: Result<Action, RestoreError>,
) -> bool {
    let iv = pre.instance.deep_view();
    let pv = pre.plan.deep_view();
    &&& post.instance == pre.instance
    &&& post.plan == pre.plan
    &&& post.flags == pre.flags
    &&& match pre.stage {
        Stage::Idle => {
            &&& frames_work(pre, post)
            &&& if !pre.flags.execute {
                &&& post.stage == Stage::Done
                &&& r matches Ok(Action::Finished)
            } else if pre.flags.stop {
                &&& post.stage == Stage::Stopping
                &&& r matches Ok(a) && (a matches Action::StopInstance { instance_id }
                    && instance_id@ == iv.instance_id)
            } else {
                &&& post.stage == Stage::Creating
                &&& r matches Ok(a) && (a matches Action::CreateVolumes { requests }
                    && requests.deep_view() == spec_requests_of_plan(pv))
            }
        },
        Stage::Stopping => {
            &&& frames_work(pre, post)
            &&& match event {
                Event::InstanceStopped => {
                    &&& post.stage == Stage::Creating
                    &&& r matches Ok(a) && (a matches Action::CreateVolumes { requests }
                        && requests.deep_view() == spec_requests_of_plan(pv))
                },
                Event::StopFailed { message } => {
                    &&& post.stage == Stage::Failed
                    &&& r matches Err(e) && (e matches RestoreError::UpstreamError { message: m }
                        && m@ == message@)
                },
                Event::WaitCancelled => {
                    &&& post.stage == Stage::Failed
                    &&& r matches Err(RestoreError::WaitCancelled)
                },
                Event::WaitTimedOut => {
                    &&& post.stage == Stage::Failed
                    &&& r matches Err(RestoreError::Timeout)
                },
                _ => false,
            }
        },
        Stage::Creating => {
            &&& post.steps == pre.steps
            &&& post.step_index == pre.step_index
            &&& match event {
                Event::VolumesCreated { outcomes } => {
                    let ov = outcomes.deep_view();
                    if forall|i: int|
                        0 <= i < ov.len() ==> #[trigger] ov[i] matches CreateOutcomeView::Created {
                            ..
                        } {
                        &&& post.stage == Stage::AwaitingVolumes
                        &&& is_materialization_of(post.volumes.deep_view(), pv)
                        &&& post.volumes.deep_view().len() == ov.len()
                        &&& forall|i: int|
                            #![trigger post.volumes.deep_view()[i]]
                            0 <= i < ov.len() ==> post.volumes.deep_view()[i].volume_id
                                == ov[i]->Created_volume_id
                        &&& r matches Ok(a) && (a matches Action::AwaitVolumes { volume_ids }
                            && volume_ids.deep_view() == spec_created_ids(ov))
                    } else {
                        &&& post.stage == Stage::Failed
                        &&& post.volumes == pre.volumes
                        &&& r matches Err(e) && (e matches RestoreError::PartialCreateFailure {
                            succeeded_volume_ids,
                            message,
                        } && succeeded_volume_ids.deep_view() == spec_created_ids(ov) && (exists|
                            k: int,
                        |
                            0 <= k < ov.len() && (#[trigger] ov[k] matches
                                CreateOutcomeView::Failed { message: m } && m == message@) && (
                            forall|j: int|
                                0 <= j < k ==> #[trigger] ov[j] matches CreateOutcomeView::Created {
                                    ..
                                })))
                    }
                },
                _ => false,
            }
        },
        Stage::AwaitingVolumes => {
            &&& post.volumes == pre.volumes
            &&& match event {
                Event::VolumesAvailable => {
                    &&& post.steps.deep_view().len() == iv.attachments.len()
                    &&& forall|i: int|
                        0 <= i < iv.attachments.len() ==> #[trigger] swap_step_matches(
                            iv.attachments,
                            pre.volumes.deep_view(),
                            post.steps.deep_view(),
                            i,
                        )
                    &&& post.step_index == 0
                    &&& if iv.attachments.len() == 0 {
                        wrapup(pre, post, r)
                    } else {
                        &&& post.stage == Stage::Detaching
                        &&& r matches Ok(a) && is_detach_action(a, iv, 0)
                    }
                },
                Event::VolumeWaitFailed { message } => {
                    &&& post.stage == Stage::Failed
                    &&& post.steps == pre.steps
                    &&& post.step_index == pre.step_index
                    &&& r matches Err(e) && (e matches RestoreError::VolumeNotAvailable {
                        message: m,
                    } && m@ == message@)
                },
                Event::WaitCancelled => {
                    &&& post.stage == Stage::Failed
                    &&& post.steps == pre.steps
                    &&& post.step_index == pre.step_index
                    &&& r matches Err(RestoreError::WaitCancelled)
                },
                Event::WaitTimedOut => {
                    &&& post.stage == Stage::Failed
                    &&& post.steps == pre.steps
                    &&& post.step_index == pre.step_index
                    &&& r matches Err(RestoreError::Timeout)
                },
                _ => false,
            }
        },
        Stage::Detaching => {
            &&& frames_work(pre, post)
            &&& match event {
                Event::VolumeDetached => {
                    &&& post.stage == Stage::Attaching
                    &&& r matches Ok(a) && is_attach_action(
                        a,
                        iv,
                        pre.steps.deep_view(),
                        pre.step_index as int,
                    )
                },
                Event::DetachFailed { message } => {
                    &&& post.stage == Stage::Failed
                    &&& r matches Err(e) && (e matches RestoreError::DetachFailed {
                        device,
                        volume_id,
                        message: m,
                    } && device@ == iv.attachments[pre.step_index as int].device && volume_id@
                        == iv.attachments[pre.step_index as int].volume_id && m@ == message@)
                },
                _ => false,
            }
        },
        Stage::Attaching => {
            &&& post.volumes == pre.volumes
            &&& post.steps == pre.steps
            &&& match event {
                Event::VolumeAttached => {
                    if pre.step_index + 1 < pre.steps.deep_view().len() {
                        &&& post.stage == Stage::Detaching
                        &&& post.step_index == pre.step_index + 1
                        &&& r matches Ok(a) && is_detach_action(a, iv, pre.step_index + 1 as int)
                    } else {
                        &&& post.step_index == pre.step_index
                        &&& wrapup(pre, post, r)
                    }
                },
                Event::AttachFailed { message } => {
                    &&& post.stage == Stage::Failed
                    &&& post.step_index == pre.step_index
                    &&& r matches Err(e) && (e matches RestoreError::AttachFailed {
                        device,
                        volume_id,
                        message: m,
                    } && device@ == iv.attachments[pre.step_index as int].device && volume_id@
                        == pre.steps.deep_view()[pre.step_index as int].attach_volume_id && m@
                        == message@)
                },
                _ => false,
            }
        },
        Stage::Starting => {
            &&& frames_work(pre, post)
            &&& match event {
                Event::InstanceStarted => {
                    &&& post.stage == Stage::Done
                    &&& r matches Ok(Action::Finished)
                },
                Event::StartFailed { message } => {
                    &&& post.stage == Stage::Failed
                    &&& r matches Err(e) && (e matches RestoreError::UpstreamError { message: m }
                        && m@ == message@)
                },
                Event::WaitCancelled => {
                    &&& post.stage == Stage::Failed
                    &&& r matches Err(RestoreError::WaitCancelled)
                },
                Event::WaitTimedOut => {
                    &&& post.stage == Stage::Failed
                    &&& r matches Err(RestoreError::Timeout)
                },
                _ => false,
            }
        },
        Stage::Done => false,
        Stage::Failed => false,
    }
}

/// Dry run: with `execute` unset, the only step a run ever takes is from
/// `Idle` straight to `Done` with nothing to perform — no mutating action is
/// ever issued, whatever the other flags say.
pub proof fn lemma_dry_run_is_pure(
    pre: RestoreRun,
    event: Event,
    post: RestoreRun,
    r: Result<Action, RestoreError>,
)
    requires
        pre.wf(),
        pre.accepts(event),
        transition(pre, event, post, r),
        !pre.flags.execute,
    ensures
        r matches Ok(Action::Finished),
        post.stage == Stage::Done,
{
    assert(pre.stage == Stage::Idle);
}

/// Every mutating action is issued under the `execute` flag: a run that was
/// not asked to execute performs nothing.
pub proof fn lemma_mutation_needs_execute(
    pre: RestoreRun,
    event: Event,
    post: RestoreRun,
    r: Result<Action, RestoreError>,
    a: Action,
)
    requires
        pre.wf(),
        pre.accepts(event),
        transition(pre, event, post, r),
        r == Ok::<Action, RestoreError>(a),
        a.is_mutating(),
    ensures
        pre.flags.execute,
{
    if !pre.flags.execute {
        assert(pre.stage == Stage::Idle);
    }
}

/// Fan-out atomicity: when any create-volume request fails, the step reports
/// `PartialCreateFailure` with the ids that were created, the run is failed,
/// and no further event is accepted — in particular no detach or attach is
/// ever asked for.
pub proof fn lemma_fanout_atomicity(
    pre: RestoreRun,
    event: Event,
    post: RestoreRun,
    r: Result<Action, RestoreError>,
    k: int,
)
    requires
        pre.wf(),
        pre.accepts(event),
        transition(pre, event, post, r),
        pre.stage == Stage::Creating,
        event matches Event::VolumesCreated { outcomes } && 0 <= k
            < outcomes.deep_view().len() && outcomes.deep_view()[k] matches
            CreateOutcomeView::Failed { .. },
    ensures
        r matches Err(e) && e matches RestoreError::PartialCreateFailure { .. },
        post.stage == Stage::Failed,
        forall|later: Event| !post.accepts(later),
{
}

/// How far along its phases a run stands; the swap phases share a rank and
/// progress by step instead.
pub open spec fn stage_rank(s: Stage) -> int {
    match s {
        Stage::Idle => 0,
        Stage::Stopping => 1,
        Stage::Creating => 2,
        Stage::AwaitingVolumes => 3,
        Stage::Detaching => 4,
        Stage::Attaching => 4,
        Stage::Starting => 5,
        Stage::Done => 6,
        Stage::Failed => 6,
    }
}

/// How far along the swap a run stands: each detach/attach pair advances by
/// two, the attach half by one more.
pub open spec fn swap_progress(run: RestoreRun) -> int {
    2 * run.step_index + if run.stage == Stage::Attaching {
        1int
    } else {
        0int
    }
}

/// A run only moves forward: no step returns to an earlier phase, and
/// within the swap phase every step advances the detach/attach progression.
/// The strict sequence stop, create, await, swap, start of one instance
/// follows: an action of an earlier phase is never issued after one of a
/// later phase.
pub proof fn lemma_run_never_goes_back(
    pre: RestoreRun,
    event: Event,
    post: RestoreRun,
    r: Result<Action, RestoreError>,
)
    requires
        pre.wf(),
        pre.accepts(event),
        transition(pre, event, post, r),
    ensures
        stage_rank(post.stage) >= stage_rank(pre.stage),
        stage_rank(post.stage) == stage_rank(pre.stage) ==> swap_progress(post) > swap_progress(
            pre,
        ),
{
}

/// A start is only ever asked for once the instance's own swap is complete:
/// either there was no device to swap, or the last attach has just been
/// reported done.
pub proof fn lemma_start_only_after_swap(
    pre: RestoreRun,
    event: Event,
    post: RestoreRun,
    r: Result<Action, RestoreError>,
)
    requires
        pre.wf(),
        pre.accepts(event),
        transition(pre, event, post, r),
        r matches Ok(a) && a matches Action::StartInstance { .. },
    ensures
        pre.flags.execute,
        pre.flags.start,
        (pre.stage == Stage::AwaitingVolumes && pre.instance.deep_view().attachments.len() == 0)
            || (pre.stage == Stage::Attaching && pre.step_index + 1
            == pre.steps.deep_view().len()),
{
    if !pre.flags.execute {
        assert(pre.stage == Stage::Idle);
    }
}

} // verus!
