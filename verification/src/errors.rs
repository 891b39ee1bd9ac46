//! The closed set of failures a restore can report.

use vstd::prelude::*;

verus! {

/// Spec-level mirror of [`RestoreError`], with every string abstracted to a
/// character sequence so that contracts can compare error contents exactly.
pub ghost enum RestoreErrorView {
    NotFound,
    NoCandidateSnapshot { device: Seq<char> },
    SelectionAborted { device: Seq<char> },
    UpstreamError { message: Seq<char> },
    PartialCreateFailure { succeeded_volume_ids: Seq<Seq<char>>, message: Seq<char> },
    VolumeNotAvailable { message: Seq<char> },
    DetachFailed { device: Seq<char>, volume_id: Seq<char>, message: Seq<char> },
    AttachFailed { device: Seq<char>, volume_id: Seq<char>, message: Seq<char> },
    CorrelationMissing { device: Seq<char> },
    WaitCancelled,
    Timeout,
}

/// Why a restore stopped, as a tagged variant carrying the device, volume and
/// message context a caller needs to resume by hand.
///
/// Plan-construction failures (`NotFound`, `NoCandidateSnapshot`,
/// `SelectionAborted`) occur before any mutating call and are safe to retry;
/// the remaining variants report a remote call that failed mid-run, after
/// which already-performed swaps are left in place.
#[derive(Debug)]
pub enum RestoreError {
    /// No instance matched the caller's criteria.
    NotFound,
    /// A device had zero completed snapshots of the right size.
    NoCandidateSnapshot { device: String },
    /// The operator declined to choose a snapshot for a device.
    SelectionAborted { device: String },
    /// A remote read or a start request failed.
    UpstreamError { message: String },
    /// Some create-volume requests failed; the listed volumes were created.
    PartialCreateFailure { succeeded_volume_ids: Vec<String>, message: String },
    /// Created volumes did not all reach the available state.
    VolumeNotAvailable { message: String },
    /// Detaching the original volume from a device failed.
    DetachFailed { device: String, volume_id: String, message: String },
    /// Attaching the replacement volume to a device failed.
    AttachFailed { device: String, volume_id: String, message: String },
    /// No created volume carried the tag of a device in the plan.
    CorrelationMissing { device: String },
    /// A wait for a remote state was cancelled before it resolved.
    WaitCancelled,
    /// A wait for a remote state exceeded its bound.
    Timeout,
}

impl DeepView for RestoreError {
    type V = RestoreErrorView;

    open spec fn deep_view(&self) -> RestoreErrorView {
        match self {
            RestoreError::NotFound => RestoreErrorView::NotFound,
            RestoreError::NoCandidateSnapshot { device } => RestoreErrorView::NoCandidateSnapshot {
                device: device.deep_view(),
            },
            RestoreError::SelectionAborted { device } => RestoreErrorView::SelectionAborted {
                device: device.deep_view(),
            },
            RestoreError::UpstreamError { message } => RestoreErrorView::UpstreamError {
                message: message.deep_view(),
            },
            RestoreError::PartialCreateFailure { succeeded_volume_ids, message } => {
                RestoreErrorView::PartialCreateFailure {
                    succeeded_volume_ids: succeeded_volume_ids.deep_view(),
                    message: message.deep_view(),
                }
            },
            RestoreError::VolumeNotAvailable { message } => RestoreErrorView::VolumeNotAvailable {
                message: message.deep_view(),
            },
            RestoreError::DetachFailed { device, volume_id, message } => {
                RestoreErrorView::DetachFailed {
                    device: device.deep_view(),
                    volume_id: volume_id.deep_view(),
                    message: message.deep_view(),
                }
            },
            RestoreError::AttachFailed { device, volume_id, message } => {
                RestoreErrorView::AttachFailed {
                    device: device.deep_view(),
                    volume_id: volume_id.deep_view(),
                    message: message.deep_view(),
                }
            },
            RestoreError::CorrelationMissing { device } => RestoreErrorView::CorrelationMissing {
                device: device.deep_view(),
            },
            RestoreError::WaitCancelled => RestoreErrorView::WaitCancelled,
            RestoreError::Timeout => RestoreErrorView::Timeout,
        }
    }
}

/// A failure report reduced to one human-readable message.
pub struct ApplicationError {
    message: String,
}

impl DeepView for ApplicationError {
    type V = Seq<char>;

    closed spec fn deep_view(&self) -> Seq<char> {
        self.message.deep_view()
    }
}

impl ApplicationError {
    /// Wraps a message as an error.
    pub fn new(message: String) -> (r: ApplicationError)
        ensures
            r.deep_view() == message@,
    {
        ApplicationError { message }
    }

    /// Builds an error whose message is `message`, a `": "` separator, and a
    /// rendering of `err`.
    ///
    /// Relies on the `format!` macro of std: `{}` of a `&str` is the string
    /// itself and literal text is copied verbatim, so the result begins with
    /// `message` followed by `": "`. What follows is `err`'s Debug rendering,
    /// which depends on `E`'s own impl and is left unstated.
    #[verifier::external_body]
    pub fn from_err<E: core::fmt::Debug>(message: &str, err: E) -> (r: ApplicationError)
        ensures
            r.deep_view().len() >= message@.len() + 2,
            r.deep_view().subrange(0, message@.len() as int) == message@,
            r.deep_view().subrange(message@.len() as int, message@.len() as int + 2) == ": "@,
    {
        ApplicationError { message: format!("{}: {:?}", message, err) }
    }

    /// The stored message.
    pub fn message(&self) -> (r: &String)
        ensures
            r@ == self.deep_view(),
    {
        &self.message
    }
}

} // verus!
