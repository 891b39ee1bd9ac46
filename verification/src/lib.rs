//! Restore orchestration for block-storage volumes attached to compute
//! instances: plan which snapshot replaces each attached device, create the
//! replacement volumes, and swap them onto the instance in place of the
//! originals while the instance is stopped.
//!
//! The crate holds the decision logic only. Remote calls (describing
//! instances, creating volumes, detaching and attaching, stopping and
//! starting) are performed by the embedding program, which drives the
//! [`lifecycle::RestoreRun`] state machine: the machine says which call to
//! make next, the program reports how the call went.

pub mod args;
pub mod errors;
pub mod model;
pub mod plan;
pub mod materialize;
pub mod swap;
pub mod lifecycle;
