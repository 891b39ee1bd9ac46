//! The operator's command-line choices, as plain values.
//!
//! Argument parsing itself is the embedding program's business; it fills this
//! struct and hands it over.

use vstd::prelude::*;
use crate::lifecycle::Flags;

verus! {

/// What the operator asked for: which credentials profile and region to work
/// in, where to read the instance names, and the run switches.
pub struct Args {
    /// Credentials profile to use.
    pub profile: String,
    /// Path to the file that lists instance names, one per line.
    pub instance_file: String,
    /// Region to look for instances in.
    pub region: String,
    /// Without this switch the run makes no change to the environment.
    pub execute: bool,
    /// Start instances after restoring volumes.
    pub start_instances: bool,
    /// Stop instances before restoring volumes.
    pub stop_instances: bool,
}

impl Args {
    /// The run switches the lifecycle machine takes.
    pub fn flags(&self) -> (r: Flags)
        ensures
            r.execute == self.execute,
            r.stop == self.stop_instances,
            r.start == self.start_instances,
    {
        Flags { execute: self.execute, stop: self.stop_instances, start: self.start_instances }
    }
}

} // verus!
