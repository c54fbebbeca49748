//! Configuration of the initialization procedure.
//!
//! Historical deployments of this tool differed in which steps they ran and
//! in how an already-present state directory was treated.  Those variants are
//! collapsed into one procedure parameterized by [`InitOptions`]: each flag
//! enables one optional step, and [`ExistingDirPolicy`] fixes the
//! already-exists policy explicitly instead of leaving it implicit.

use vstd::prelude::*;

verus! {

/// Policy for a state directory that already exists when the procedure runs.
#[derive(Clone, Copy, Debug, PartialEq, Eq, Structural)]
pub enum ExistingDirPolicy {
    /// Treat an existing directory as success and continue with later steps.
    Idempotent,
    /// Reject an existing directory with an already-exists error and abort.
    Strict,
}

/// The explicit shape of one initialization run.
#[derive(Clone, Copy, Debug, PartialEq, Eq, Structural)]
pub struct InitOptions {
    /// Initialize a version-control repository inside the state directory.
    pub initialize_repository: bool,
    /// Seed the default configuration file if it is absent.
    pub seed_config: bool,
    /// Offer the invocation-time working directory to the operator's shell.
    pub export_environment: bool,
    /// How to treat a pre-existing state directory.
    pub existing_directory_policy: ExistingDirPolicy,
}

impl InitOptions {
    /// The richest variant: every optional step enabled, existing directories
    /// tolerated.
    pub fn full() -> (r: InitOptions)
        ensures
            r.initialize_repository,
            r.seed_config,
            r.export_environment,
            r.existing_directory_policy is Idempotent,
    {
        InitOptions {
            initialize_repository: true,
            seed_config: true,
            export_environment: true,
            existing_directory_policy: ExistingDirPolicy::Idempotent,
        }
    }
}

} // verus!
