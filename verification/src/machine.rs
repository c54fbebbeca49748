//! The initialization procedure as a step machine.
//!
//! The procedure is a short linear sequence of filesystem operations, each of
//! which can fail.  [`Machine`] holds the decisions of that sequence: it says
//! which operation to attempt next ([`Action`]) and, told how the operation
//! went ([`Event`]), moves to the next phase.  The caller performs the actual
//! filesystem and repository work and reports back; every decision in between
//! is verified here.
//!
//! The step order is fixed: directory creation, then optional repository
//! initialization (with rollback of a freshly created directory on failure),
//! then optional configuration seeding.

use vstd::prelude::*;

use crate::options::ExistingDirPolicy;
use crate::options::InitOptions;

verus! {

/// Classification of a fatal failure of the procedure.
#[derive(Clone, Copy, Debug, PartialEq, Eq, Structural)]
pub enum InitError {
    /// The state directory already exists and the policy is strict.
    AlreadyExists,
    /// The state-directory path is occupied by something that is not a
    /// directory.  Never auto-resolved.
    NotADirectory,
    /// Creating the state directory failed with an I/O error.
    DirIo,
    /// Initializing the repository failed.
    RepoInit,
    /// Writing the configuration file failed with an I/O error.
    ConfigIo,
}

/// An operation the caller must perform on behalf of the machine.
#[derive(Clone, Copy, Debug, PartialEq, Eq, Structural)]
pub enum Action {
    /// Attempt to create the state directory.
    CreateDir,
    /// Initialize a repository rooted at the state directory.
    InitRepo,
    /// Recursively delete the state directory (rollback).
    RemoveDir,
    /// Check whether the configuration file exists.
    ProbeConfig,
    /// Write the default configuration template.
    WriteConfig,
}

/// The observed outcome of a performed [`Action`].
#[derive(Clone, Copy, Debug, PartialEq, Eq, Structural)]
pub enum Event {
    /// `CreateDir`: the directory was created.
    Created,
    /// `CreateDir`: a directory already occupies the path.
    FoundDir,
    /// `CreateDir`: a non-directory occupies the path.
    FoundNonDir,
    /// `CreateDir`: creation failed with an I/O error.
    IoError,
    /// `InitRepo`: the repository was initialized.
    RepoOk,
    /// `InitRepo`: repository initialization failed.
    RepoFailed,
    /// `RemoveDir`: the directory was deleted.
    Removed,
    /// `RemoveDir`: the delete failed; the operator must clean up by hand.
    RemoveFailed,
    /// `ProbeConfig`: the configuration file already exists.
    ConfigPresent,
    /// `ProbeConfig`: no configuration file exists yet.
    ConfigAbsent,
    /// `WriteConfig`: the template was written.
    Written,
    /// `WriteConfig`: the write failed with an I/O error.
    WriteFailed,
}

/// Where the procedure stands.  The `Await` phases each wait for the outcome
/// of one [`Action`]; `Done` and `Failed` are terminal.
///
/// The `created` field records whether this run created the state directory
/// itself, which decides whether a repository failure rolls the directory
/// back.
#[derive(Clone, Copy, Debug, PartialEq, Eq, Structural)]
pub enum Phase {
    /// Waiting for the outcome of `CreateDir`.
    AwaitDir,
    /// Waiting for the outcome of `InitRepo`.
    AwaitRepo { created: bool },
    /// Repository initialization failed after this run created the
    /// directory; waiting for the outcome of the rollback `RemoveDir`.
    AwaitRemove,
    /// Waiting for the outcome of `ProbeConfig`.
    AwaitProbe { created: bool },
    /// Waiting for the outcome of `WriteConfig`.
    AwaitWrite { created: bool },
    /// The procedure succeeded.
    Done {
        /// This run created the state directory (as opposed to finding it).
        created: bool,
        /// The configuration file was already present and was left alone.
        config_existed: bool,
        /// This run wrote the default configuration template.
        wrote_config: bool,
    },
    /// The procedure failed.
    Failed {
        /// What failed.
        error: InitError,
        /// The rollback delete failed too: the state directory could not be
        /// removed and the operator must delete it by hand.
        cleanup_warning: bool,
    },
}

/// Phase after the state directory is known to be ready: repository
/// initialization if configured, otherwise straight on.
pub open spec fn spec_after_dir(opts: InitOptions, created: bool) -> Phase {
    if opts.initialize_repository {
        Phase::AwaitRepo { created }
    } else {
        spec_after_repo(opts, created)
    }
}

/// Phase after the repository step (or with that step disabled):
/// configuration seeding if configured, otherwise done.
pub open spec fn spec_after_repo(opts: InitOptions, created: bool) -> Phase {
    if opts.seed_config {
        Phase::AwaitProbe { created }
    } else {
        Phase::Done { created, config_existed: false, wrote_config: false }
    }
}

/// The transition relation of the procedure.  An event that does not answer
/// the phase's pending action leaves the phase unchanged.
pub open spec fn spec_step(opts: InitOptions, p: Phase, ev: Event) -> Phase {
    match (p, ev) {
        (Phase::AwaitDir, Event::Created) => spec_after_dir(opts, true),
        (Phase::AwaitDir, Event::FoundDir) => if opts.existing_directory_policy
            is Idempotent {
            spec_after_dir(opts, false)
        } else {
            Phase::Failed { error: InitError::AlreadyExists, cleanup_warning: false }
        },
        (Phase::AwaitDir, Event::FoundNonDir) => Phase::Failed {
            error: InitError::NotADirectory,
            cleanup_warning: false,
        },
        (Phase::AwaitDir, Event::IoError) => Phase::Failed {
            error: InitError::DirIo,
            cleanup_warning: false,
        },
        (Phase::AwaitRepo { created }, Event::RepoOk) => spec_after_repo(opts, created),
        (Phase::AwaitRepo { created }, Event::RepoFailed) => if created {
            Phase::AwaitRemove
        } else {
            Phase::Failed { error: InitError::RepoInit, cleanup_warning: false }
        },
        (Phase::AwaitRemove, Event::Removed) => Phase::Failed {
            error: InitError::RepoInit,
            cleanup_warning: false,
        },
        (Phase::AwaitRemove, Event::RemoveFailed) => Phase::Failed {
            error: InitError::RepoInit,
            cleanup_warning: true,
        },
        (Phase::AwaitProbe { created }, Event::ConfigPresent) => Phase::Done {
            created,
            config_existed: true,
            wrote_config: false,
        },
        (Phase::AwaitProbe { created }, Event::ConfigAbsent) => Phase::AwaitWrite { created },
        (Phase::AwaitWrite { created }, Event::Written) => Phase::Done {
            created,
            config_existed: false,
            wrote_config: true,
        },
        (Phase::AwaitWrite { created }, Event::WriteFailed) => Phase::Failed {
            error: InitError::ConfigIo,
            cleanup_warning: false,
        },
        (other, _) => other,
    }
}

/// The operation each phase waits for; terminal phases wait for nothing.
pub open spec fn spec_next_action(p: Phase) -> Option<Action> {
    match p {
        Phase::AwaitDir => Some(Action::CreateDir),
        Phase::AwaitRepo { .. } => Some(Action::InitRepo),
        Phase::AwaitRemove => Some(Action::RemoveDir),
        Phase::AwaitProbe { .. } => Some(Action::ProbeConfig),
        Phase::AwaitWrite { .. } => Some(Action::WriteConfig),
        Phase::Done { .. } => None,
        Phase::Failed { .. } => None,
    }
}

/// The driveable core of the procedure: the caller performs each pending
/// [`Action`] and feeds the outcome back through [`Machine::step`].
pub struct Machine {
    /// The options this run was started with.  Fixed at construction.
    pub opts: InitOptions,
    /// Where the procedure stands.
    pub phase: Phase,
}

impl Machine {
    /// A machine at the start of the procedure: the first operation is
    /// always the attempt to create the state directory.
    pub fn new(opts: InitOptions) -> (r: Machine)
        ensures
            r.opts == opts,
            r.phase == Phase::AwaitDir,
    {
        Machine { opts, phase: Phase::AwaitDir }
    }

    /// The operation to perform next, or `None` once the procedure is over.
    pub fn next_action(&self) -> (r: Option<Action>)
        ensures
            r == spec_next_action(self.phase),
    {
        match self.phase {
            Phase::AwaitDir => Some(Action::CreateDir),
            Phase::AwaitRepo { .. } => Some(Action::InitRepo),
            Phase::AwaitRemove => Some(Action::RemoveDir),
            Phase::AwaitProbe { .. } => Some(Action::ProbeConfig),
            Phase::AwaitWrite { .. } => Some(Action::WriteConfig),
            Phase::Done { .. } => None,
            Phase::Failed { .. } => None,
        }
    }

    /// Advance by one observed outcome.  The options never change; the phase
    /// moves exactly as [`spec_step`] says.
    pub fn step(&mut self, ev: Event)
        ensures
            final(self).opts == old(self).opts,
            final(self).phase == spec_step(old(self).opts, old(self).phase, ev),
    {
        let next = match (self.phase, ev) {
            (Phase::AwaitDir, Event::Created) => self.after_dir(true),
            (Phase::AwaitDir, Event::FoundDir) => match self.opts.existing_directory_policy {
                ExistingDirPolicy::Idempotent => self.after_dir(false),
                ExistingDirPolicy::Strict => Phase::Failed {
                    error: InitError::AlreadyExists,
                    cleanup_warning: false,
                },
            },
            (Phase::AwaitDir, Event::FoundNonDir) => Phase::Failed {
                error: InitError::NotADirectory,
                cleanup_warning: false,
            },
            (Phase::AwaitDir, Event::IoError) => Phase::Failed {
                error: InitError::DirIo,
                cleanup_warning: false,
            },
            (Phase::AwaitRepo { created }, Event::RepoOk) => self.after_repo(created),
            (Phase::AwaitRepo { created }, Event::RepoFailed) => if created {
                Phase::AwaitRemove
            } else {
                Phase::Failed { error: InitError::RepoInit, cleanup_warning: false }
            },
            (Phase::AwaitRemove, Event::Removed) => Phase::Failed {
                error: InitError::RepoInit,
                cleanup_warning: false,
            },
            (Phase::AwaitRemove, Event::RemoveFailed) => Phase::Failed {
                error: InitError::RepoInit,
                cleanup_warning: true,
            },
            (Phase::AwaitProbe { created }, Event::ConfigPresent) => Phase::Done {
                created,
                config_existed: true,
                wrote_config: false,
            },
            (Phase::AwaitProbe { created }, Event::ConfigAbsent) => Phase::AwaitWrite { created },
            (Phase::AwaitWrite { created }, Event::Written) => Phase::Done {
                created,
                config_existed: false,
                wrote_config: true,
            },
            (Phase::AwaitWrite { created }, Event::WriteFailed) => Phase::Failed {
                error: InitError::ConfigIo,
                cleanup_warning: false,
            },
            (other, _) => other,
        };
        self.phase = next;
    }

    /// Whether the procedure ended in success.
    pub fn succeeded(&self) -> (r: bool)
        ensures
            r == (self.phase is Done),
    {
        match self.phase {
            Phase::Done { .. } => true,
            _ => false,
        }
    }

    /// Whether the caller should offer the project root to the operator's
    /// shell: only after full success, and only if the run asked for it.
    pub fn wants_export(&self) -> (r: bool)
        ensures
            r == (self.phase is Done && self.opts.export_environment),
    {
        self.succeeded() && self.opts.export_environment
    }

    fn after_dir(&self, created: bool) -> (r: Phase)
        ensures
            r == spec_after_dir(self.opts, created),
    {
        if self.opts.initialize_repository {
            Phase::AwaitRepo { created }
        } else {
            self.after_repo(created)
        }
    }

    fn after_repo(&self, created: bool) -> (r: Phase)
        ensures
            r == spec_after_repo(self.opts, created),
    {
        if self.opts.seed_config {
            Phase::AwaitProbe { created }
        } else {
            Phase::Done { created, config_existed: false, wrote_config: false }
        }
    }
}

} // verus!
