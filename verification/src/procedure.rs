//! Whole runs of the initialization procedure.
//!
//! [`spec_init`] states, for every starting state and every combination of
//! outside-operation outcomes, how one run of the procedure ends and what it
//! leaves on disk.  [`run_init`] executes a run against a [`Workspace`] value
//! by driving the step [`Machine`] and is proved to agree with [`spec_init`]
//! exactly; it is how concrete scenarios, including injected faults, are
//! exercised without touching a real filesystem.

use vstd::prelude::*;

use crate::config_text::default_config;
use crate::config_text::spec_default_config;
use crate::machine::Action;
use crate::machine::Event;
use crate::machine::InitError;
use crate::machine::Machine;
use crate::machine::Phase;
use crate::options::InitOptions;
use crate::workspace::Faults;
use crate::workspace::PathKind;
use crate::workspace::Workspace;
use crate::workspace::WorkspaceModel;

verus! {

/// Mathematical view of how a run ended: the terminal phase and the on-disk
/// state left behind.
pub struct RunModel {
    /// The terminal phase: `Done` with its summary flags, or `Failed` with
    /// its error and cleanup warning.
    pub phase: Phase,
    /// The on-disk state after the run.
    pub ws: WorkspaceModel,
}

/// How one run of the procedure ends.
///
/// The first three cases are the conflict and error classifications of the
/// directory step; otherwise the directory is ready (freshly created or
/// tolerated), and the repository and configuration steps follow in order.
/// A repository failure rolls back a directory this run created — and only
/// such a directory — best-effort; an existing configuration file is never
/// overwritten.
pub open spec fn spec_init(opts: InitOptions, ws: WorkspaceModel, f: Faults) -> RunModel {
    if ws.path is NonDir {
        RunModel {
            phase: Phase::Failed { error: InitError::NotADirectory, cleanup_warning: false },
            ws,
        }
    } else if ws.path is Dir && opts.existing_directory_policy is Strict {
        RunModel {
            phase: Phase::Failed { error: InitError::AlreadyExists, cleanup_warning: false },
            ws,
        }
    } else if ws.path is Absent && f.dir_io_error {
        RunModel { phase: Phase::Failed { error: InitError::DirIo, cleanup_warning: false }, ws }
    } else {
        let created = ws.path is Absent;
        let ws_dir = WorkspaceModel { path: PathKind::Dir, config: ws.config, repo: ws.repo };
        if opts.initialize_repository && f.repo_init_fails {
            if created {
                if f.cleanup_fails {
                    RunModel {
                        phase: Phase::Failed { error: InitError::RepoInit, cleanup_warning: true },
                        ws: ws_dir,
                    }
                } else {
                    RunModel {
                        phase: Phase::Failed {
                            error: InitError::RepoInit,
                            cleanup_warning: false,
                        },
                        ws: WorkspaceModel::empty(),
                    }
                }
            } else {
                RunModel {
                    phase: Phase::Failed { error: InitError::RepoInit, cleanup_warning: false },
                    ws: ws_dir,
                }
            }
        } else {
            let ws_repo = WorkspaceModel {
                path: PathKind::Dir,
                config: ws_dir.config,
                repo: ws_dir.repo || opts.initialize_repository,
            };
            if opts.seed_config {
                if ws_repo.config is Some {
                    RunModel {
                        phase: Phase::Done {
                            created,
                            config_existed: true,
                            wrote_config: false,
                        },
                        ws: ws_repo,
                    }
                } else if f.config_write_fails {
                    RunModel {
                        phase: Phase::Failed {
                            error: InitError::ConfigIo,
                            cleanup_warning: false,
                        },
                        ws: ws_repo,
                    }
                } else {
                    RunModel {
                        phase: Phase::Done {
                            created,
                            config_existed: false,
                            wrote_config: true,
                        },
                        ws: WorkspaceModel {
                            path: PathKind::Dir,
                            config: Some(spec_default_config()),
                            repo: ws_repo.repo,
                        },
                    }
                }
            } else {
                RunModel {
                    phase: Phase::Done { created, config_existed: false, wrote_config: false },
                    ws: ws_repo,
                }
            }
        }
    }
}

/// Outcome of a simulated run: the terminal phase and the on-disk state left
/// behind, as concrete values.
pub struct RunReport {
    /// The terminal phase: `Done` with its summary flags, or `Failed` with
    /// its error and cleanup warning.
    pub phase: Phase,
    /// The on-disk state after the run.
    pub ws: Workspace,
}

impl View for RunReport {
    type V = RunModel;

    open spec fn view(&self) -> RunModel {
        RunModel { phase: self.phase, ws: self.ws@ }
    }
}

/// Run the procedure once over a modelled on-disk state, with the given
/// injected outcomes for the outside operations.  The run agrees with
/// [`spec_init`] on the terminal phase and on everything left on disk.
pub fn run_init(opts: &InitOptions, ws: &Workspace, faults: &Faults) -> (r: RunReport)
    ensures
        r@ == spec_init(*opts, ws@, *faults),
{
    let mut m = Machine::new(*opts);
    let mut path = ws.path;
    let mut config: Option<String> = match &ws.config {
        Some(c) => Some(c.clone()),
        None => None,
    };
    let mut repo = ws.repo;

    // Directory step: the create attempt observes what occupies the path.
    let ev = match path {
        PathKind::NonDir => Event::FoundNonDir,
        PathKind::Dir => Event::FoundDir,
        PathKind::Absent => if faults.dir_io_error {
            Event::IoError
        } else {
            path = PathKind::Dir;
            Event::Created
        },
    };
    m.step(ev);

    // Repository step, if the machine asks for it.
    if m.next_action() == Some(Action::InitRepo) {
        let ev = if faults.repo_init_fails {
            Event::RepoFailed
        } else {
            repo = true;
            Event::RepoOk
        };
        m.step(ev);
    }

    // Rollback of a freshly created directory, if the machine asks for it.
    if m.next_action() == Some(Action::RemoveDir) {
        let ev = if faults.cleanup_fails {
            Event::RemoveFailed
        } else {
            path = PathKind::Absent;
            config = None;
            repo = false;
            Event::Removed
        };
        m.step(ev);
    }

    // Configuration probe, if the machine asks for it.
    if m.next_action() == Some(Action::ProbeConfig) {
        let ev = if config.is_some() {
            Event::ConfigPresent
        } else {
            Event::ConfigAbsent
        };
        m.step(ev);
    }

    // Configuration write, if the machine asks for it.
    if m.next_action() == Some(Action::WriteConfig) {
        let ev = if faults.config_write_fails {
            Event::WriteFailed
        } else {
            config = Some(String::from_str(default_config()));
            Event::Written
        };
        m.step(ev);
    }

    RunReport { phase: m.phase, ws: Workspace { path, config, repo } }
}

} // verus!
