//! Guarantees of the procedure, stated over [`spec_init`] and proved once
//! for every configuration of options and every injected fault pattern the
//! statement admits.

use vstd::prelude::*;

use crate::config_text::lemma_default_config_sections;
use crate::config_text::spec_contains;
use crate::config_text::spec_default_config;
use crate::machine::InitError;
use crate::machine::Phase;
use crate::options::InitOptions;
use crate::procedure::spec_init;
use crate::workspace::Faults;
use crate::workspace::WorkspaceModel;

verus! {

/// In a fresh working directory, with every outside operation succeeding,
/// one run always succeeds and leaves a directory at the fixed path; if the
/// run seeds configuration, the file holds the non-empty template with its
/// global and model sections; if it initializes a repository, the metadata
/// is present.
pub proof fn lemma_fresh_run_succeeds(opts: InitOptions, ws: WorkspaceModel, f: Faults)
    requires
        ws == WorkspaceModel::empty(),
        f == Faults::spec_none(),
    ensures
        ({
            let r = spec_init(opts, ws, f);
            &&& r.phase matches Phase::Done { created, .. } && created
            &&& r.ws.path is Dir
            &&& r.ws.wf()
            &&& opts.seed_config ==> {
                &&& r.ws.config == Some(spec_default_config())
                &&& spec_default_config().len() > 0
                &&& spec_contains(spec_default_config(), "[global]"@)
                &&& spec_contains(spec_default_config(), "[model]"@)
            }
            &&& opts.initialize_repository ==> r.ws.repo
        }),
{
    lemma_default_config_sections();
}

/// If a run reports success, the state directory exists and is a directory;
/// and every run, successful or not, leaves a well-formed on-disk state.
pub proof fn lemma_success_leaves_directory(opts: InitOptions, ws: WorkspaceModel, f: Faults)
    requires
        ws.wf(),
    ensures
        spec_init(opts, ws, f).phase is Done ==> spec_init(opts, ws, f).ws.path is Dir,
        spec_init(opts, ws, f).ws.wf(),
{
}

/// Exactly when a run succeeds: the fixed path is not occupied by a
/// non-directory, an existing directory is only tolerated under the
/// idempotent policy, and no fault strikes an operation the run actually
/// attempts.
pub proof fn lemma_success_characterized(opts: InitOptions, ws: WorkspaceModel, f: Faults)
    requires
        ws.wf(),
    ensures
        spec_init(opts, ws, f).phase is Done <==> {
            &&& ws.path !is NonDir
            &&& (ws.path is Dir ==> opts.existing_directory_policy is Idempotent)
            &&& (ws.path is Absent ==> !f.dir_io_error)
            &&& (opts.initialize_repository ==> !f.repo_init_fails)
            &&& (opts.seed_config && ws.config is None ==> !f.config_write_fails)
        },
{
}

/// Whatever the options and whatever faults strike, a run never changes the
/// content of a configuration file that already exists: the only delete is
/// the rollback of a directory this run created, and such a directory held
/// no configuration file.
pub proof fn lemma_existing_config_never_modified(
    opts: InitOptions,
    ws: WorkspaceModel,
    f: Faults,
)
    requires
        ws.wf(),
        ws.config is Some,
    ensures
        spec_init(opts, ws, f).ws.config == ws.config,
{
}

/// Under the idempotent policy, a second run right after a successful first
/// run succeeds again and leaves the on-disk state — the configuration file
/// content included — exactly as the first run left it.
pub proof fn lemma_idempotent_rerun(opts: InitOptions, ws: WorkspaceModel, f1: Faults, f2: Faults)
    requires
        opts.existing_directory_policy is Idempotent,
        ws == WorkspaceModel::empty(),
        f1 == Faults::spec_none(),
        f2 == Faults::spec_none(),
    ensures
        ({
            let first = spec_init(opts, ws, f1);
            let second = spec_init(opts, first.ws, f2);
            &&& second.phase matches Phase::Done { created, .. } && !created
            &&& second.ws == first.ws
            &&& second.ws.config == first.ws.config
        }),
{
}

/// Under the strict policy, a second run right after a successful first run
/// fails with the already-exists error and leaves the directory exactly as
/// it found it: still present, still a directory.
pub proof fn lemma_strict_rerun_fails(opts: InitOptions, ws: WorkspaceModel, f1: Faults, f2: Faults)
    requires
        opts.existing_directory_policy is Strict,
        ws == WorkspaceModel::empty(),
        f1 == Faults::spec_none(),
    ensures
        ({
            let first = spec_init(opts, ws, f1);
            let second = spec_init(opts, first.ws, f2);
            &&& second.phase == (Phase::Failed {
                error: InitError::AlreadyExists,
                cleanup_warning: false,
            })
            &&& second.ws == first.ws
            &&& second.ws.path is Dir
        }),
{
}

/// If a non-directory occupies the fixed path, every run fails with the
/// conflict error and touches nothing: the foreign object is never deleted
/// or replaced, whatever the options and whatever faults strike.
pub proof fn lemma_non_directory_conflict(opts: InitOptions, ws: WorkspaceModel, f: Faults)
    requires
        ws.path is NonDir,
    ensures
        spec_init(opts, ws, f).phase == (Phase::Failed {
            error: InitError::NotADirectory,
            cleanup_warning: false,
        }),
        spec_init(opts, ws, f).ws == ws,
{
}

/// If repository initialization fails after this run created the directory,
/// and the rollback delete goes through, the directory no longer exists
/// afterward.
pub proof fn lemma_repo_failure_rolls_back_fresh_dir(
    opts: InitOptions,
    ws: WorkspaceModel,
    f: Faults,
)
    requires
        opts.initialize_repository,
        ws == WorkspaceModel::empty(),
        !f.dir_io_error,
        f.repo_init_fails,
        !f.cleanup_fails,
    ensures
        ({
            let r = spec_init(opts, ws, f);
            &&& r.phase == (Phase::Failed { error: InitError::RepoInit, cleanup_warning: false })
            &&& r.ws == WorkspaceModel::empty()
            &&& r.ws.path is Absent
        }),
{
}

/// If repository initialization fails but the directory pre-existed this
/// run, no rollback happens: the directory is left exactly as it was found.
pub proof fn lemma_repo_failure_keeps_preexisting_dir(
    opts: InitOptions,
    ws: WorkspaceModel,
    f: Faults,
)
    requires
        opts.initialize_repository,
        opts.existing_directory_policy is Idempotent,
        ws.path is Dir,
        f.repo_init_fails,
    ensures
        spec_init(opts, ws, f).phase == (Phase::Failed {
            error: InitError::RepoInit,
            cleanup_warning: false,
        }),
        spec_init(opts, ws, f).ws == ws,
{
}

/// If the rollback delete itself fails, the run still reports the original
/// repository failure, now with the cleanup warning, and the directory is
/// left behind for the operator.
pub proof fn lemma_failed_cleanup_warns(opts: InitOptions, ws: WorkspaceModel, f: Faults)
    requires
        opts.initialize_repository,
        ws == WorkspaceModel::empty(),
        !f.dir_io_error,
        f.repo_init_fails,
        f.cleanup_fails,
    ensures
        ({
            let r = spec_init(opts, ws, f);
            &&& r.phase == (Phase::Failed { error: InitError::RepoInit, cleanup_warning: true })
            &&& r.ws.path is Dir
        }),
{
}

} // verus!
