use c2rust_init::machine::InitError;
use c2rust_init::machine::Phase;
use c2rust_init::options::ExistingDirPolicy;
use c2rust_init::options::InitOptions;
use c2rust_init::procedure::run_init;
use c2rust_init::workspace::Faults;
use c2rust_init::workspace::PathKind;
use c2rust_init::workspace::Workspace;

fn full_opts(policy: ExistingDirPolicy) -> InitOptions {
    InitOptions {
        initialize_repository: true,
        seed_config: true,
        export_environment: true,
        existing_directory_policy: policy,
    }
}

#[test]
fn fresh_full_run_succeeds() {
    let opts = full_opts(ExistingDirPolicy::Idempotent);
    let r = run_init(&opts, &Workspace::empty(), &Faults::none());
    assert_eq!(
        r.phase,
        Phase::Done { created: true, config_existed: false, wrote_config: true }
    );
    assert_eq!(r.ws.path, PathKind::Dir);
    assert!(r.ws.repo);
    let config = r.ws.config.expect("config file should be seeded");
    assert!(!config.is_empty());
    assert!(config.contains("[global]"));
    assert!(config.contains("[model]"));
}

#[test]
fn idempotent_rerun_succeeds_and_preserves_config() {
    let opts = full_opts(ExistingDirPolicy::Idempotent);
    let first = run_init(&opts, &Workspace::empty(), &Faults::none());
    assert!(matches!(first.phase, Phase::Done { .. }));
    let config_before = first.ws.config.clone().expect("config file should be seeded");

    let second = run_init(&opts, &first.ws, &Faults::none());
    assert_eq!(
        second.phase,
        Phase::Done { created: false, config_existed: true, wrote_config: false }
    );
    assert_eq!(second.ws.path, PathKind::Dir);
    assert_eq!(second.ws.config.as_deref(), Some(config_before.as_str()));
}

#[test]
fn strict_rerun_fails_and_leaves_directory() {
    let opts = full_opts(ExistingDirPolicy::Strict);
    let first = run_init(&opts, &Workspace::empty(), &Faults::none());
    assert!(matches!(first.phase, Phase::Done { .. }));

    let second = run_init(&opts, &first.ws, &Faults::none());
    assert_eq!(
        second.phase,
        Phase::Failed { error: InitError::AlreadyExists, cleanup_warning: false }
    );
    assert_eq!(second.ws.path, PathKind::Dir);
    assert_eq!(second.ws.config, first.ws.config);
    assert_eq!(second.ws.repo, first.ws.repo);
}

#[test]
fn non_directory_occupant_always_fails() {
    let ws = Workspace { path: PathKind::NonDir, config: None, repo: false };
    for policy in [ExistingDirPolicy::Idempotent, ExistingDirPolicy::Strict] {
        let r = run_init(&full_opts(policy), &ws, &Faults::none());
        assert_eq!(
            r.phase,
            Phase::Failed { error: InitError::NotADirectory, cleanup_warning: false }
        );
        assert_eq!(r.ws.path, PathKind::NonDir);
        assert_eq!(r.ws.config, None);
        assert!(!r.ws.repo);
    }
}

#[test]
fn repo_failure_rolls_back_fresh_directory() {
    let opts = full_opts(ExistingDirPolicy::Idempotent);
    let faults = Faults { repo_init_fails: true, ..Faults::none() };
    let r = run_init(&opts, &Workspace::empty(), &faults);
    assert_eq!(
        r.phase,
        Phase::Failed { error: InitError::RepoInit, cleanup_warning: false }
    );
    assert_eq!(r.ws.path, PathKind::Absent);
    assert_eq!(r.ws.config, None);
    assert!(!r.ws.repo);
}

#[test]
fn repo_failure_keeps_preexisting_directory() {
    let opts = full_opts(ExistingDirPolicy::Idempotent);
    let ws = Workspace {
        path: PathKind::Dir,
        config: Some(String::from("# Custom configuration\n")),
        repo: false,
    };
    let faults = Faults { repo_init_fails: true, ..Faults::none() };
    let r = run_init(&opts, &ws, &faults);
    assert_eq!(
        r.phase,
        Phase::Failed { error: InitError::RepoInit, cleanup_warning: false }
    );
    assert_eq!(r.ws.path, PathKind::Dir);
    assert_eq!(r.ws.config.as_deref(), Some("# Custom configuration\n"));
}

#[test]
fn failed_cleanup_surfaces_warning() {
    let opts = full_opts(ExistingDirPolicy::Idempotent);
    let faults = Faults { repo_init_fails: true, cleanup_fails: true, ..Faults::none() };
    let r = run_init(&opts, &Workspace::empty(), &faults);
    assert_eq!(
        r.phase,
        Phase::Failed { error: InitError::RepoInit, cleanup_warning: true }
    );
    assert_eq!(r.ws.path, PathKind::Dir);
}

#[test]
fn existing_config_is_never_overwritten() {
    let opts = full_opts(ExistingDirPolicy::Idempotent);
    let ws = Workspace {
        path: PathKind::Dir,
        config: Some(String::from("# Custom configuration\n")),
        repo: false,
    };
    let r = run_init(&opts, &ws, &Faults::none());
    assert_eq!(
        r.phase,
        Phase::Done { created: false, config_existed: true, wrote_config: false }
    );
    assert_eq!(r.ws.config.as_deref(), Some("# Custom configuration\n"));
}

#[test]
fn config_write_failure_keeps_directory() {
    let opts = InitOptions {
        initialize_repository: false,
        seed_config: true,
        export_environment: false,
        existing_directory_policy: ExistingDirPolicy::Strict,
    };
    let faults = Faults { config_write_fails: true, ..Faults::none() };
    let r = run_init(&opts, &Workspace::empty(), &faults);
    assert_eq!(
        r.phase,
        Phase::Failed { error: InitError::ConfigIo, cleanup_warning: false }
    );
    assert_eq!(r.ws.path, PathKind::Dir);
    assert_eq!(r.ws.config, None);
}

#[test]
fn directory_io_error_is_fatal() {
    let opts = full_opts(ExistingDirPolicy::Idempotent);
    let faults = Faults { dir_io_error: true, ..Faults::none() };
    let r = run_init(&opts, &Workspace::empty(), &faults);
    assert_eq!(
        r.phase,
        Phase::Failed { error: InitError::DirIo, cleanup_warning: false }
    );
    assert_eq!(r.ws.path, PathKind::Absent);
}

#[test]
fn bare_run_creates_only_the_directory() {
    let opts = InitOptions {
        initialize_repository: false,
        seed_config: false,
        export_environment: false,
        existing_directory_policy: ExistingDirPolicy::Strict,
    };
    let r = run_init(&opts, &Workspace::empty(), &Faults::none());
    assert_eq!(
        r.phase,
        Phase::Done { created: true, config_existed: false, wrote_config: false }
    );
    assert_eq!(r.ws.path, PathKind::Dir);
    assert_eq!(r.ws.config, None);
    assert!(!r.ws.repo);
}
