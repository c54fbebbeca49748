//! Model of the on-disk state the procedure reads and mutates.
//!
//! Only three artifacts matter to the procedure: what occupies the fixed
//! state-directory path, whether the configuration file inside it exists (and
//! with which content), and whether repository metadata is present.
//! [`Workspace`] carries that state as plain values; [`WorkspaceModel`] is its
//! mathematical view, used by the contracts.

use vstd::prelude::*;

verus! {

/// What occupies the fixed state-directory path.
#[derive(Clone, Copy, Debug, PartialEq, Eq, Structural)]
pub enum PathKind {
    /// Nothing exists at the path.
    Absent,
    /// A directory exists at the path.
    Dir,
    /// Something other than a directory (for example a regular file)
    /// occupies the path.
    NonDir,
}

/// Mathematical view of the on-disk state at the fixed paths.
pub struct WorkspaceModel {
    /// Occupant of the state-directory path.
    pub path: PathKind,
    /// Content of the configuration file, if it exists.
    pub config: Option<Seq<char>>,
    /// Whether repository metadata is present inside the state directory.
    pub repo: bool,
}

impl WorkspaceModel {
    /// A config file or repository metadata can only exist inside an actual
    /// directory.
    pub open spec fn wf(self) -> bool {
        (self.config is Some || self.repo) ==> self.path is Dir
    }

    /// The state of a fresh working directory: nothing at the fixed path.
    pub open spec fn empty() -> WorkspaceModel {
        WorkspaceModel { path: PathKind::Absent, config: None, repo: false }
    }
}

/// Executable counterpart of [`WorkspaceModel`], used to simulate runs of the
/// procedure on concrete states.
pub struct Workspace {
    /// Occupant of the state-directory path.
    pub path: PathKind,
    /// Content of the configuration file, if it exists.
    pub config: Option<String>,
    /// Whether repository metadata is present inside the state directory.
    pub repo: bool,
}

impl View for Workspace {
    type V = WorkspaceModel;

    open spec fn view(&self) -> WorkspaceModel {
        WorkspaceModel {
            path: self.path,
            config: match self.config {
                Some(c) => Some(c@),
                None => None,
            },
            repo: self.repo,
        }
    }
}

impl Workspace {
    /// A fresh working directory: nothing at the fixed path.
    pub fn empty() -> (r: Workspace)
        ensures
            r@ == WorkspaceModel::empty(),
    {
        Workspace { path: PathKind::Absent, config: None, repo: false }
    }
}

/// Injected outcomes of the fallible outside operations, one flag per
/// operation the procedure may attempt.  A set flag makes the corresponding
/// operation fail; a clear flag lets it succeed.
#[derive(Clone, Copy, Debug, PartialEq, Eq, Structural)]
pub struct Faults {
    /// Creating the state directory fails with an I/O error (for example,
    /// permission denied) although nothing occupies the path.
    pub dir_io_error: bool,
    /// Initializing the repository fails.
    pub repo_init_fails: bool,
    /// The rollback delete of a freshly created directory fails.
    pub cleanup_fails: bool,
    /// Writing the default configuration file fails with an I/O error.
    pub config_write_fails: bool,
}

impl Faults {
    /// Every outside operation succeeds.
    pub fn none() -> (r: Faults)
        ensures
            r == Faults::spec_none(),
    {
        Faults {
            dir_io_error: false,
            repo_init_fails: false,
            cleanup_fails: false,
            config_write_fails: false,
        }
    }

    /// Every outside operation succeeds.
    pub open spec fn spec_none() -> Faults {
        Faults {
            dir_io_error: false,
            repo_init_fails: false,
            cleanup_fails: false,
            config_write_fails: false,
        }
    }
}

} // verus!
