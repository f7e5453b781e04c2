//! Storage configuration and the paths that follow from it.

use std::path::PathBuf;

use vstd::prelude::*;

verus! {

/// `std::path::PathBuf`, carried as it is.
#[verifier::external_type_specification]
#[verifier::external_body]
pub struct ExPathBuf(PathBuf);

/// Storage configuration.
#[derive(Debug, Clone)]
pub struct StorageConfig {
    /// Enable conversation-level cost tracking
    pub enable_conversation_tracking: bool,
    /// Storage directory path (default: a directory in the home directory)
    pub storage_path: Option<PathBuf>,
    /// Enable cost persistence
    pub enable_cost_persistence: bool,
    /// Session expiration window in days
    pub session_expiry_days: Option<u32>,
    /// Whether cleanup should run on startup
    pub enable_startup_cleanup: bool,
}

impl Default for StorageConfig {
    fn default() -> (config: StorageConfig)
        ensures
            config.enable_conversation_tracking,
            config.storage_path is None,
            config.enable_cost_persistence,
            config.session_expiry_days == Some(30u32),
            config.enable_startup_cleanup,
    {
        StorageConfig {
            enable_conversation_tracking: true,
            storage_path: None,
            enable_cost_persistence: true,
            session_expiry_days: Some(30),
            enable_startup_cleanup: true,
        }
    }
}

/// The directory at which a path starts.
#[derive(Debug)]
pub enum StorageRoot {
    /// A given directory.
    Directory(PathBuf),
    /// The directory in which the process runs, `.`.
    Working,
}

/// A path: the segments that are joined, in their order, to a root.
#[derive(Debug, Clone)]
pub struct StoragePath {
    pub root: StorageRoot,
    pub segments: Vec<String>,
}

/// What a path is.
pub struct PathView {
    pub root: StorageRoot,
    pub segments: Seq<Seq<char>>,
}

impl View for StoragePath {
    type V = PathView;

    open spec fn view(&self) -> PathView {
        PathView {
            root: self.root,
            segments: Seq::new(self.segments@.len(), |i: int| self.segments@[i]@),
        }
    }
}

impl PathView {
    /// The path with one more segment joined to it.
    pub open spec fn join(self, segment: Seq<char>) -> PathView {
        PathView { root: self.root, segments: self.segments.push(segment) }
    }
}

/// `PathBuf::clone`: the clone is the same path.
pub assume_specification[ <PathBuf as Clone>::clone ](path: &PathBuf) -> (copy: PathBuf)
    ensures
        copy == *path,
;

impl Clone for StorageRoot {
    /// The same root.
    fn clone(&self) -> (copy: StorageRoot)
        ensures
            copy == *self,
    {
        match self {
            StorageRoot::Directory(path) => StorageRoot::Directory(path.clone()),
            StorageRoot::Working => StorageRoot::Working,
        }
    }
}

impl StoragePath {
    /// The root itself.
    pub fn at(root: StorageRoot) -> (path: StoragePath)
        ensures
            path@ == (PathView { root, segments: Seq::empty() }),
    {
        let path = StoragePath { root, segments: Vec::new() };
        assert(path@.segments =~= Seq::empty());
        path
    }

    /// The path with `segment` joined to it.
    pub fn join(&self, segment: &str) -> (path: StoragePath)
        ensures
            path@ == self@.join(segment@),
    {
        let mut segments: Vec<String> = Vec::new();
        let mut i: usize = 0;
        while i < self.segments.len()
            invariant
                i <= self.segments@.len(),
                segments@.len() == i,
                forall|j: int| 0 <= j < i ==> (#[trigger] segments@[j])@ == self.segments@[j]@,
            decreases self.segments@.len() - i,
        {
            segments.push(self.segments[i].clone());
            i = i + 1;
        }
        segments.push(segment.to_owned());
        let path = StoragePath { root: self.root.clone(), segments };
        assert(path@.segments =~= self@.segments.push(segment@));
        path
    }
}

/// Storage paths computed for the current runtime.
#[derive(Debug, Clone)]
pub struct StoragePaths {
    /// User-level config directory
    pub user_config_dir: StoragePath,
    /// Project-level config directory
    pub project_config_dir: StoragePath,
    /// Sessions data directory
    pub sessions_dir: StoragePath,
    /// User config file path
    pub user_config_path: StoragePath,
    /// Project config file path
    pub project_config_path: StoragePath,
}

/// What the storage paths are.
pub struct PathsView {
    pub user_config_dir: PathView,
    pub project_config_dir: PathView,
    pub sessions_dir: PathView,
    pub user_config_path: PathView,
    pub project_config_path: PathView,
}

impl View for StoragePaths {
    type V = PathsView;

    open spec fn view(&self) -> PathsView {
        PathsView {
            user_config_dir: self.user_config_dir@,
            project_config_dir: self.project_config_dir@,
            sessions_dir: self.sessions_dir@,
            user_config_path: self.user_config_path@,
            project_config_path: self.project_config_path@,
        }
    }
}

} // verus!
