//! Where snapshots are stored, and when they are read, updated, written and
//! removed.

use std::path::PathBuf;

use vstd::prelude::*;
use vstd::string::*;

use crate::clock::{days_earlier, earlier_seconds, now, UtcTime, FIRST_SECOND};
use crate::config::{
    PathView, PathsView, StorageConfig, StoragePath, StoragePaths, StorageRoot,
};
use crate::input::{extract_session_id, session_id_of};
use crate::json::{Json, JsonValue};
use crate::session::{is_new_snapshot, SessionSnapshot, SnapshotView};
use crate::text::{borrowed_text, same_text, slice_text_of, text_of};
use crate::update::{follow_input, follows, Surroundings, UpdateError};
use crate::usd::Usd;

verus! {

/// What the storage takes from the process around it.
#[derive(Debug)]
pub struct StorageEnv {
    /// The home directory of the user.
    pub home_dir: Option<PathBuf>,
    /// The name of the directory that is used where no storage path is
    /// configured.
    pub default_dir: String,
    /// The id of the project that applies where none is given.
    pub global_project_id: String,
}

/// The settings with which the process runs.
#[derive(Debug)]
pub struct RuntimeSettings {
    pub config: StorageConfig,
    pub project_id: Option<String>,
}

/// The directory under which everything is stored: the configured one, else
/// the default one in the home directory, else the default one in the working
/// directory.
pub open spec fn base_path(config: StorageConfig, env: StorageEnv) -> PathView {
    match config.storage_path {
        Some(path) => PathView { root: StorageRoot::Directory(path), segments: Seq::empty() },
        None => PathView {
            root: match env.home_dir {
                Some(home) => StorageRoot::Directory(home),
                None => StorageRoot::Working,
            },
            segments: Seq::empty(),
        }.join(env.default_dir@),
    }
}

/// The directory of the project `project` under `base`.
pub open spec fn project_dir(base: PathView, project: Seq<char>) -> PathView {
    base.join("projects"@).join(project)
}

/// The storage paths under `base` for the project `project`.
pub open spec fn layout(base: PathView, project: Seq<char>) -> PathsView {
    PathsView {
        user_config_dir: base.join("statusline-pro"@),
        project_config_dir: project_dir(base, project).join("statusline-pro"@),
        sessions_dir: project_dir(base, project).join("statusline-pro"@).join("sessions"@),
        user_config_path: base.join("statusline-pro"@).join("config.toml"@),
        project_config_path: project_dir(base, project).join("statusline-pro"@).join(
            "config.toml"@,
        ),
    }
}

/// The project to which the storage belongs: the given one, else the global
/// one.
pub open spec fn project_of(project_id: Option<Seq<char>>, env: StorageEnv) -> Seq<char> {
    match project_id {
        Some(id) => id,
        None => env.global_project_id@,
    }
}

/// The file of the session `session_id`.
pub open spec fn session_path(paths: PathsView, session_id: Seq<char>) -> PathView {
    paths.sessions_dir.join(session_id + ".json"@)
}

/// Storage manager responsible for the snapshots of sessions.
#[derive(Debug)]
pub struct StorageManager {
    config: StorageConfig,
    paths: StoragePaths,
    project_id: Option<String>,
}

/// What a storage manager is.
pub struct ManagerView {
    pub config: StorageConfig,
    pub paths: PathsView,
    pub project_id: Option<Seq<char>>,
}

impl View for StorageManager {
    type V = ManagerView;

    closed spec fn view(&self) -> ManagerView {
        ManagerView {
            config: self.config,
            paths: self.paths@,
            project_id: text_of(self.project_id),
        }
    }
}

/// The manager with the configuration `config` and the project `project_id`.
pub open spec fn managed(
    config: StorageConfig,
    project_id: Option<Seq<char>>,
    env: StorageEnv,
) -> ManagerView {
    ManagerView {
        config,
        paths: layout(base_path(config, env), project_of(project_id, env)),
        project_id,
    }
}

/// How an update begins.
#[derive(Debug)]
pub enum UpdateStart {
    /// Persistence is disabled: no file is touched.
    Disabled,
    /// The input document names no session.
    MissingSessionId,
    /// The snapshot in this file is to be loaded.
    Load(StoragePath),
}

/// What the reading of a snapshot file brought.
#[derive(Debug)]
pub enum SnapshotRead {
    /// There is no such file.
    Missing,
    /// The file could not be read.
    Unreadable,
    /// The file holds no snapshot.
    Malformed,
    /// The file holds this snapshot.
    Read(SessionSnapshot),
}

/// Why a snapshot could not be loaded.
#[derive(Clone, Copy, PartialEq, Eq, Structural, Debug)]
pub enum LoadError {
    /// The file could not be read.
    Unreadable,
    /// The file holds no snapshot.
    Malformed,
}

/// What cleaning up old sessions comes to.
#[derive(Clone, Copy, PartialEq, Eq, Structural, Debug)]
pub enum CleanupPlan {
    /// Nothing is removed.
    Skip,
    /// The sessions last modified before this moment are removed.
    RemoveBefore(UtcTime),
    /// The expiry window reaches back further than any date.
    OutOfRange,
}

/// What is known of a file among the sessions.
#[derive(Debug)]
pub struct SessionFile {
    /// The extension of its name, where it has one that is text.
    pub extension: Option<String>,
    /// When it was last modified, where that is known.
    pub modified: Option<UtcTime>,
}

/// The days after which sessions expire, if they are to be cleaned up.
pub open spec fn expiry_days(config: StorageConfig) -> Option<u32> {
    match config.session_expiry_days {
        Some(days) => if config.enable_startup_cleanup && days != 0 {
            Some(days)
        } else {
            None
        },
        None => None,
    }
}

/// What cleaning up at the time `now` comes to.
pub open spec fn cleanup_at(config: StorageConfig, now: UtcTime) -> CleanupPlan {
    match expiry_days(config) {
        None => CleanupPlan::Skip,
        Some(days) => if !now.has_date() || earlier_seconds(now, days) < FIRST_SECOND {
            CleanupPlan::OutOfRange
        } else {
            CleanupPlan::RemoveBefore(
                UtcTime { seconds: earlier_seconds(now, days) as i64, nanos: now.nanos },
            )
        },
    }
}

/// Whether the file is a session's that was last modified before `cutoff`.
pub open spec fn has_expired(file: SessionFile, cutoff: UtcTime) -> bool {
    text_of(file.extension) == Some("json"@) && (file.modified matches Some(modified)
        && modified.is_before(cutoff))
}

impl StorageManager {
    /// A manager with the settings with which the process runs.
    pub fn new(settings: RuntimeSettings, env: &StorageEnv) -> (manager: StorageManager)
        ensures
            manager@ == managed(settings.config, text_of(settings.project_id), *env),
    {
        StorageManager::with_config(settings.config, settings.project_id, env)
    }

    /// A manager with the given configuration and project.
    pub fn with_config(
        config: StorageConfig,
        project_id: Option<String>,
        env: &StorageEnv,
    ) -> (manager: StorageManager)
        ensures
            manager@ == managed(config, text_of(project_id), *env),
    {
        let paths: StoragePaths = StorageManager::initialize_paths(
            &config,
            borrowed_text(&project_id),
            env,
        );
        StorageManager { config, paths, project_id }
    }

    /// The storage paths for the project `project_id`.
    pub fn initialize_paths(
        config: &StorageConfig,
        project_id: Option<&str>,
        env: &StorageEnv,
    ) -> (paths: StoragePaths)
        ensures
            paths@ == layout(
                base_path(*config, *env),
                project_of(slice_text_of(project_id), *env),
            ),
    {
        let base: StoragePath = match &config.storage_path {
            Some(path) => StoragePath::at(StorageRoot::Directory(path.clone())),
            None => {
                let root: StorageRoot = match &env.home_dir {
                    Some(home) => StorageRoot::Directory(home.clone()),
                    None => StorageRoot::Working,
                };
                StoragePath::at(root).join(env.default_dir.as_str())
            },
        };
        let project: &str = match project_id {
            Some(id) => id,
            None => env.global_project_id.as_str(),
        };
        let project_dir: StoragePath = base.join("projects").join(project);
        StoragePaths {
            user_config_dir: base.join("statusline-pro"),
            project_config_dir: project_dir.join("statusline-pro"),
            sessions_dir: project_dir.join("statusline-pro").join("sessions"),
            user_config_path: base.join("statusline-pro").join("config.toml"),
            project_config_path: project_dir.join("statusline-pro").join("config.toml"),
        }
    }

    /// The configuration.
    pub fn config(&self) -> (config: &StorageConfig)
        ensures
            *config == self@.config,
    {
        &self.config
    }

    /// The storage paths.
    pub fn paths(&self) -> (paths: &StoragePaths)
        ensures
            paths@ == self@.paths,
    {
        &self.paths
    }

    /// The project that was given.
    pub fn project_id(&self) -> (id: Option<&str>)
        ensures
            slice_text_of(id) == self@.project_id,
    {
        borrowed_text(&self.project_id)
    }

    /// The directories that have to exist, in the order in which they are
    /// looked for and, where they are missing, created.
    pub fn ensure_directories(&self) -> (dirs: Vec<&StoragePath>)
        ensures
            dirs@.len() == 3,
            dirs@[0]@ == self@.paths.user_config_dir,
            dirs@[1]@ == self@.paths.project_config_dir,
            dirs@[2]@ == self@.paths.sessions_dir,
    {
        let mut dirs: Vec<&StoragePath> = Vec::new();
        dirs.push(&self.paths.user_config_dir);
        dirs.push(&self.paths.project_config_dir);
        dirs.push(&self.paths.sessions_dir);
        dirs
    }

    /// Makes `project_id` the project, with the paths that belong to it.
    pub fn set_project_id(&mut self, project_id: &str, env: &StorageEnv)
        ensures
            final(self)@ == managed(old(self)@.config, Some(project_id@), *env),
    {
        self.project_id = Some(project_id.to_owned());
        self.paths = StorageManager::initialize_paths(&self.config, Some(project_id), env);
    }

    /// The file of the session `session_id`.
    pub fn session_file_path(&self, session_id: &str) -> (path: StoragePath)
        ensures
            path@ == session_path(self@.paths, session_id@),
    {
        let name: String = session_id.to_owned().concat(".json");
        self.paths.sessions_dir.join(name.as_str())
    }

    /// The snapshot that reading a snapshot file brought, if there is such a
    /// file.
    pub fn load_snapshot(read: SnapshotRead) -> (loaded: Result<
        Option<SessionSnapshot>,
        LoadError,
    >)
        ensures
            loaded == match read {
                SnapshotRead::Missing => Ok(None),
                SnapshotRead::Unreadable => Err(LoadError::Unreadable),
                SnapshotRead::Malformed => Err(LoadError::Malformed),
                SnapshotRead::Read(snapshot) => Ok(Some(snapshot)),
            },
    {
        match read {
            SnapshotRead::Missing => Ok(None),
            SnapshotRead::Unreadable => Err(LoadError::Unreadable),
            SnapshotRead::Malformed => Err(LoadError::Malformed),
            SnapshotRead::Read(snapshot) => Ok(Some(snapshot)),
        }
    }

    /// The file to which the snapshot is written, if it is to be written.
    pub fn save_snapshot(&self, snapshot: &SessionSnapshot) -> (path: Option<StoragePath>)
        ensures
            match path {
                Some(path) => self@.config.enable_cost_persistence && path@ == session_path(
                    self@.paths,
                    snapshot@.meta.session_id,
                ),
                None => !self@.config.enable_cost_persistence,
            },
    {
        if !self.config.enable_cost_persistence {
            return None;
        }
        Some(self.session_file_path(snapshot.meta.session_id.as_str()))
    }

    /// How the update from an input document begins.
    pub fn begin_update(&self, input_data: &JsonValue) -> (start: UpdateStart)
        ensures
            match start {
                UpdateStart::Disabled => !self@.config.enable_cost_persistence,
                UpdateStart::MissingSessionId => self@.config.enable_cost_persistence
                    && session_id_of(input_data@) is None,
                UpdateStart::Load(path) => self@.config.enable_cost_persistence && session_id_of(
                    input_data@,
                ) is Some && path@ == session_path(
                    self@.paths,
                    session_id_of(input_data@)->0,
                ),
            },
    {
        if !self.config.enable_cost_persistence {
            return UpdateStart::Disabled;
        }
        match extract_session_id(input_data) {
            Some(session_id) => UpdateStart::Load(self.session_file_path(session_id)),
            None => UpdateStart::MissingSessionId,
        }
    }

    /// The snapshot that follows an input document from what is stored of its
    /// session. `plus` adds dollar amounts.
    pub fn update_snapshot_from_value<F: Fn(Usd, Usd) -> Usd>(
        &self,
        input_data: &JsonValue,
        stored: SnapshotRead,
        surroundings: &Surroundings,
        plus: &F,
    ) -> (result: Result<SessionSnapshot, UpdateError>)
        requires
            forall|a: Usd, b: Usd| call_requires(*plus, (a, b)),
        ensures
            updates(self@, input_data@, stored, *surroundings, *plus, result),
    {
        if !self.config.enable_cost_persistence {
            return Ok(SessionSnapshot::new("disabled"));
        }
        let session_id: &str = match extract_session_id(input_data) {
            Some(session_id) => session_id,
            None => {
                return Err(UpdateError::MissingSessionId);
            },
        };
        let snapshot: SessionSnapshot = match StorageManager::load_snapshot(stored) {
            Ok(Some(snapshot)) => snapshot,
            Ok(None) => SessionSnapshot::new(session_id),
            Err(LoadError::Unreadable) => {
                return Err(UpdateError::SnapshotUnreadable);
            },
            Err(LoadError::Malformed) => {
                return Err(UpdateError::SnapshotMalformed);
            },
        };
        let updated_at: UtcTime = now();
        let created_at: UtcTime = now();
        let ghost before = snapshot@;
        let result: Result<SessionSnapshot, UpdateError> = follow_input(
            snapshot,
            session_id,
            input_data,
            surroundings,
            updated_at,
            created_at,
            plus,
        );
        assert(is_starting_point(before, stored, session_id_of(input_data@)->0));
        assert(follows(
            before,
            session_id_of(input_data@)->0,
            input_data@,
            *surroundings,
            updated_at,
            created_at,
            *plus,
            result,
        ));
        result
    }

    /// The stored snapshot of a session, as reading its file brought it.
    pub fn get_snapshot(&self, read: SnapshotRead) -> (loaded: Result<
        Option<SessionSnapshot>,
        LoadError,
    >)
        ensures
            loaded == match read {
                SnapshotRead::Missing => Ok(None),
                SnapshotRead::Unreadable => Err(LoadError::Unreadable),
                SnapshotRead::Malformed => Err(LoadError::Malformed),
                SnapshotRead::Read(snapshot) => Ok(Some(snapshot)),
            },
    {
        StorageManager::load_snapshot(read)
    }

    /// What cleaning up old sessions comes to now.
    pub fn cleanup_old_sessions(&self) -> (plan: CleanupPlan)
        ensures
            exists|now: UtcTime| #[trigger]
                now.is_clock_time() && plan == cleanup_at(self@.config, now),
    {
        let now: UtcTime = now();
        self.plan_cleanup(&now)
    }

    /// What cleaning up old sessions at the time `now` comes to.
    pub fn plan_cleanup(&self, now: &UtcTime) -> (plan: CleanupPlan)
        requires
            now.nanos < 1_000_000_000,
        ensures
            plan == cleanup_at(self@.config, *now),
    {
        if !self.config.enable_startup_cleanup {
            return CleanupPlan::Skip;
        }
        let days: u32 = match self.config.session_expiry_days {
            Some(days) => days,
            None => {
                return CleanupPlan::Skip;
            },
        };
        if days == 0 {
            return CleanupPlan::Skip;
        }
        match days_earlier(now, days) {
            Some(cutoff) => CleanupPlan::RemoveBefore(cutoff),
            None => CleanupPlan::OutOfRange,
        }
    }
}

/// Whether `before` is what is stored of the session `session_id`, or the
/// snapshot of a new session where nothing is.
pub open spec fn is_starting_point(
    before: SnapshotView,
    stored: SnapshotRead,
    session_id: Seq<char>,
) -> bool {
    match stored {
        SnapshotRead::Read(snapshot) => before == snapshot@,
        SnapshotRead::Missing => is_new_snapshot(before, session_id),
        _ => false,
    }
}

/// Whether `result` is what updating the stored snapshot from `input` gives at a
/// time that the clock told.
pub open spec fn updates<F: Fn(Usd, Usd) -> Usd>(
    manager: ManagerView,
    input: Json,
    stored: SnapshotRead,
    surroundings: Surroundings,
    plus: F,
    result: Result<SessionSnapshot, UpdateError>,
) -> bool {
    if !manager.config.enable_cost_persistence {
        result is Ok && is_new_snapshot(result->Ok_0@, "disabled"@)
    } else if session_id_of(input) is None {
        result == Err::<SessionSnapshot, UpdateError>(UpdateError::MissingSessionId)
    } else if stored is Unreadable {
        result == Err::<SessionSnapshot, UpdateError>(UpdateError::SnapshotUnreadable)
    } else if stored is Malformed {
        result == Err::<SessionSnapshot, UpdateError>(UpdateError::SnapshotMalformed)
    } else {
        exists|before: SnapshotView, updated_at: UtcTime, created_at: UtcTime|
            updated_at.is_clock_time() && created_at.is_clock_time() && is_starting_point(
                before,
                stored,
                session_id_of(input)->0,
            ) && #[trigger] follows(
                before,
                session_id_of(input)->0,
                input,
                surroundings,
                updated_at,
                created_at,
                plus,
                result,
            )
    }
}

impl SessionFile {
    /// Whether the file is a session's that was last modified before `cutoff`.
    pub fn is_expired(&self, cutoff: &UtcTime) -> (expired: bool)
        ensures
            expired == has_expired(*self, *cutoff),
    {
        let is_session: bool = match &self.extension {
            Some(extension) => same_text(extension, "json"),
            None => false,
        };
        if !is_session {
            return false;
        }
        match &self.modified {
            Some(modified) => modified.precedes(cutoff),
            None => false,
        }
    }
}

} // verus!
