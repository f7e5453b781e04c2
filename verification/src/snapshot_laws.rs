//! What holds of snapshots: of the models that they list, of how they follow
//! their input, of where they are stored and of when they expire.

use vstd::prelude::*;

use crate::clock::{earlier_seconds, UtcTime};
use crate::config::{PathView, PathsView, StorageConfig, StoragePath, StoragePaths, StorageRoot};
use crate::cost::{cost_taken_in, has_room, metrics_of, no_cost_history};
use crate::document_laws::gives;
use crate::input::{
    cost_of, model_of, project_path_of, session_id_of, timestamp_of, transcript_path_of,
};
use crate::json::Json;
use crate::manager::{
    base_path, cleanup_at, expiry_days, has_expired, is_starting_point, layout, managed, project_of,
    session_path, updates, CleanupPlan, ManagerView, SessionFile, SnapshotRead, StorageEnv,
};
use crate::models::{is_first_with, model_id_of, model_name_of, models_observed};
use crate::sanitize::sanitized;
use crate::session::{
    is_new_snapshot, models_of, new_snapshot, no_history, no_transcript, tokens_of, ModelUsageEntry,
    ModelView, SessionHistory, SessionMeta, SessionSnapshot, SnapshotView,
};
use crate::text::text_of;
use crate::transcript::{transcript_taken_in, TranscriptError};
use crate::update::{follows, use_time, Surroundings, UpdateError};
use crate::usd::Usd;

verus! {

/// Whether a model document gives the name `name`: the text under one of two
/// spellings, or none where there is no text.
pub open spec fn gives_name(map: Map<Seq<char>, Json>, name: Option<Seq<char>>) -> bool {
    match name {
        Some(text) => gives(map, "display_name"@, "displayName"@, Json::Text(text)),
        None => forall|text: Seq<char>|
            !#[trigger] gives(map, "display_name"@, "displayName"@, Json::Text(text)),
    }
}

proof fn lemma_name_is_read(map: Map<Seq<char>, Json>, name: Option<Seq<char>>)
    requires
        gives_name(map, name),
    ensures
        model_name_of(Json::Object(map)) == name,
{
    let read = model_name_of(Json::Object(map));
    if let Some(text) = read {
        assert(gives(map, "display_name"@, "displayName"@, Json::Text(text)));
    }
}

/// Law: a model that is known is recorded where it stands, whatever its place.
/// It was last used at the time of the observation and has the name that was
/// observed; what was not observed stays. Every other entry is as before.
pub proof fn law_known_models_are_recorded_in_place(
    models: Seq<ModelView>,
    map: Map<Seq<char>, Json>,
    id: Seq<char>,
    name: Option<Seq<char>>,
    timestamp: Option<Seq<char>>,
    place: int,
)
    requires
        gives(map, "id"@, "model_id"@, Json::Text(id)),
        gives_name(map, name),
        0 <= place < models.len(),
        models[place].id == id,
        forall|j: int| 0 <= j < place ==> (#[trigger] models[j]).id != id,
    ensures
        ({
            let after = models_observed(models, Some(Json::Object(map)), timestamp);
            &&& after.len() == models.len()
            &&& after[place].id == id
            &&& timestamp is Some ==> after[place].last_used_at == timestamp
            &&& timestamp is None ==> after[place].last_used_at == models[place].last_used_at
            &&& name is Some ==> after[place].display_name == name
            &&& name is None ==> after[place].display_name == models[place].display_name
            &&& forall|j: int|
                0 <= j < models.len() && j != place ==> #[trigger] after[j] == models[j]
        }),
{
    lemma_name_is_read(map, name);
    assert(is_first_with(models, id, place));
    let first = choose|i: int| is_first_with(models, id, i);
    assert(first == place) by {
        assert(models[first].id == id);
    }
}

/// Law: a model that is not known is added behind the others, as it was
/// observed.
pub proof fn law_new_models_are_added_at_the_end(
    models: Seq<ModelView>,
    map: Map<Seq<char>, Json>,
    id: Seq<char>,
    name: Option<Seq<char>>,
    timestamp: Option<Seq<char>>,
)
    requires
        gives(map, "id"@, "model_id"@, Json::Text(id)),
        gives_name(map, name),
        forall|j: int| 0 <= j < models.len() ==> (#[trigger] models[j]).id != id,
    ensures
        ({
            let after = models_observed(models, Some(Json::Object(map)), timestamp);
            &&& after.len() == models.len() + 1
            &&& forall|j: int| 0 <= j < models.len() ==> #[trigger] after[j] == models[j]
            &&& after.last().id == id
            &&& after.last().display_name == name
            &&& after.last().last_used_at == timestamp
        }),
{
    lemma_name_is_read(map, name);
    if exists|i: int| is_first_with(models, id, i) {
        let i = choose|i: int| is_first_with(models, id, i);
        assert(models[i].id == id);
    }
}

/// Law: without a model document, or an id in it that is text, nothing is
/// observed.
pub proof fn law_models_without_an_id_are_passed_over(
    models: Seq<ModelView>,
    json: Json,
    map: Map<Seq<char>, Json>,
    timestamp: Option<Seq<char>>,
)
    ensures
        models_observed(models, None, timestamp) == models,
        !(json is Object) ==> models_observed(models, Some(json), timestamp) == models,
        (forall|id: Seq<char>| !#[trigger] gives(map, "id"@, "model_id"@, Json::Text(id)))
            ==> models_observed(models, Some(Json::Object(map)), timestamp) == models,
{
    if let Some(id) = model_id_of(Json::Object(map)) {
        assert(gives(map, "id"@, "model_id"@, Json::Text(id)));
    }
}

/// Law: the time at which a model was used is that of the input document or,
/// where that has none, that of the last message that is known.
pub proof fn law_use_time_is_told(snapshot: SnapshotView, input: Json)
    ensures
        timestamp_of(input) matches Some(time) ==> use_time(snapshot, input) == Some(time),
        timestamp_of(input) is None && snapshot.history.tokens is None ==> use_time(
            snapshot,
            input,
        ) is None,
        timestamp_of(input) is None ==> (snapshot.history.tokens matches Some(tokens) ==> use_time(
            snapshot,
            input,
        ) == tokens.last_timestamp),
{
}

/// Law: an updated snapshot is that of the session in each of its parts: its
/// metadata are those of the update, its document is the sanitized input, its
/// cost has taken in the cost document, its usage and its state are what the
/// transcript leaves, and its models those that were known with the one that was
/// observed.
pub proof fn law_updates_follow_the_input_in_every_part<F: Fn(Usd, Usd) -> Usd>(
    before: SnapshotView,
    session_id: Seq<char>,
    input: Json,
    surroundings: Surroundings,
    updated_at: UtcTime,
    created_at: UtcTime,
    plus: F,
    after: SessionSnapshot,
)
    requires
        follows(
            before,
            session_id,
            input,
            surroundings,
            updated_at,
            created_at,
            plus,
            Ok(after),
        ),
    ensures
        after@.meta.session_id == session_id,
        after@.meta.project_path == project_path_of(
            input,
            before.meta.project_path,
            text_of(surroundings.current_dir),
        ),
        after@.meta.last_update_time == Some(updated_at),
        before.meta.created_at is Some ==> after@.meta.created_at == before.meta.created_at,
        before.meta.created_at is None ==> after@.meta.created_at == Some(created_at),
        after@.latest == sanitized(input),
        cost_of(input) is None ==> after@.history.cost == before.history.cost,
        cost_of(input) matches Some(cost) ==> cost_taken_in(
            before.history.cost,
            metrics_of(cost),
            plus,
            after@.history.cost,
        ),
        transcript_path_of(input) is None ==> after@.history.tokens == before.history.tokens
            && after@.transcript_state == before.transcript_state,
        transcript_path_of(input) matches Some(path) ==> (transcript_taken_in(
            before,
            path,
            surroundings.transcript,
        ) matches Ok(read) && after@.history.tokens == read.history.tokens
            && after@.transcript_state == read.transcript_state),
        timestamp_of(input) is Some ==> after@.history.model_usage == models_observed(
            before.history.model_usage,
            model_of(input),
            timestamp_of(input),
        ),
        timestamp_of(input) is None ==> after@.history.model_usage == models_observed(
            before.history.model_usage,
            model_of(input),
            match after@.history.tokens {
                Some(tokens) => tokens.last_timestamp,
                None => None,
            },
        ),
{
}

/// Law: an update fails if and only if a counter overflows or the transcript
/// that the input names cannot be read, and says which.
pub proof fn law_updates_fail_for_a_reason<F: Fn(Usd, Usd) -> Usd>(
    before: SnapshotView,
    session_id: Seq<char>,
    input: Json,
    surroundings: Surroundings,
    updated_at: UtcTime,
    created_at: UtcTime,
    plus: F,
    result: Result<SessionSnapshot, UpdateError>,
)
    requires
        follows(
            before,
            session_id,
            input,
            surroundings,
            updated_at,
            created_at,
            plus,
            result,
        ),
    ensures
        cost_of(input) matches Some(cost) ==> (!has_room(before.history.cost, metrics_of(cost))
            ==> result == Err::<SessionSnapshot, UpdateError>(UpdateError::CounterOverflow)),
        (cost_of(input) matches Some(cost) ==> has_room(before.history.cost, metrics_of(cost)))
            && transcript_path_of(input) is None ==> result is Ok,
        (cost_of(input) matches Some(cost) ==> has_room(before.history.cost, metrics_of(cost)))
            ==> (transcript_path_of(input) matches Some(path) ==> match transcript_taken_in(
            before,
            path,
            surroundings.transcript,
        ) {
            Ok(_) => result is Ok,
            Err(TranscriptError::CounterOverflow) => result == Err::<SessionSnapshot, UpdateError>(
                UpdateError::CounterOverflow,
            ),
            Err(TranscriptError::Unreadable) => result == Err::<SessionSnapshot, UpdateError>(
                UpdateError::TranscriptUnreadable,
            ),
            Err(TranscriptError::NotUtf8) => result == Err::<SessionSnapshot, UpdateError>(
                UpdateError::TranscriptUnreadable,
            ),
        }),
{
}

/// Law: where persistence is disabled an update gives an empty snapshot, named
/// so, whatever the input and whatever is stored.
pub proof fn law_disabled_updates_give_an_empty_snapshot<F: Fn(Usd, Usd) -> Usd>(
    manager: ManagerView,
    input: Json,
    stored: SnapshotRead,
    surroundings: Surroundings,
    plus: F,
    result: Result<SessionSnapshot, UpdateError>,
)
    requires
        updates(manager, input, stored, surroundings, plus, result),
        !manager.config.enable_cost_persistence,
    ensures
        result matches Ok(snapshot) && snapshot@.meta.session_id == "disabled"@
            && snapshot@.meta.project_path is None && snapshot@.latest == Json::Null
            && snapshot@.history.tokens is None && snapshot@.history.model_usage.len() == 0
            && snapshot@.history.cost == no_cost_history() && snapshot@.transcript_state
            == no_transcript(),
{
}

/// Law: where persistence is enabled, an input that names no session is refused,
/// and so is what is stored where it cannot be read or is no snapshot.
pub proof fn law_updates_are_refused_for_a_reason<F: Fn(Usd, Usd) -> Usd>(
    manager: ManagerView,
    input: Json,
    stored: SnapshotRead,
    surroundings: Surroundings,
    plus: F,
    result: Result<SessionSnapshot, UpdateError>,
)
    requires
        updates(manager, input, stored, surroundings, plus, result),
        manager.config.enable_cost_persistence,
    ensures
        session_id_of(input) is None <==> result == Err::<SessionSnapshot, UpdateError>(
            UpdateError::MissingSessionId,
        ),
        session_id_of(input) is Some && stored is Unreadable <==> result == Err::<
            SessionSnapshot,
            UpdateError,
        >(UpdateError::SnapshotUnreadable),
        session_id_of(input) is Some && stored is Malformed <==> result == Err::<
            SessionSnapshot,
            UpdateError,
        >(UpdateError::SnapshotMalformed),
{
}

/// Law: an update follows what is stored of the session that the input names,
/// and a new snapshot of that session where nothing is stored.
pub proof fn law_updates_start_from_what_is_stored<F: Fn(Usd, Usd) -> Usd>(
    manager: ManagerView,
    input: Json,
    stored: SnapshotRead,
    surroundings: Surroundings,
    plus: F,
    result: Result<SessionSnapshot, UpdateError>,
)
    requires
        updates(manager, input, stored, surroundings, plus, result),
        manager.config.enable_cost_persistence,
        session_id_of(input) is Some,
    ensures
        stored matches SnapshotRead::Read(snapshot) ==> exists|
            updated_at: UtcTime,
            created_at: UtcTime,
        |
            updated_at.is_clock_time() && created_at.is_clock_time() && #[trigger] follows(
                snapshot@,
                session_id_of(input)->0,
                input,
                surroundings,
                updated_at,
                created_at,
                plus,
                result,
            ),
        stored is Missing ==> exists|
            before: SnapshotView,
            updated_at: UtcTime,
            created_at: UtcTime,
        |
            before.history == no_history() && before.transcript_state == no_transcript()
                && before.meta.project_path is None && before.meta.created_at is Some
                && updated_at.is_clock_time() && #[trigger] follows(
                before,
                session_id_of(input)->0,
                input,
                surroundings,
                updated_at,
                created_at,
                plus,
                result,
            ),
{
    let (before, updated_at, created_at) = choose|
        before: SnapshotView,
        updated_at: UtcTime,
        created_at: UtcTime,
    |
        updated_at.is_clock_time() && created_at.is_clock_time() && is_starting_point(
            before,
            stored,
            session_id_of(input)->0,
        ) && #[trigger] follows(
            before,
            session_id_of(input)->0,
            input,
            surroundings,
            updated_at,
            created_at,
            plus,
            result,
        );
    if stored is Read || stored is Missing {
        assert(follows(
            before,
            session_id_of(input)->0,
            input,
            surroundings,
            updated_at,
            created_at,
            plus,
            result,
        ));
    }
}

/// Law: nothing has happened in a new session but that it was created, at times
/// that the clock told.
pub proof fn law_new_sessions_are_empty(
    snapshot: SnapshotView,
    session_id: Seq<char>,
    created_at: UtcTime,
    updated_at: UtcTime,
)
    ensures
        new_snapshot(session_id, created_at, updated_at).meta.session_id == session_id,
        new_snapshot(session_id, created_at, updated_at).meta.created_at == Some(created_at),
        new_snapshot(session_id, created_at, updated_at).meta.last_update_time == Some(updated_at),
        new_snapshot(session_id, created_at, updated_at).meta.project_path is None,
        new_snapshot(session_id, created_at, updated_at).latest == Json::Null,
        new_snapshot(session_id, created_at, updated_at).history.tokens is None,
        new_snapshot(session_id, created_at, updated_at).history.model_usage.len() == 0,
        new_snapshot(session_id, created_at, updated_at).history.cost == no_cost_history(),
        new_snapshot(session_id, created_at, updated_at).transcript_state == no_transcript(),
        is_new_snapshot(snapshot, session_id) ==> (snapshot.meta.created_at matches Some(created)
            && (snapshot.meta.last_update_time matches Some(updated) && 0 <= created.seconds
            && created.nanos < 1_000_000_000 && 0 <= updated.seconds && updated.nanos
            < 1_000_000_000 && snapshot == new_snapshot(session_id, created, updated))),
{
}

/// Law: a snapshot is seen part by part and field by field.
pub proof fn law_snapshots_are_seen(
    snapshot: SessionSnapshot,
    meta: SessionMeta,
    history: SessionHistory,
    entry: ModelUsageEntry,
    entries: Seq<ModelUsageEntry>,
)
    ensures
        snapshot@.meta == snapshot.meta@,
        snapshot@.latest == snapshot.latest@,
        snapshot@.history == snapshot.history@,
        snapshot@.transcript_state == snapshot.transcript_state@,
        meta@.session_id == meta.session_id@,
        meta.project_path is None ==> meta@.project_path is None,
        meta.project_path matches Some(path) ==> meta@.project_path == Some(path@),
        meta@.created_at == meta.created_at,
        meta@.last_update_time == meta.last_update_time,
        history@.cost == history.cost,
        history@.tokens == tokens_of(history.tokens),
        history@.model_usage == models_of(history.model_usage@),
        models_of(entries).len() == entries.len(),
        forall|i: int| 0 <= i < entries.len() ==> #[trigger] models_of(entries)[i] == entries[i]@,
        entry@.id == entry.id@,
        entry.display_name is None ==> entry@.display_name is None,
        entry.display_name matches Some(name) ==> entry@.display_name == Some(name@),
        entry.last_used_at is None ==> entry@.last_used_at is None,
        entry.last_used_at matches Some(time) ==> entry@.last_used_at == Some(time@),
{
}

/// Law: everything is stored under the configured directory, and where none is
/// configured under the default one in the home directory, or in the working
/// directory where no home is known.
pub proof fn law_base_is_configured_or_the_default(config: StorageConfig, env: StorageEnv)
    ensures
        config.storage_path matches Some(path) ==> base_path(config, env).root
            == StorageRoot::Directory(path) && base_path(config, env).segments.len() == 0,
        config.storage_path is None ==> base_path(config, env).segments
            == seq![env.default_dir@],
        config.storage_path is None ==> (env.home_dir matches Some(home) ==> base_path(
            config,
            env,
        ).root == StorageRoot::Directory(home)),
        config.storage_path is None && env.home_dir is None ==> base_path(config, env).root
            == StorageRoot::Working,
{
}

/// Law: the user's paths lie in the base directory and the project's in the
/// project's own directory there; the project goes in as it is.
pub proof fn law_paths_are_laid_out(base: PathView, project: Seq<char>)
    ensures
        layout(base, project).user_config_dir.segments == base.segments + seq!["statusline-pro"@],
        layout(base, project).user_config_path.segments == base.segments
            + seq!["statusline-pro"@, "config.toml"@],
        layout(base, project).project_config_dir.segments == base.segments
            + seq!["projects"@, project, "statusline-pro"@],
        layout(base, project).project_config_path.segments == base.segments
            + seq!["projects"@, project, "statusline-pro"@, "config.toml"@],
        layout(base, project).sessions_dir.segments == base.segments
            + seq!["projects"@, project, "statusline-pro"@, "sessions"@],
        layout(base, project).user_config_dir.root == base.root,
        layout(base, project).user_config_path.root == base.root,
        layout(base, project).project_config_dir.root == base.root,
        layout(base, project).project_config_path.root == base.root,
        layout(base, project).sessions_dir.root == base.root,
{
}

/// Law: the snapshot of a session lies in the sessions directory, in a file that
/// is named by the session's id and ends in `.json`.
pub proof fn law_session_file_is_named_by_its_id(paths: PathsView, session_id: Seq<char>)
    ensures
        session_path(paths, session_id).root == paths.sessions_dir.root,
        session_path(paths, session_id).segments == paths.sessions_dir.segments + seq![
            session_id + ".json"@,
        ],
{
}

/// Law: a manager holds what it was given, and its paths are those of its
/// project, or of the global one where none was given.
pub proof fn law_managers_hold_what_they_were_given(
    config: StorageConfig,
    project_id: Option<Seq<char>>,
    env: StorageEnv,
)
    ensures
        managed(config, project_id, env).config == config,
        managed(config, project_id, env).project_id == project_id,
        project_id matches Some(id) ==> managed(config, project_id, env).paths == layout(
            base_path(config, env),
            id,
        ) && project_of(project_id, env) == id,
        project_id is None ==> managed(config, project_id, env).paths == layout(
            base_path(config, env),
            env.global_project_id@,
        ) && project_of(project_id, env) == env.global_project_id@,
{
}

/// Law: paths are seen segment by segment.
pub proof fn law_paths_are_seen(path: StoragePath, paths: StoragePaths, segment: Seq<char>)
    ensures
        path@.root == path.root,
        path@.segments.len() == path.segments@.len(),
        forall|i: int|
            0 <= i < path.segments@.len() ==> #[trigger] path@.segments[i] == path.segments@[i]@,
        path@.join(segment).root == path@.root,
        path@.join(segment).segments == path@.segments + seq![segment],
        paths@.user_config_dir == paths.user_config_dir@,
        paths@.project_config_dir == paths.project_config_dir@,
        paths@.sessions_dir == paths.sessions_dir@,
        paths@.user_config_path == paths.user_config_path@,
        paths@.project_config_path == paths.project_config_path@,
{
}

/// Law: of two different moments one comes before the other; none comes before
/// itself, and the order is transitive. Seconds decide, and nanoseconds where
/// the seconds are the same.
pub proof fn law_moments_are_ordered(a: UtcTime, b: UtcTime, c: UtcTime)
    ensures
        !a.is_before(a),
        a.is_before(b) ==> !b.is_before(a),
        a == b || a.is_before(b) || b.is_before(a),
        a.is_before(b) && b.is_before(c) ==> a.is_before(c),
        a.seconds < b.seconds ==> a.is_before(b),
        a.seconds == b.seconds ==> (a.is_before(b) <==> a.nanos < b.nanos),
{
}

/// Law: the clock tells moments of dates since the epoch.
pub proof fn law_clock_tells_moments_of_dates(time: UtcTime, days: u32)
    ensures
        time.is_clock_time() <==> 0 <= time.seconds <= 8_210_266_876_799 && time.nanos
            < 1_000_000_000,
        time.has_date() <==> -8_334_601_228_800 <= time.seconds <= 8_210_266_876_799,
        earlier_seconds(time, days) + days * 86_400 == time.seconds,
{
}

/// Law: nothing is removed unless cleaning up is enabled and there is a window
/// of at least a day. Then the cutoff lies exactly that many days back, and the
/// window is out of range where there is no date.
pub proof fn law_cutoff_lies_the_window_back(config: StorageConfig, now: UtcTime, days: u32)
    ensures
        !config.enable_startup_cleanup ==> cleanup_at(config, now) == CleanupPlan::Skip
            && expiry_days(config) is None,
        config.session_expiry_days is None ==> cleanup_at(config, now) == CleanupPlan::Skip
            && expiry_days(config) is None,
        config.session_expiry_days == Some(0u32) ==> cleanup_at(config, now) == CleanupPlan::Skip
            && expiry_days(config) is None,
        config.enable_startup_cleanup && config.session_expiry_days == Some(days) && days > 0
            ==> expiry_days(config) == Some(days) && if -8_334_601_228_800 <= now.seconds
            <= 8_210_266_876_799 && now.seconds - days * 86_400 >= -8_334_601_228_800 {
            cleanup_at(config, now) matches CleanupPlan::RemoveBefore(cutoff) && cutoff.seconds
                == now.seconds - days * 86_400 && cutoff.nanos == now.nanos
        } else {
            cleanup_at(config, now) == CleanupPlan::OutOfRange
        },
{
}

/// Law: a file has expired if and only if its extension is `json` and it was
/// last modified, at a known time, before the cutoff.
pub proof fn law_expired_files_are_old_snapshots(file: SessionFile, cutoff: UtcTime)
    ensures
        file.extension is None ==> !has_expired(file, cutoff),
        file.modified is None ==> !has_expired(file, cutoff),
        file.extension matches Some(extension) ==> (file.modified matches Some(modified) ==> (
        has_expired(file, cutoff) <==> extension@ == "json"@ && (modified.seconds < cutoff.seconds
            || modified.seconds == cutoff.seconds && modified.nanos < cutoff.nanos))),
{
}

/// Law: a longer window removes no more.
pub proof fn law_longer_windows_keep_more(
    short: StorageConfig,
    long: StorageConfig,
    now: UtcTime,
    file: SessionFile,
)
    requires
        short.session_expiry_days is Some,
        long.session_expiry_days is Some,
        0 < short.session_expiry_days->0 <= long.session_expiry_days->0,
        cleanup_at(short, now) is RemoveBefore,
        cleanup_at(long, now) is RemoveBefore,
        has_expired(file, cleanup_at(long, now)->RemoveBefore_0),
    ensures
        has_expired(file, cleanup_at(short, now)->RemoveBefore_0),
{
}

} // verus!
