//! What holds across the operations on a snapshot.

use vstd::prelude::*;
use vstd::utf8::decode_utf8;

use crate::clock::{UtcTime, SECONDS_PER_DAY};
use crate::config::{PathsView, StorageConfig};
use crate::cost::{cost_taken_in, CostHistory, CostMetrics};
use crate::document::parsed_json;
use crate::input::{cost_of, model_of, project_path_of, session_id_of, transcript_path_of};
use crate::json::Json;
use crate::manager::{
    cleanup_at, expiry_days, has_expired, session_path, updates, ManagerView, SessionFile,
    SnapshotRead,
};
use crate::models::{is_first_with, model_id_of, models_observed};
use crate::sanitize::{is_clean, law_sanitized_is_clean};
use crate::session::{
    is_new_snapshot, HistoryView, MetaView, ModelView, SessionSnapshot, SnapshotView, TokenView,
};
use crate::text::{text_of, trimmed};
use crate::transcript::{
    baseline_of, is_summary, law_lines_in_parts, law_lines_of_parts, law_tokens_stay_known,
    line_taken_in, lines, lines_taken_in, message_tokens, resumed, starts_over, tokens_after, transcript_taken_in,
    with_progress, ProgressView, TranscriptError, TranscriptRead, NEWLINE,
};
use crate::update::{
    described, follows, transcript_followed, use_time, Surroundings, UpdateError,
};
use crate::usd::Usd;

verus! {

/// Law: a summary starts the conversation over. No tokens are in use after it,
/// and there is neither a last message nor a baseline.
pub proof fn law_summary_starts_over(tokens: Option<TokenView>, json: Json)
    requires
        is_summary(json),
    ensures
        tokens_after(tokens, json) matches Ok(Some(after)) && after.input == 0 && after.output == 0
            && after.cache_creation_input == 0 && after.cache_read_input == 0
            && after.context_used == 0 && after.last_message_uuid is None
            && after.system_baseline is None,
{
}

/// Law: the first message that reports usage sets the baseline to its input
/// tokens, and no later one changes it.
pub proof fn law_baseline_is_set_once(tokens: Option<TokenView>, json: Json)
    requires
        !is_summary(json),
        message_tokens(json) is Some,
    ensures
        tokens_after(tokens, json) matches Ok(after) ==> baseline_of(after) == match baseline_of(
            tokens,
        ) {
            Some(baseline) => Some(baseline),
            None => Some(message_tokens(json)->0.input),
        },
{
}

/// Whether the line `line` is the summary that replaces a compacted
/// conversation.
pub open spec fn is_summary_line(line: Seq<u8>) -> bool {
    let text = trimmed(decode_utf8(line));
    text.len() > 0 && (parsed_json(text) matches Some(json) && is_summary(json))
}

/// Law: the baseline outlives any number of lines among which there is no
/// summary.
pub proof fn law_baseline_is_kept(progress: ProgressView, text: Seq<Seq<u8>>)
    requires
        baseline_of(progress.tokens) is Some,
    ensures
        (forall|i: int| 0 <= i < text.len() ==> !is_summary_line(#[trigger] text[i])) ==> (
        lines_taken_in(progress, text) matches Ok(after) ==> baseline_of(after.tokens)
            == baseline_of(progress.tokens)),
    decreases text.len(),
{
    if text.len() > 0 {
        law_baseline_is_kept(progress, text.drop_last());
        assert forall|i: int|
            0 <= i < text.drop_last().len() && !is_summary_line(text[i]) implies !is_summary_line(
            #[trigger] text.drop_last()[i],
        ) by {
            assert(text.drop_last()[i] == text[i]);
        }
        assert(text.last() == text[text.len() - 1]);
    }
}

/// The progress before anything has been read.
pub open spec fn no_progress() -> ProgressView {
    ProgressView { offset: 0, messages: 0, tokens: None }
}

/// From the same token usage, lines that can be taken in late can be taken in
/// early, and leave the same token usage.
proof fn lemma_early_as_late(late: ProgressView, early: ProgressView, text: Seq<Seq<u8>>)
    requires
        early.tokens == late.tokens,
        early.offset <= late.offset,
        early.messages <= late.messages,
    ensures
        lines_taken_in(late, text) matches Ok(after) ==> (lines_taken_in(early, text) matches Ok(
            before,
        ) && before.tokens == after.tokens && before.offset <= after.offset && before.messages
            <= after.messages),
    decreases text.len(),
{
    if text.len() > 0 {
        lemma_early_as_late(late, early, text.drop_last());
    }
}

/// Law: a summary makes what comes before it irrelevant. The token usage after
/// a transcript is what the transcript would leave if it began with the summary
/// and nothing had been known before.
pub proof fn law_summary_wipes_what_came_before(
    progress: ProgressView,
    before: Seq<u8>,
    summary: Seq<u8>,
    rest: Seq<u8>,
)
    requires
        before.len() == 0 || before.last() == NEWLINE,
        lines(summary) == seq![summary],
        summary.last() == NEWLINE || rest.len() == 0,
    ensures
        is_summary_line(summary) ==> (lines_taken_in(progress, lines(before + summary + rest))
            matches Ok(after) ==> (lines_taken_in(no_progress(), lines(summary + rest)) matches Ok(
            alone,
        ) && alone.tokens == after.tokens)),
{
    let one = seq![summary];
    assert(lines(summary + rest) == one + lines(rest)) by {
        if rest.len() == 0 {
            assert(summary + rest =~= summary);
            assert(one + lines(rest) =~= one);
        } else {
            law_lines_of_parts(summary, rest);
        }
    }
    assert(before + summary + rest =~= before + (summary + rest));
    law_lines_of_parts(before, summary + rest);
    law_lines_in_parts(progress, lines(before), one + lines(rest));
    law_lines_in_parts(no_progress(), one, lines(rest));
    reveal_with_fuel(lines_taken_in, 2);
    assert(one.drop_last() =~= Seq::empty());
    if is_summary_line(summary) {
        if let Ok(middle) = lines_taken_in(progress, lines(before)) {
            law_lines_in_parts(middle, one, lines(rest));
            assert(lines_taken_in(middle, one) == line_taken_in(middle, summary));
            assert(lines_taken_in(no_progress(), one) == line_taken_in(no_progress(), summary));
            if let Ok(late) = line_taken_in(middle, summary) {
                if let Ok(early) = line_taken_in(no_progress(), summary) {
                    lemma_early_as_late(late, early, lines(rest));
                }
            }
        }
    }
}

/// Whether the tokens in use are those that the four counts add up to.
pub open spec fn adds_up(tokens: Option<TokenView>) -> bool {
    tokens matches Some(tokens) ==> tokens.context_used == tokens.input + tokens.output
        + tokens.cache_creation_input + tokens.cache_read_input
}

/// Law: the tokens in use are always those that the four counts add up to.
pub proof fn law_context_adds_up(progress: ProgressView, text: Seq<Seq<u8>>)
    requires
        adds_up(progress.tokens),
    ensures
        lines_taken_in(progress, text) matches Ok(after) ==> adds_up(after.tokens),
    decreases text.len(),
{
    if text.len() > 0 {
        law_context_adds_up(progress, text.drop_last());
    }
}

/// The bytes of all lines together.
pub open spec fn total_size(text: Seq<Seq<u8>>) -> nat
    decreases text.len(),
{
    if text.len() == 0 {
        0
    } else {
        total_size(text.drop_last()) + text.last().len()
    }
}

/// Law: no byte of a text is lost or counted twice when it is cut into lines.
pub proof fn law_lines_hold_every_byte(bytes: Seq<u8>)
    ensures
        total_size(lines(bytes)) == bytes.len(),
    decreases bytes.len(),
{
    if bytes.len() > 0 {
        law_lines_hold_every_byte(bytes.drop_last());
        let before = lines(bytes.drop_last());
        if before.len() == 0 || before.last().last() == NEWLINE {
            assert(lines(bytes).drop_last() =~= before);
        } else {
            assert(lines(bytes).drop_last() =~= before.drop_last());
        }
    }
}

proof fn lemma_offset_counts_lines(progress: ProgressView, text: Seq<Seq<u8>>)
    ensures
        lines_taken_in(progress, text) matches Ok(after) ==> after.offset == progress.offset
            + total_size(text),
    decreases text.len(),
{
    if text.len() > 0 {
        lemma_offset_counts_lines(progress, text.drop_last());
    }
}

/// Law: the offset moves on by exactly what was read.
pub proof fn law_offset_counts_bytes(progress: ProgressView, bytes: Seq<u8>)
    ensures
        lines_taken_in(progress, lines(bytes)) matches Ok(after) ==> after.offset
            == progress.offset + bytes.len(),
{
    law_lines_hold_every_byte(bytes);
    lemma_offset_counts_lines(progress, lines(bytes));
}

/// Law: reading a transcript up to the end of a line and, once it has grown,
/// the rest of it leaves the same snapshot as reading all of it at once.
pub proof fn law_reading_in_installments(
    snapshot: SnapshotView,
    path: Seq<char>,
    first_len: u64,
    first: Vec<u8>,
    full_len: u64,
    rest: Vec<u8>,
    whole: Vec<u8>,
)
    requires
        first@.len() == 0 || first@.last() == NEWLINE,
        whole@ == first@ + rest@,
        starts_over(snapshot.transcript_state, path, first_len) == starts_over(
            snapshot.transcript_state,
            path,
            full_len,
        ),
        resumed(snapshot, path, full_len).offset + whole@.len() == full_len,
    ensures
        transcript_taken_in(
            snapshot,
            path,
            TranscriptRead::Unread { file_len: full_len, bytes: whole },
        ) == match transcript_taken_in(
            snapshot,
            path,
            TranscriptRead::Unread { file_len: first_len, bytes: first },
        ) {
            Ok(between) => transcript_taken_in(
                between,
                path,
                TranscriptRead::Unread { file_len: full_len, bytes: rest },
            ),
            Err(error) => Err(error),
        },
{
    let start = resumed(snapshot, path, first_len);
    law_lines_of_parts(first@, rest@);
    law_lines_in_parts(start, lines(first@), lines(rest@));
    law_offset_counts_bytes(start, first@);
    match lines_taken_in(start, lines(first@)) {
        Ok(middle) => {
            let between = with_progress(snapshot, path, middle);
            assert(resumed(between, path, full_len) == middle);
            if middle.tokens is Some {
                law_tokens_stay_known(middle, lines(rest@));
            }
        },
        Err(_) => {},
    }
}

/// Law: reading a transcript that has not grown changes nothing.
pub proof fn law_nothing_new_changes_nothing(
    snapshot: SnapshotView,
    path: Seq<char>,
    file_len: u64,
    bytes: Vec<u8>,
)
    requires
        bytes@.len() == 0,
        !starts_over(snapshot.transcript_state, path, file_len),
        is_in_line(snapshot),
    ensures
        transcript_taken_in(snapshot, path, TranscriptRead::Unread { file_len, bytes }) == Ok::<
            SnapshotView,
            TranscriptError,
        >(snapshot),
{
}

/// Whether the state of processing names the message that the token usage comes
/// from.
pub open spec fn is_in_line(snapshot: SnapshotView) -> bool {
    snapshot.history.tokens matches Some(tokens) ==> snapshot.transcript_state.last_message_uuid
        == tokens.last_message_uuid && snapshot.transcript_state.last_timestamp
        == tokens.last_timestamp
}

/// Law: the totals never fall. What a cycle has counted stays counted when the
/// next one begins.
pub proof fn law_totals_never_fall<F: Fn(Usd, Usd) -> Usd>(
    before: CostHistory,
    new: CostMetrics,
    plus: F,
    after: CostHistory,
)
    requires
        cost_taken_in(before, new, plus, after),
        totals_add_up(before),
    ensures
        totals_add_up(after),
        before.total.total_duration_ms <= after.total.total_duration_ms,
        before.total.total_api_duration_ms <= after.total.total_api_duration_ms,
        before.total.total_lines_added <= after.total.total_lines_added,
        before.total.total_lines_removed <= after.total.total_lines_removed,
{
}

/// Whether each counter's total is what the running cycle and the cycles before
/// it have counted.
pub open spec fn totals_add_up(history: CostHistory) -> bool {
    &&& history.total.total_duration_ms == history.current.total_duration_ms
        + history.accumulated.total_duration_ms
    &&& history.total.total_api_duration_ms == history.current.total_api_duration_ms
        + history.accumulated.total_api_duration_ms
    &&& history.total.total_lines_added == history.current.total_lines_added
        + history.accumulated.total_lines_added
    &&& history.total.total_lines_removed == history.current.total_lines_removed
        + history.accumulated.total_lines_removed
}

/// Whether `plus` gives the amounts `a` and `b` no more than one sum.
pub open spec fn has_one_sum<F: Fn(Usd, Usd) -> Usd>(plus: F, a: Usd, b: Usd) -> bool {
    forall|x: Usd, y: Usd| #[trigger]
        call_ensures(plus, (a, b), x) && #[trigger] call_ensures(plus, (a, b), y) ==> x == y
}

/// Law: metrics that arrive twice are counted once. Of the dollar total this
/// holds where its two amounts have one sum.
pub proof fn law_repeated_metrics_count_once<F: Fn(Usd, Usd) -> Usd>(
    before: CostHistory,
    new: CostMetrics,
    plus: F,
    once: CostHistory,
    twice: CostHistory,
)
    requires
        cost_taken_in(before, new, plus, once),
        cost_taken_in(once, new, plus, twice),
    ensures
        twice.current == once.current,
        twice.accumulated == once.accumulated,
        twice.total.total_duration_ms == once.total.total_duration_ms,
        twice.total.total_api_duration_ms == once.total.total_api_duration_ms,
        twice.total.total_lines_added == once.total.total_lines_added,
        twice.total.total_lines_removed == once.total.total_lines_removed,
        has_one_sum(plus, new.total_cost_usd, once.accumulated.total_cost_usd) ==> twice == once,
{
}

/// Whether no two of the models have the same id.
pub open spec fn ids_are_distinct(models: Seq<ModelView>) -> bool {
    forall|i: int, j: int|
        0 <= i < models.len() && 0 <= j < models.len() && i != j ==> (#[trigger] models[i]).id != (
        #[trigger] models[j]).id
}

proof fn lemma_first_exists(models: Seq<ModelView>, id: Seq<char>, i: int)
    requires
        0 <= i < models.len(),
        models[i].id == id,
    ensures
        exists|j: int| is_first_with(models, id, j),
    decreases i,
{
    if exists|j: int| 0 <= j < i && (#[trigger] models[j]).id == id {
        let j = choose|j: int| 0 <= j < i && (#[trigger] models[j]).id == id;
        lemma_first_exists(models, id, j);
    } else {
        assert(is_first_with(models, id, i));
    }
}

/// Law: each model is listed once, however often it is observed.
pub proof fn law_models_are_listed_once(
    models: Seq<ModelView>,
    model: Option<Json>,
    timestamp: Option<Seq<char>>,
)
    requires
        ids_are_distinct(models),
    ensures
        ids_are_distinct(models_observed(models, model, timestamp)),
{
    let after = models_observed(models, model, timestamp);
    if model is Some && model_id_of(model->0) is Some {
        let id = model_id_of(model->0)->0;
        if exists|i: int| is_first_with(models, id, i) {
            assert forall|i: int, j: int|
                0 <= i < after.len() && 0 <= j < after.len() && i != j implies (
            #[trigger] after[i]).id != (#[trigger] after[j]).id by {
                assert(after[i].id == models[i].id && after[j].id == models[j].id);
            }
        } else {
            assert forall|i: int| 0 <= i < models.len() implies (#[trigger] models[i]).id != id by {
                if models[i].id == id {
                    lemma_first_exists(models, id, i);
                }
            }
        }
    }
}

/// Law: no model is forgotten or moved.
pub proof fn law_models_keep_their_places(
    models: Seq<ModelView>,
    model: Option<Json>,
    timestamp: Option<Seq<char>>,
)
    ensures
        models.len() <= models_observed(models, model, timestamp).len() <= models.len() + 1,
        forall|i: int|
            0 <= i < models.len() ==> (#[trigger] models_observed(models, model, timestamp)[i]).id
                == models[i].id,
{
}

/// Law: observing a model again with the same name at the same time changes
/// nothing.
pub proof fn law_observing_is_idempotent(
    models: Seq<ModelView>,
    model: Option<Json>,
    timestamp: Option<Seq<char>>,
)
    ensures
        models_observed(models_observed(models, model, timestamp), model, timestamp)
            == models_observed(models, model, timestamp),
{
    let once = models_observed(models, model, timestamp);
    if model is Some && model_id_of(model->0) is Some {
        let id = model_id_of(model->0)->0;
        let place: int = if exists|i: int| is_first_with(models, id, i) {
            choose|i: int| is_first_with(models, id, i)
        } else {
            models.len() as int
        };
        assert forall|j: int| 0 <= j < place implies (#[trigger] once[j]).id != id by {
            assert(once[j] == models[j]);
            if place == models.len() && models[j].id == id {
                lemma_first_exists(models, id, j);
            }
        }
        assert(is_first_with(once, id, place));
        let again = choose|i: int| is_first_with(once, id, i);
        assert(again == place) by {
            assert(once[again].id == id && once[place].id == id);
        }
        assert(models_observed(once, model, timestamp) =~= once);
    }
}

/// Law: an update stays with the session that the input document names, so the
/// snapshot is written to the file from which it was loaded.
pub proof fn law_written_where_read<F: Fn(Usd, Usd) -> Usd>(
    manager: ManagerView,
    input: Json,
    stored: SnapshotRead,
    surroundings: Surroundings,
    plus: F,
    result: Result<SessionSnapshot, UpdateError>,
)
    requires
        manager.config.enable_cost_persistence,
        updates(manager, input, stored, surroundings, plus, result),
        result is Ok,
    ensures
        session_id_of(input) is Some,
        session_path(manager.paths, result->Ok_0@.meta.session_id) == session_path(
            manager.paths,
            session_id_of(input)->0,
        ),
{
}

/// Law: the paths of two sessions end in different segments. Where the ids are
/// plain file names, the sessions therefore have different files.
pub proof fn law_sessions_have_their_own_files(
    paths: PathsView,
    first: Seq<char>,
    second: Seq<char>,
)
    requires
        first != second,
    ensures
        session_path(paths, first).segments.last() != session_path(paths, second).segments.last(),
{
    let suffix = ".json"@;
    if first + suffix == second + suffix {
        assert((first + suffix).len() == (second + suffix).len());
        assert(first =~= (first + suffix).take(first.len() as int));
        assert(second =~= (second + suffix).take(second.len() as int));
    }
}

/// Law: the time of creation is set once, and the time of the last update with
/// every update.
pub proof fn law_creation_time_is_kept<F: Fn(Usd, Usd) -> Usd>(
    before: SnapshotView,
    session_id: Seq<char>,
    input: Json,
    surroundings: Surroundings,
    updated_at: UtcTime,
    created_at: UtcTime,
    plus: F,
    result: Result<SessionSnapshot, UpdateError>,
)
    requires
        follows(
            before,
            session_id,
            input,
            surroundings,
            updated_at,
            created_at,
            plus,
            result,
        ),
    ensures
        result matches Ok(after) ==> after@.meta.last_update_time == Some(updated_at)
            && after@.meta.created_at == match before.meta.created_at {
            Some(time) => Some(time),
            None => Some(created_at),
        },
{
}

/// Law: the path of the project, once known, is not forgotten.
pub proof fn law_project_path_is_kept(
    input: Json,
    existing: Option<Seq<char>>,
    current_dir: Option<Seq<char>>,
)
    requires
        existing is Some,
    ensures
        project_path_of(input, existing, current_dir) is Some,
{
}

/// Law: what an input document does not speak of stays as it is: the cost
/// without a cost document, the token usage without a transcript, the models
/// without a model document.
pub proof fn law_the_unmentioned_stays<F: Fn(Usd, Usd) -> Usd>(
    before: SnapshotView,
    session_id: Seq<char>,
    input: Json,
    surroundings: Surroundings,
    updated_at: UtcTime,
    created_at: UtcTime,
    plus: F,
    result: Result<SessionSnapshot, UpdateError>,
)
    requires
        follows(
            before,
            session_id,
            input,
            surroundings,
            updated_at,
            created_at,
            plus,
            result,
        ),
        result is Ok,
    ensures
        cost_of(input) is None ==> result->Ok_0@.history.cost == before.history.cost,
        transcript_path_of(input) is None ==> result->Ok_0@.history.tokens
            == before.history.tokens && result->Ok_0@.transcript_state == before.transcript_state,
        model_of(input) is None ==> result->Ok_0@.history.model_usage
            == before.history.model_usage,
{
}

/// Law: a snapshot holds nothing of the input document that is to be dropped.
pub proof fn law_latest_document_is_clean<F: Fn(Usd, Usd) -> Usd>(
    before: SnapshotView,
    session_id: Seq<char>,
    input: Json,
    surroundings: Surroundings,
    updated_at: UtcTime,
    created_at: UtcTime,
    plus: F,
    result: Result<SessionSnapshot, UpdateError>,
)
    requires
        follows(
            before,
            session_id,
            input,
            surroundings,
            updated_at,
            created_at,
            plus,
            result,
        ),
    ensures
        result matches Ok(after) ==> is_clean(after@.latest, false),
{
    law_sanitized_is_clean(input);
}

/// Whether the parts of a snapshot agree with each other.
pub open spec fn is_sound(snapshot: SnapshotView) -> bool {
    &&& totals_add_up(snapshot.history.cost)
    &&& adds_up(snapshot.history.tokens)
    &&& is_in_line(snapshot)
    &&& ids_are_distinct(snapshot.history.model_usage)
    &&& is_clean(snapshot.latest, false)
}

/// Law: the snapshot of a new session is sound.
pub proof fn law_new_snapshot_is_sound(snapshot: SnapshotView, session_id: Seq<char>)
    requires
        is_new_snapshot(snapshot, session_id),
    ensures
        is_sound(snapshot),
{
}

/// Law: a sound snapshot stays sound whatever it follows.
pub proof fn law_updates_keep_a_snapshot_sound<F: Fn(Usd, Usd) -> Usd>(
    before: SnapshotView,
    session_id: Seq<char>,
    input: Json,
    surroundings: Surroundings,
    updated_at: UtcTime,
    created_at: UtcTime,
    plus: F,
    result: Result<SessionSnapshot, UpdateError>,
)
    requires
        follows(
            before,
            session_id,
            input,
            surroundings,
            updated_at,
            created_at,
            plus,
            result,
        ),
        is_sound(before),
    ensures
        result matches Ok(after) ==> is_sound(after@),
{
    if let Ok(after) = result {
        let middle = described(
            before,
            session_id,
            input,
            text_of(surroundings.current_dir),
            updated_at,
            created_at,
            after@.history.cost,
        );
        law_sanitized_is_clean(input);
        if let Some(path) = transcript_path_of(input) {
            if let TranscriptRead::Unread { file_len, bytes } = surroundings.transcript {
                law_context_adds_up(resumed(middle, path, file_len), lines(bytes@));
            }
        }
        let read = transcript_followed(middle, input, surroundings.transcript)->Ok_0;
        law_models_are_listed_once(
            read.history.model_usage,
            model_of(input),
            use_time(read, input),
        );
    }
}

/// Whether reading the transcript again brought nothing that `snapshot` has not
/// taken in.
pub open spec fn brings_nothing_new(
    snapshot: SnapshotView,
    path: Seq<char>,
    read: TranscriptRead,
) -> bool {
    &&& snapshot.transcript_state.transcript_path == Some(path)
    &&& read matches TranscriptRead::Unread { file_len, bytes } ==> bytes@.len() == 0
        && snapshot.transcript_state.processed_offset <= file_len
}

/// Law: an input document that arrives again, with nothing new in its
/// transcript, changes the time of the last update and no more, provided that
/// the two amounts of the dollar total have one sum.
pub proof fn law_following_again_changes_only_the_time<F: Fn(Usd, Usd) -> Usd>(
    before: SnapshotView,
    session_id: Seq<char>,
    input: Json,
    first: Surroundings,
    second: Surroundings,
    updated_at: UtcTime,
    created_at: UtcTime,
    updated_again_at: UtcTime,
    created_again_at: UtcTime,
    plus: F,
    once: SessionSnapshot,
    twice: SessionSnapshot,
)
    requires
        is_sound(before),
        follows(before, session_id, input, first, updated_at, created_at, plus, Ok(once)),
        text_of(first.current_dir) == text_of(second.current_dir),
        transcript_path_of(input) matches Some(path) ==> brings_nothing_new(
            once@,
            path,
            second.transcript,
        ),
        follows(
            once@,
            session_id,
            input,
            second,
            updated_again_at,
            created_again_at,
            plus,
            Ok(twice),
        ),
    ensures
        twice@ == (SnapshotView {
            meta: MetaView { last_update_time: Some(updated_again_at), ..once@.meta },
            history: HistoryView { cost: twice@.history.cost, ..once@.history },
            ..once@
        }),
        twice@.history.cost.current == once@.history.cost.current,
        twice@.history.cost.accumulated == once@.history.cost.accumulated,
        twice@.history.cost.total.total_duration_ms == once@.history.cost.total.total_duration_ms,
        twice@.history.cost.total.total_api_duration_ms
            == once@.history.cost.total.total_api_duration_ms,
        twice@.history.cost.total.total_lines_added == once@.history.cost.total.total_lines_added,
        twice@.history.cost.total.total_lines_removed
            == once@.history.cost.total.total_lines_removed,
        has_one_sum(
            plus,
            once@.history.cost.current.total_cost_usd,
            once@.history.cost.accumulated.total_cost_usd,
        ) ==> twice@.history.cost == once@.history.cost,
{
    law_updates_keep_a_snapshot_sound(
        before,
        session_id,
        input,
        first,
        updated_at,
        created_at,
        plus,
        Ok(once),
    );
    let middle = described(
        before,
        session_id,
        input,
        text_of(first.current_dir),
        updated_at,
        created_at,
        once@.history.cost,
    );
    let read = transcript_followed(middle, input, first.transcript)->Ok_0;
    let middle_again = described(
        once@,
        session_id,
        input,
        text_of(second.current_dir),
        updated_again_at,
        created_again_at,
        twice@.history.cost,
    );
    if let Some(path) = transcript_path_of(input) {
        if let TranscriptRead::Unread { file_len, bytes } = second.transcript {
            law_nothing_new_changes_nothing(middle_again, path, file_len, bytes);
        }
    }
    assert(transcript_followed(middle_again, input, second.transcript) == Ok::<
        SnapshotView,
        TranscriptError,
    >(middle_again));
    law_observing_is_idempotent(
        read.history.model_usage,
        model_of(input),
        use_time(read, input),
    );
}

/// Law: only session files that were last modified more than the expiry window
/// ago are removed, and all of those.
pub proof fn law_cleanup_removes_the_expired(config: StorageConfig, now: UtcTime, file: SessionFile)
    requires
        cleanup_at(config, now) is RemoveBefore,
    ensures
        expiry_days(config) is Some,
        has_expired(file, cleanup_at(config, now)->RemoveBefore_0) == (text_of(file.extension)
            == Some("json"@) && (file.modified matches Some(modified) && (modified.seconds
            + expiry_days(config)->0 * SECONDS_PER_DAY < now.seconds || (modified.seconds
            + expiry_days(config)->0 * SECONDS_PER_DAY == now.seconds && modified.nanos
            < now.nanos)))),
{
}

/// Law: nothing is removed where cleaning up is switched off, or without an
/// expiry window.
pub proof fn law_cleanup_is_optional(config: StorageConfig, now: UtcTime)
    requires
        !config.enable_startup_cleanup || config.session_expiry_days is None
            || config.session_expiry_days == Some(0u32),
    ensures
        cleanup_at(config, now) is Skip,
{
}

} // verus!
