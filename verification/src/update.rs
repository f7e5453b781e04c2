//! How a snapshot follows an input document.

use vstd::prelude::*;

use crate::clock::UtcTime;
use crate::cost::{cost_taken_in, has_room, metrics_of, CostHistory, CostMetrics};
use crate::input::{
    cost_of, determine_project_path, extract_cost_value, extract_model, extract_timestamp,
    extract_transcript_path, model_of, project_path_of, timestamp_of, transcript_path_of,
};
use crate::json::{Json, JsonValue};
use crate::models::{models_observed, update_model_usage};
use crate::sanitize::{sanitize_latest_value, sanitized};
use crate::session::{HistoryView, MetaView, SessionSnapshot, SnapshotView};
use crate::text::{borrowed_text, copied_text, text_of};
use crate::transcript::{
    read_tokens_from_transcript, transcript_taken_in, TranscriptError, TranscriptRead,
};
use crate::usd::Usd;

verus! {

/// Why a snapshot could not be updated.
#[derive(Clone, Copy, PartialEq, Eq, Structural, Debug)]
pub enum UpdateError {
    /// The input document names no session.
    MissingSessionId,
    /// The stored snapshot could not be read.
    SnapshotUnreadable,
    /// What is stored is no snapshot.
    SnapshotMalformed,
    /// The transcript that the input document names could not be read.
    TranscriptUnreadable,
    /// A counter would exceed its range.
    CounterOverflow,
}

/// What an update takes from around it.
#[derive(Debug)]
pub struct Surroundings {
    /// The directory in which the process runs.
    pub current_dir: Option<String>,
    /// What reading the transcript that the input document names brought.
    pub transcript: TranscriptRead,
}

/// Whether `after` is the cost history `before` once it has taken in the cost
/// document of `input`, if it has one.
pub open spec fn cost_followed<F: Fn(Usd, Usd) -> Usd>(
    before: CostHistory,
    input: Json,
    plus: F,
    after: CostHistory,
) -> bool {
    match cost_of(input) {
        Some(cost) => cost_taken_in(before, metrics_of(cost), plus, after),
        None => after == before,
    }
}

/// Whether no cost counter overflows.
pub open spec fn cost_fits(before: CostHistory, input: Json) -> bool {
    cost_of(input) matches Some(cost) ==> has_room(before, metrics_of(cost))
}

/// The snapshot `before` with the metadata, the reduced input document and the
/// cost history of the update.
pub open spec fn described(
    before: SnapshotView,
    session_id: Seq<char>,
    input: Json,
    current_dir: Option<Seq<char>>,
    updated_at: UtcTime,
    created_at: UtcTime,
    cost: CostHistory,
) -> SnapshotView {
    SnapshotView {
        meta: MetaView {
            session_id,
            project_path: project_path_of(input, before.meta.project_path, current_dir),
            created_at: if before.meta.created_at is None {
                Some(created_at)
            } else {
                before.meta.created_at
            },
            last_update_time: Some(updated_at),
        },
        latest: sanitized(input),
        history: HistoryView { cost, ..before.history },
        transcript_state: before.transcript_state,
    }
}

/// The snapshot `before` once the transcript that `input` names, if it names
/// one, has been taken in.
pub open spec fn transcript_followed(
    before: SnapshotView,
    input: Json,
    transcript: TranscriptRead,
) -> Result<SnapshotView, TranscriptError> {
    match transcript_path_of(input) {
        Some(path) => transcript_taken_in(before, path, transcript),
        None => Ok(before),
    }
}

/// Why an update fails whose transcript could not be taken in.
pub open spec fn transcript_failure(error: TranscriptError) -> UpdateError {
    match error {
        TranscriptError::CounterOverflow => UpdateError::CounterOverflow,
        TranscriptError::Unreadable => UpdateError::TranscriptUnreadable,
        TranscriptError::NotUtf8 => UpdateError::TranscriptUnreadable,
    }
}

/// The time at which the model was used: that of the input document, else that
/// of the last message.
pub open spec fn use_time(snapshot: SnapshotView, input: Json) -> Option<Seq<char>> {
    match timestamp_of(input) {
        Some(timestamp) => Some(timestamp),
        None => match snapshot.history.tokens {
            Some(tokens) => tokens.last_timestamp,
            None => None,
        },
    }
}

/// The snapshot `before` once the model document of `input` has been observed.
pub open spec fn model_followed(before: SnapshotView, input: Json) -> SnapshotView {
    SnapshotView {
        history: HistoryView {
            model_usage: models_observed(
                before.history.model_usage,
                model_of(input),
                use_time(before, input),
            ),
            ..before.history
        },
        ..before
    }
}

/// The snapshot `before` once it has followed `input`, with `cost` as its cost
/// history and its transcript taken in.
pub open spec fn followed(
    before: SnapshotView,
    session_id: Seq<char>,
    input: Json,
    surroundings: Surroundings,
    updated_at: UtcTime,
    created_at: UtcTime,
    cost: CostHistory,
) -> SnapshotView {
    model_followed(
        transcript_followed(
            described(
                before,
                session_id,
                input,
                text_of(surroundings.current_dir),
                updated_at,
                created_at,
                cost,
            ),
            input,
            surroundings.transcript,
        )->Ok_0,
        input,
    )
}

/// Whether `result` is what following `input` from `before` gives.
pub open spec fn follows<F: Fn(Usd, Usd) -> Usd>(
    before: SnapshotView,
    session_id: Seq<char>,
    input: Json,
    surroundings: Surroundings,
    updated_at: UtcTime,
    created_at: UtcTime,
    plus: F,
    result: Result<SessionSnapshot, UpdateError>,
) -> bool {
    let taken_in = transcript_followed(before, input, surroundings.transcript);
    if !cost_fits(before.history.cost, input) {
        result == Err::<SessionSnapshot, UpdateError>(UpdateError::CounterOverflow)
    } else if taken_in is Err {
        result == Err::<SessionSnapshot, UpdateError>(transcript_failure(taken_in->Err_0))
    } else {
        &&& result is Ok
        &&& cost_followed(before.history.cost, input, plus, result->Ok_0@.history.cost)
        &&& result->Ok_0@ == followed(
            before,
            session_id,
            input,
            surroundings,
            updated_at,
            created_at,
            result->Ok_0@.history.cost,
        )
    }
}

/// The snapshot of the session `session_id` once it has followed the input
/// document from `before`. `updated_at` is the time of the update, `created_at`
/// that of creation where none is known, and `plus` adds dollar amounts. There
/// is none where a counter overflows or the transcript cannot be read.
pub fn follow_input<F: Fn(Usd, Usd) -> Usd>(
    before: SessionSnapshot,
    session_id: &str,
    input_data: &JsonValue,
    surroundings: &Surroundings,
    updated_at: UtcTime,
    created_at: UtcTime,
    plus: &F,
) -> (result: Result<SessionSnapshot, UpdateError>)
    requires
        forall|a: Usd, b: Usd| call_requires(*plus, (a, b)),
    ensures
        follows(
            before@,
            session_id@,
            input_data@,
            *surroundings,
            updated_at,
            created_at,
            *plus,
            result,
        ),
{
    let ghost start = before@;
    let mut snapshot: SessionSnapshot = before;
    snapshot.meta.session_id = session_id.to_owned();
    snapshot.meta.project_path = determine_project_path(
        input_data,
        borrowed_text(&snapshot.meta.project_path),
        borrowed_text(&surroundings.current_dir),
    );
    snapshot.meta.last_update_time = Some(updated_at);
    if snapshot.meta.created_at.is_none() {
        snapshot.meta.created_at = Some(created_at);
    }
    let mut latest: JsonValue = input_data.clone();
    sanitize_latest_value(&mut latest);
    snapshot.latest = latest;
    if let Some(cost_value) = extract_cost_value(input_data) {
        let metrics: CostMetrics = CostMetrics::from_cost_value(cost_value);
        if !snapshot.history.cost.can_apply(&metrics) {
            return Err(UpdateError::CounterOverflow);
        }
        snapshot.history.cost.apply(&metrics, plus);
    }
    let ghost cost = snapshot.history.cost;
    assert(snapshot@ == described(
        start,
        session_id@,
        input_data@,
        text_of(surroundings.current_dir),
        updated_at,
        created_at,
        cost,
    ));
    if let Some(transcript_path) = extract_transcript_path(input_data) {
        match read_tokens_from_transcript(
            &mut snapshot,
            transcript_path,
            &surroundings.transcript,
        ) {
            Ok(()) => {},
            Err(TranscriptError::CounterOverflow) => {
                return Err(UpdateError::CounterOverflow);
            },
            Err(_) => {
                return Err(UpdateError::TranscriptUnreadable);
            },
        }
    }
    let token_timestamp: Option<String> = match &snapshot.history.tokens {
        Some(tokens) => copied_text(&tokens.last_timestamp),
        None => None,
    };
    let timestamp: Option<&str> = match extract_timestamp(input_data) {
        Some(timestamp) => Some(timestamp),
        None => borrowed_text(&token_timestamp),
    };
    update_model_usage(&mut snapshot.history, extract_model(input_data), timestamp);
    Ok(snapshot)
}

} // verus!
