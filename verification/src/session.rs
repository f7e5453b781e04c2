//! The snapshot that is kept of a session.

use vstd::prelude::*;

use crate::clock::{now, UtcTime};
use crate::cost::{no_cost_history, CostHistory};
use crate::json::{Json, JsonValue};
use crate::text::{copied_text, text_of};

verus! {

/// Token usage extracted from transcript updates.
#[derive(Debug)]
pub struct TokenHistory {
    pub input: u64,
    pub output: u64,
    pub cache_creation_input: u64,
    pub cache_read_input: u64,
    pub context_used: u64,
    pub last_message_uuid: Option<String>,
    pub last_timestamp: Option<String>,
    /// The input tokens of the first assistant message, about what the system
    /// prompt takes up.
    pub system_baseline: Option<u64>,
}

/// What token usage is.
pub struct TokenView {
    pub input: nat,
    pub output: nat,
    pub cache_creation_input: nat,
    pub cache_read_input: nat,
    pub context_used: nat,
    pub last_message_uuid: Option<Seq<char>>,
    pub last_timestamp: Option<Seq<char>>,
    pub system_baseline: Option<nat>,
}

/// The number that an optional integer is.
pub open spec fn nat_of(number: Option<u64>) -> Option<nat> {
    match number {
        Some(n) => Some(n as nat),
        None => None,
    }
}

impl View for TokenHistory {
    type V = TokenView;

    open spec fn view(&self) -> TokenView {
        TokenView {
            input: self.input as nat,
            output: self.output as nat,
            cache_creation_input: self.cache_creation_input as nat,
            cache_read_input: self.cache_read_input as nat,
            context_used: self.context_used as nat,
            last_message_uuid: text_of(self.last_message_uuid),
            last_timestamp: text_of(self.last_timestamp),
            system_baseline: nat_of(self.system_baseline),
        }
    }
}

/// What optional token usage is.
pub open spec fn tokens_of(tokens: Option<TokenHistory>) -> Option<TokenView> {
    match tokens {
        Some(tokens) => Some(tokens@),
        None => None,
    }
}

/// Token usage of which nothing is known.
pub open spec fn no_tokens() -> TokenView {
    TokenView {
        input: 0,
        output: 0,
        cache_creation_input: 0,
        cache_read_input: 0,
        context_used: 0,
        last_message_uuid: None,
        last_timestamp: None,
        system_baseline: None,
    }
}

impl Default for TokenHistory {
    fn default() -> (tokens: TokenHistory)
        ensures
            tokens@ == no_tokens(),
    {
        TokenHistory {
            input: 0,
            output: 0,
            cache_creation_input: 0,
            cache_read_input: 0,
            context_used: 0,
            last_message_uuid: None,
            last_timestamp: None,
            system_baseline: None,
        }
    }
}

impl Clone for TokenHistory {
    /// The same token usage.
    fn clone(&self) -> (copy: TokenHistory)
        ensures
            copy == *self,
    {
        TokenHistory {
            input: self.input,
            output: self.output,
            cache_creation_input: self.cache_creation_input,
            cache_read_input: self.cache_read_input,
            context_used: self.context_used,
            last_message_uuid: copied_text(&self.last_message_uuid),
            last_timestamp: copied_text(&self.last_timestamp),
            system_baseline: self.system_baseline,
        }
    }
}

/// A model that has been observed during the session.
#[derive(Debug, Clone)]
pub struct ModelUsageEntry {
    pub id: String,
    pub display_name: Option<String>,
    pub last_used_at: Option<String>,
}

/// What an observed model is.
pub struct ModelView {
    pub id: Seq<char>,
    pub display_name: Option<Seq<char>>,
    pub last_used_at: Option<Seq<char>>,
}

impl View for ModelUsageEntry {
    type V = ModelView;

    open spec fn view(&self) -> ModelView {
        ModelView {
            id: self.id@,
            display_name: text_of(self.display_name),
            last_used_at: text_of(self.last_used_at),
        }
    }
}

impl Default for ModelUsageEntry {
    fn default() -> (entry: ModelUsageEntry)
        ensures
            entry@ == (ModelView {
                id: Seq::<char>::empty(),
                display_name: None,
                last_used_at: None,
            }),
    {
        ModelUsageEntry { id: String::new(), display_name: None, last_used_at: None }
    }
}

/// How far the transcript has been processed.
#[derive(Debug, Clone)]
pub struct TranscriptState {
    pub transcript_path: Option<String>,
    pub processed_offset: u64,
    pub processed_messages: u64,
    pub last_message_uuid: Option<String>,
    pub last_timestamp: Option<String>,
}

/// What the state of processing is.
pub struct TranscriptView {
    pub transcript_path: Option<Seq<char>>,
    pub processed_offset: nat,
    pub processed_messages: nat,
    pub last_message_uuid: Option<Seq<char>>,
    pub last_timestamp: Option<Seq<char>>,
}

impl View for TranscriptState {
    type V = TranscriptView;

    open spec fn view(&self) -> TranscriptView {
        TranscriptView {
            transcript_path: text_of(self.transcript_path),
            processed_offset: self.processed_offset as nat,
            processed_messages: self.processed_messages as nat,
            last_message_uuid: text_of(self.last_message_uuid),
            last_timestamp: text_of(self.last_timestamp),
        }
    }
}

/// The state in which no transcript has been seen.
pub open spec fn no_transcript() -> TranscriptView {
    TranscriptView {
        transcript_path: None,
        processed_offset: 0,
        processed_messages: 0,
        last_message_uuid: None,
        last_timestamp: None,
    }
}

impl Default for TranscriptState {
    fn default() -> (state: TranscriptState)
        ensures
            state@ == no_transcript(),
    {
        TranscriptState {
            transcript_path: None,
            processed_offset: 0,
            processed_messages: 0,
            last_message_uuid: None,
            last_timestamp: None,
        }
    }
}

/// Metadata describing a stored session.
#[derive(Debug, Clone)]
pub struct SessionMeta {
    pub session_id: String,
    pub project_path: Option<String>,
    pub created_at: Option<UtcTime>,
    pub last_update_time: Option<UtcTime>,
}

/// What the metadata are.
pub struct MetaView {
    pub session_id: Seq<char>,
    pub project_path: Option<Seq<char>>,
    pub created_at: Option<UtcTime>,
    pub last_update_time: Option<UtcTime>,
}

impl View for SessionMeta {
    type V = MetaView;

    open spec fn view(&self) -> MetaView {
        MetaView {
            session_id: self.session_id@,
            project_path: text_of(self.project_path),
            created_at: self.created_at,
            last_update_time: self.last_update_time,
        }
    }
}

impl Default for SessionMeta {
    /// Metadata of a session without a name, created and updated now.
    fn default() -> (meta: SessionMeta)
        ensures
            meta.session_id@ == Seq::<char>::empty(),
            meta.project_path is None,
            meta.created_at matches Some(time) && time.is_clock_time(),
            meta.last_update_time matches Some(time) && time.is_clock_time(),
    {
        SessionMeta {
            session_id: String::new(),
            project_path: None,
            created_at: Some(now()),
            last_update_time: Some(now()),
        }
    }
}

/// Historical aggregates derived from the latest snapshot data.
#[derive(Debug, Clone)]
pub struct SessionHistory {
    pub cost: CostHistory,
    pub tokens: Option<TokenHistory>,
    pub model_usage: Vec<ModelUsageEntry>,
}

/// What the aggregates are.
pub struct HistoryView {
    pub cost: CostHistory,
    pub tokens: Option<TokenView>,
    pub model_usage: Seq<ModelView>,
}

/// The models that `entries` lists.
pub open spec fn models_of(entries: Seq<ModelUsageEntry>) -> Seq<ModelView> {
    Seq::new(entries.len(), |i: int| entries[i]@)
}

impl View for SessionHistory {
    type V = HistoryView;

    open spec fn view(&self) -> HistoryView {
        HistoryView {
            cost: self.cost,
            tokens: tokens_of(self.tokens),
            model_usage: models_of(self.model_usage@),
        }
    }
}

/// The history in which nothing has happened.
pub open spec fn no_history() -> HistoryView {
    HistoryView { cost: no_cost_history(), tokens: None, model_usage: Seq::empty() }
}

impl Default for SessionHistory {
    fn default() -> (history: SessionHistory)
        ensures
            history@ == no_history(),
    {
        let history = SessionHistory {
            cost: CostHistory::default(),
            tokens: None,
            model_usage: Vec::new(),
        };
        assert(history@.model_usage =~= Seq::empty());
        history
    }
}

/// Snapshot file persisted for each session.
#[derive(Debug, Clone)]
pub struct SessionSnapshot {
    pub meta: SessionMeta,
    pub latest: JsonValue,
    pub history: SessionHistory,
    pub transcript_state: TranscriptState,
}

/// What a snapshot is.
pub struct SnapshotView {
    pub meta: MetaView,
    pub latest: Json,
    pub history: HistoryView,
    pub transcript_state: TranscriptView,
}

impl View for SessionSnapshot {
    type V = SnapshotView;

    open spec fn view(&self) -> SnapshotView {
        SnapshotView {
            meta: self.meta@,
            latest: self.latest@,
            history: self.history@,
            transcript_state: self.transcript_state@,
        }
    }
}

/// The snapshot of the new session `session_id`.
pub open spec fn new_snapshot(
    session_id: Seq<char>,
    created_at: UtcTime,
    last_update_time: UtcTime,
) -> SnapshotView {
    SnapshotView {
        meta: MetaView {
            session_id,
            project_path: None,
            created_at: Some(created_at),
            last_update_time: Some(last_update_time),
        },
        latest: Json::Null,
        history: no_history(),
        transcript_state: no_transcript(),
    }
}

/// Whether `snapshot` is that of the new session `session_id`, made at a
/// time that the clock told.
pub open spec fn is_new_snapshot(snapshot: SnapshotView, session_id: Seq<char>) -> bool {
    &&& snapshot.meta.created_at matches Some(time) && time.is_clock_time()
    &&& snapshot.meta.last_update_time matches Some(time) && time.is_clock_time()
    &&& snapshot == new_snapshot(
        session_id,
        snapshot.meta.created_at->0,
        snapshot.meta.last_update_time->0,
    )
}

impl SessionSnapshot {
    /// The snapshot of the new session `session_id`, made now.
    pub fn new(session_id: &str) -> (snapshot: SessionSnapshot)
        ensures
            is_new_snapshot(snapshot@, session_id@),
    {
        SessionSnapshot::new_at(session_id, now(), now())
    }

    /// The snapshot of the new session `session_id`, made at the given times.
    pub fn new_at(session_id: &str, created_at: UtcTime, last_update_time: UtcTime) -> (snapshot:
        SessionSnapshot)
        ensures
            snapshot@ == new_snapshot(session_id@, created_at, last_update_time),
    {
        SessionSnapshot {
            meta: SessionMeta {
                session_id: session_id.to_owned(),
                project_path: None,
                created_at: Some(created_at),
                last_update_time: Some(last_update_time),
            },
            latest: JsonValue::Null,
            history: SessionHistory::default(),
            transcript_state: TranscriptState::default(),
        }
    }
}

} // verus!
