//! Token usage from the transcript of a session.
//!
//! A transcript is a file of lines, each of which may be a JSON document. It
//! grows at its end, and it is read from where the last reading stopped.

use vstd::prelude::*;
use vstd::utf8::{decode_utf8, valid_utf8};

use crate::cost::{count_at, read_count};
use crate::document::{parse_json, parsed_json};
use crate::json::{as_text, field, json_of_ref, Json, JsonValue};
use crate::session::{
    no_tokens, tokens_of, HistoryView, SessionSnapshot, SnapshotView, TokenHistory, TokenView,
    TranscriptState, TranscriptView,
};
use crate::text::{
    copied_text, owned_text, same_text, text_of, trim, trimmed, utf8_text,
};

verus! {

/// Why a transcript could not be taken in.
#[derive(Clone, Copy, PartialEq, Eq, Structural, Debug)]
pub enum TranscriptError {
    /// The file could not be read.
    Unreadable,
    /// A line is not valid UTF-8.
    NotUtf8,
    /// A counter would exceed its range.
    CounterOverflow,
}

/// The byte that ends a line.
pub const NEWLINE: u8 = 10;

/// The lines of a text, each with the newline that ends it. The last one may
/// have none.
pub open spec fn lines(bytes: Seq<u8>) -> Seq<Seq<u8>>
    decreases bytes.len(),
{
    if bytes.len() == 0 {
        Seq::empty()
    } else {
        let before = lines(bytes.drop_last());
        if before.len() == 0 || before.last().last() == NEWLINE {
            before.push(seq![bytes.last()])
        } else {
            before.drop_last().push(before.last().push(bytes.last()))
        }
    }
}

/// Whether `json` is the summary that replaces a compacted conversation.
pub open spec fn is_summary(json: Json) -> bool {
    field(json, "isCompactSummary"@) == Some(Json::Bool(true))
}

/// The token usage after the summary `json`: none, since the conversation
/// starts over.
pub open spec fn summary_tokens(json: Json) -> TokenView {
    TokenView { last_timestamp: as_text(field(json, "timestamp"@)), ..no_tokens() }
}

/// The usage document of the message `json`, if it is an assistant's and has
/// one.
pub open spec fn usage_of(json: Json) -> Option<Json> {
    if as_text(field(json, "type"@)) == Some("assistant"@) {
        match field(json, "message"@) {
            Some(message) => field(message, "usage"@),
            None => None,
        }
    } else {
        None
    }
}

/// The tokens that a usage document counts.
pub open spec fn usage_total(usage: Json) -> nat {
    (count_at(usage, "input_tokens"@) + count_at(usage, "output_tokens"@) + count_at(
        usage,
        "cache_creation_input_tokens"@,
    ) + count_at(usage, "cache_read_input_tokens"@)) as nat
}

/// The token usage that the message `json` reports, if it reports any.
pub open spec fn message_tokens(json: Json) -> Option<TokenView> {
    match usage_of(json) {
        Some(usage) => Some(
            TokenView {
                input: count_at(usage, "input_tokens"@) as nat,
                output: count_at(usage, "output_tokens"@) as nat,
                cache_creation_input: count_at(usage, "cache_creation_input_tokens"@) as nat,
                cache_read_input: count_at(usage, "cache_read_input_tokens"@) as nat,
                context_used: usage_total(usage),
                last_message_uuid: as_text(field(json, "uuid"@)),
                last_timestamp: as_text(field(json, "timestamp"@)),
                system_baseline: None,
            },
        ),
        None => None,
    }
}

/// The baseline that `tokens` holds.
pub open spec fn baseline_of(tokens: Option<TokenView>) -> Option<nat> {
    match tokens {
        Some(tokens) => tokens.system_baseline,
        None => None,
    }
}

/// The token usage once `json` has been taken in after `tokens`. The first
/// message to report usage sets the baseline.
pub open spec fn tokens_after(tokens: Option<TokenView>, json: Json) -> Result<
    Option<TokenView>,
    TranscriptError,
> {
    if is_summary(json) {
        Ok(Some(summary_tokens(json)))
    } else {
        match message_tokens(json) {
            Some(entry) => if entry.context_used > u64::MAX {
                Err(TranscriptError::CounterOverflow)
            } else {
                Ok(
                    Some(
                        TokenView {
                            system_baseline: match baseline_of(tokens) {
                                Some(baseline) => Some(baseline),
                                None => Some(entry.input),
                            },
                            ..entry
                        },
                    ),
                )
            },
            None => Ok(tokens),
        }
    }
}

/// How far a transcript has been taken in.
#[derive(Debug)]
pub struct TranscriptProgress {
    /// The bytes that have been read.
    pub current_offset: u64,
    /// The lines that were not blank.
    pub processed_messages: u64,
    /// The token usage as last reported.
    pub latest_tokens: Option<TokenHistory>,
}

/// What the progress is.
pub struct ProgressView {
    pub offset: nat,
    pub messages: nat,
    pub tokens: Option<TokenView>,
}

impl View for TranscriptProgress {
    type V = ProgressView;

    open spec fn view(&self) -> ProgressView {
        ProgressView {
            offset: self.current_offset as nat,
            messages: self.processed_messages as nat,
            tokens: tokens_of(self.latest_tokens),
        }
    }
}

/// The progress once the line `line` has been taken in after `progress`. A
/// blank line counts as read only, and one that is no JSON document as a
/// message that reports nothing.
pub open spec fn line_taken_in(progress: ProgressView, line: Seq<u8>) -> Result<
    ProgressView,
    TranscriptError,
> {
    let offset = progress.offset + line.len();
    let text = trimmed(decode_utf8(line));
    if !valid_utf8(line) {
        Err(TranscriptError::NotUtf8)
    } else if offset > u64::MAX {
        Err(TranscriptError::CounterOverflow)
    } else if text.len() == 0 {
        Ok(ProgressView { offset, ..progress })
    } else if progress.messages + 1 > u64::MAX {
        Err(TranscriptError::CounterOverflow)
    } else {
        let messages = progress.messages + 1;
        match parsed_json(text) {
            Some(json) => match tokens_after(progress.tokens, json) {
                Ok(tokens) => Ok(ProgressView { offset, messages, tokens }),
                Err(error) => Err(error),
            },
            None => Ok(ProgressView { offset, messages, tokens: progress.tokens }),
        }
    }
}

/// The progress once the lines `text` have been taken in, one after the other;
/// the first one that cannot be ends it.
pub open spec fn lines_taken_in(progress: ProgressView, text: Seq<Seq<u8>>) -> Result<
    ProgressView,
    TranscriptError,
>
    decreases text.len(),
{
    if text.len() == 0 {
        Ok(progress)
    } else {
        match lines_taken_in(progress, text.drop_last()) {
            Ok(before) => line_taken_in(before, text.last()),
            Err(error) => Err(error),
        }
    }
}

/// The last line ends with the last byte.
proof fn lemma_last_line(bytes: Seq<u8>)
    requires
        bytes.len() > 0,
    ensures
        lines(bytes).len() > 0,
        lines(bytes).last().last() == bytes.last(),
{
}

/// Law: the lines of a text that breaks off behind a newline are the lines of
/// its two parts.
pub proof fn law_lines_of_parts(first: Seq<u8>, second: Seq<u8>)
    requires
        first.len() == 0 || first.last() == NEWLINE,
    ensures
        lines(first + second) == lines(first) + lines(second),
    decreases second.len(),
{
    if second.len() == 0 {
        assert(first + second =~= first);
        assert(lines(first) + lines(second) =~= lines(first));
    } else {
        law_lines_of_parts(first, second.drop_last());
        assert((first + second).drop_last() =~= first + second.drop_last());
        let head = lines(first);
        let tail = lines(second.drop_last());
        if first.len() > 0 {
            lemma_last_line(first);
        }
        if tail.len() == 0 {
            assert(head + tail =~= head);
            assert(head + lines(second) =~= head.push(seq![second.last()]));
        } else {
            assert((head + tail).last() == tail.last());
            if tail.last().last() == NEWLINE {
                assert(head + lines(second) =~= (head + tail).push(seq![second.last()]));
            } else {
                assert(head + lines(second) =~= (head + tail).drop_last().push(
                    tail.last().push(second.last()),
                ));
            }
        }
    }
}

/// Law: taking in lines in two parts, the second after the first, is taking
/// them in at once.
pub proof fn law_lines_in_parts(
    progress: ProgressView,
    first: Seq<Seq<u8>>,
    second: Seq<Seq<u8>>,
)
    ensures
        lines_taken_in(progress, first + second) == match lines_taken_in(progress, first) {
            Ok(between) => lines_taken_in(between, second),
            Err(error) => Err(error),
        },
    decreases second.len(),
{
    if second.len() == 0 {
        assert(first + second =~= first);
    } else {
        law_lines_in_parts(progress, first, second.drop_last());
        assert((first + second).drop_last() =~= first + second.drop_last());
        assert((first + second).last() == second.last());
    }
}

/// Law: once token usage is known it stays known.
pub proof fn law_tokens_stay_known(progress: ProgressView, text: Seq<Seq<u8>>)
    requires
        progress.tokens is Some,
    ensures
        lines_taken_in(progress, text) matches Ok(after) ==> after.tokens is Some,
    decreases text.len(),
{
    if text.len() > 0 {
        law_tokens_stay_known(progress, text.drop_last());
    }
}

/// Whether `value` is the summary that replaces a compacted conversation.
pub fn is_compact_summary(value: &JsonValue) -> (summary: bool)
    ensures
        summary == is_summary(value@),
{
    match value.get("isCompactSummary") {
        Some(member) => match member.as_bool() {
            Some(truth) => truth,
            None => false,
        },
        None => false,
    }
}

/// The text at the member `key` of `value`, if it is text.
fn member_text(value: &JsonValue, key: &str) -> (text: Option<String>)
    ensures
        text_of(text) == as_text(field(value@, key@)),
{
    match value.get(key) {
        Some(member) => owned_text(member.as_str()),
        None => None,
    }
}

/// The token usage after the summary `value`.
pub fn token_entry_from_summary(value: &JsonValue) -> (tokens: TokenHistory)
    ensures
        tokens@ == summary_tokens(value@),
{
    let mut tokens: TokenHistory = TokenHistory::default();
    tokens.last_timestamp = member_text(value, "timestamp");
    tokens
}

/// The usage document of the message `value`, if it is an assistant's and has
/// one.
fn message_usage(value: &JsonValue) -> (usage: Option<&JsonValue>)
    ensures
        json_of_ref(usage) == usage_of(value@),
{
    let is_assistant: bool = match member_text(value, "type") {
        Some(kind) => same_text(&kind, "assistant"),
        None => false,
    };
    if !is_assistant {
        return None;
    }
    match value.get("message") {
        Some(message) => message.get("usage"),
        None => None,
    }
}

/// The token usage that the message `value` reports, if it reports any. The
/// baseline is left to the caller.
pub fn token_entry_from_message(value: &JsonValue) -> (tokens: Option<TokenHistory>)
    requires
        usage_of(value@) is Some ==> usage_total(usage_of(value@)->0) <= u64::MAX,
    ensures
        tokens_of(tokens) == message_tokens(value@),
{
    match message_usage(value) {
        Some(usage) => {
            let input: u64 = read_count(usage, "input_tokens");
            let output: u64 = read_count(usage, "output_tokens");
            let cache_creation: u64 = read_count(usage, "cache_creation_input_tokens");
            let cache_read: u64 = read_count(usage, "cache_read_input_tokens");
            Some(
                TokenHistory {
                    input,
                    output,
                    cache_creation_input: cache_creation,
                    cache_read_input: cache_read,
                    context_used: input + output + cache_creation + cache_read,
                    last_message_uuid: member_text(value, "uuid"),
                    last_timestamp: member_text(value, "timestamp"),
                    system_baseline: None,
                },
            )
        },
        None => None,
    }
}

/// Whether the tokens that the message `value` reports add up to a count in
/// range.
fn usage_fits(value: &JsonValue) -> (fits: bool)
    ensures
        fits == (usage_of(value@) is Some ==> usage_total(usage_of(value@)->0) <= u64::MAX),
{
    match message_usage(value) {
        Some(usage) => {
            let input: u64 = read_count(usage, "input_tokens");
            let output: u64 = read_count(usage, "output_tokens");
            let cache_creation: u64 = read_count(usage, "cache_creation_input_tokens");
            let cache_read: u64 = read_count(usage, "cache_read_input_tokens");
            input as u128 + output as u128 + cache_creation as u128 + cache_read as u128
                <= u64::MAX as u128
        },
        None => true,
    }
}

/// What a result with token usage is.
pub open spec fn tokens_result_of(result: Result<Option<TokenHistory>, TranscriptError>) -> Result<
    Option<TokenView>,
    TranscriptError,
> {
    match result {
        Ok(tokens) => Ok(tokens_of(tokens)),
        Err(error) => Err(error),
    }
}

/// What a result with progress is.
pub open spec fn progress_result_of(
    result: Result<TranscriptProgress, TranscriptError>,
) -> Result<ProgressView, TranscriptError> {
    match result {
        Ok(progress) => Ok(progress@),
        Err(error) => Err(error),
    }
}

/// The token usage once the document `value` has been taken in after `tokens`.
pub fn take_in_document(tokens: Option<TokenHistory>, value: &JsonValue) -> (result: Result<
    Option<TokenHistory>,
    TranscriptError,
>)
    ensures
        tokens_result_of(result) == tokens_after(tokens_of(tokens), value@),
{
    if is_compact_summary(value) {
        return Ok(Some(token_entry_from_summary(value)));
    }
    if !usage_fits(value) {
        return Err(TranscriptError::CounterOverflow);
    }
    match token_entry_from_message(value) {
        Some(entry) => {
            let mut entry: TokenHistory = entry;
            let existing: Option<u64> = match &tokens {
                Some(tokens) => tokens.system_baseline,
                None => None,
            };
            entry.system_baseline = match existing {
                Some(baseline) => Some(baseline),
                None => Some(entry.input),
            };
            Ok(Some(entry))
        },
        None => Ok(tokens),
    }
}

/// The progress once the line `line` has been taken in after `progress`.
fn take_in_line(progress: TranscriptProgress, line: &[u8]) -> (result: Result<
    TranscriptProgress,
    TranscriptError,
>)
    ensures
        progress_result_of(result) == line_taken_in(progress@, line@),
{
    let text: &str = match utf8_text(line) {
        Some(text) => text,
        None => {
            return Err(TranscriptError::NotUtf8);
        },
    };
    let size: u64 = line.len() as u64;
    if size > u64::MAX - progress.current_offset {
        return Err(TranscriptError::CounterOverflow);
    }
    let current_offset: u64 = progress.current_offset + size;
    let content: &str = trim(text);
    if content.is_empty() {
        return Ok(TranscriptProgress { current_offset, ..progress });
    }
    if progress.processed_messages == u64::MAX {
        return Err(TranscriptError::CounterOverflow);
    }
    let processed_messages: u64 = progress.processed_messages + 1;
    let latest_tokens: Option<TokenHistory> = match parse_json(content) {
        Some(value) => match take_in_document(progress.latest_tokens, &value) {
            Ok(tokens) => tokens,
            Err(error) => {
                return Err(error);
            },
        },
        None => progress.latest_tokens,
    };
    Ok(TranscriptProgress { current_offset, processed_messages, latest_tokens })
}

/// The place behind the line that starts at `start`.
fn line_end(bytes: &Vec<u8>, start: usize) -> (end: usize)
    requires
        start < bytes@.len(),
        lines(bytes@.take(start as int)).len() == 0 || lines(
            bytes@.take(start as int),
        ).last().last() == NEWLINE,
    ensures
        start < end <= bytes@.len(),
        lines(bytes@.take(end as int)) == lines(bytes@.take(start as int)).push(
            bytes@.subrange(start as int, end as int),
        ),
        end == bytes@.len() || bytes@[end - 1] == NEWLINE,
{
    let ghost before = lines(bytes@.take(start as int));
    let count: usize = bytes.len();
    let mut end: usize = start + 1;
    proof {
        assert(bytes@.take(start + 1).drop_last() =~= bytes@.take(start as int));
        assert(bytes@.subrange(start as int, start + 1) =~= seq![bytes@[start as int]]);
    }
    while end < count && bytes[end - 1] != NEWLINE
        invariant
            count == bytes@.len(),
            start < end <= count,
            before == lines(bytes@.take(start as int)),
            lines(bytes@.take(end as int)) == before.push(
                bytes@.subrange(start as int, end as int),
            ),
        decreases count - end,
    {
        proof {
            let line = bytes@.subrange(start as int, end as int);
            assert(bytes@.take(end + 1).drop_last() =~= bytes@.take(end as int));
            assert(before.push(line).drop_last() =~= before);
            assert(line.push(bytes@[end as int]) =~= bytes@.subrange(start as int, end + 1));
        }
        end = end + 1;
    }
    end
}

/// The progress once the bytes `unread` have been taken in after `start`, line
/// by line.
pub fn process_transcript_stream(start: TranscriptProgress, unread: &Vec<u8>) -> (result: Result<
    TranscriptProgress,
    TranscriptError,
>)
    ensures
        progress_result_of(result) == lines_taken_in(start@, lines(unread@)),
{
    let ghost first = start@;
    let mut progress: TranscriptProgress = start;
    let mut place: usize = 0;
    proof {
        assert(lines(unread@.take(0)) =~= Seq::empty());
    }
    while place < unread.len()
        invariant
            first == start@,
            place <= unread@.len(),
            lines_taken_in(first, lines(unread@.take(place as int))) == Ok::<
                ProgressView,
                TranscriptError,
            >(progress@),
            place == unread@.len() || lines(unread@.take(place as int)).len() == 0 || lines(
                unread@.take(place as int),
            ).last().last() == NEWLINE,
        decreases unread@.len() - place,
    {
        let end: usize = line_end(unread, place);
        let ghost before = lines(unread@.take(place as int));
        let ghost after = lines(unread@.take(end as int));
        proof {
            assert(after.drop_last() =~= before);
            assert(unread@.subrange(place as int, end as int).last() == unread@[end - 1]);
        }
        let line: &[u8] = &unread[place..end];
        assert(line@ == after.last());
        match take_in_line(progress, line) {
            Ok(next) => {
                progress = next;
            },
            Err(error) => {
                proof {
                    assert(lines_taken_in(first, after) == Err::<ProgressView, TranscriptError>(
                        error,
                    ));
                    let rest = unread@.skip(end as int);
                    assert(unread@.take(end as int) + rest =~= unread@);
                    if end < unread@.len() {
                        law_lines_of_parts(unread@.take(end as int), rest);
                        law_lines_in_parts(first, after, lines(rest));
                    } else {
                        assert(unread@.take(end as int) =~= unread@);
                    }
                }
                return Err(error);
            },
        }
        place = end;
    }
    assert(unread@.take(unread@.len() as int) =~= unread@);
    Ok(progress)
}

/// What the reading of a transcript file brought.
#[derive(Debug)]
pub enum TranscriptRead {
    /// There is no such file.
    Missing,
    /// The file could not be read.
    Unreadable,
    /// The file has `file_len` bytes, and `bytes` are those behind the place at
    /// which reading resumes.
    Unread { file_len: u64, bytes: Vec<u8> },
}

/// Whether a transcript has to be read from its start: it is another file than
/// the one read before, or it has become shorter than what was read.
pub open spec fn starts_over(state: TranscriptView, path: Seq<char>, file_len: u64) -> bool {
    state.transcript_path != Some(path) || state.processed_offset > file_len
}

/// The progress with which the reading of a transcript begins.
pub open spec fn resumed(snapshot: SnapshotView, path: Seq<char>, file_len: u64) -> ProgressView {
    let state = snapshot.transcript_state;
    let again = starts_over(state, path, file_len);
    ProgressView {
        offset: if again {
            0
        } else {
            state.processed_offset
        },
        messages: if again {
            0
        } else {
            state.processed_messages
        },
        tokens: snapshot.history.tokens,
    }
}

/// The snapshot once the transcript at `path` has been read up to `progress`.
pub open spec fn with_progress(
    snapshot: SnapshotView,
    path: Seq<char>,
    progress: ProgressView,
) -> SnapshotView {
    SnapshotView {
        history: HistoryView { tokens: progress.tokens, ..snapshot.history },
        transcript_state: TranscriptView {
            transcript_path: Some(path),
            processed_offset: progress.offset,
            processed_messages: progress.messages,
            last_message_uuid: match progress.tokens {
                Some(tokens) => tokens.last_message_uuid,
                None => snapshot.transcript_state.last_message_uuid,
            },
            last_timestamp: match progress.tokens {
                Some(tokens) => tokens.last_timestamp,
                None => snapshot.transcript_state.last_timestamp,
            },
        },
        ..snapshot
    }
}

/// The snapshot once the transcript at `path` has been taken in.
pub open spec fn transcript_taken_in(
    snapshot: SnapshotView,
    path: Seq<char>,
    read: TranscriptRead,
) -> Result<SnapshotView, TranscriptError> {
    match read {
        TranscriptRead::Missing => Ok(
            SnapshotView {
                transcript_state: TranscriptView {
                    transcript_path: Some(path),
                    ..snapshot.transcript_state
                },
                ..snapshot
            },
        ),
        TranscriptRead::Unreadable => Err(TranscriptError::Unreadable),
        TranscriptRead::Unread { file_len, bytes } => match lines_taken_in(
            resumed(snapshot, path, file_len),
            lines(bytes@),
        ) {
            Ok(progress) => Ok(with_progress(snapshot, path, progress)),
            Err(error) => Err(error),
        },
    }
}

/// Whether the transcript at `path`, of `file_len` bytes, has to be read from
/// its start.
fn needs_reset(state: &TranscriptState, path: &str, file_len: u64) -> (again: bool)
    ensures
        again == starts_over(state@, path@, file_len),
{
    let same_file: bool = match &state.transcript_path {
        Some(known) => same_text(known, path),
        None => false,
    };
    !same_file || state.processed_offset > file_len
}

/// The place at which the reading of the transcript at `path`, of `file_len`
/// bytes, begins.
pub fn resume_offset(state: &TranscriptState, path: &str, file_len: u64) -> (offset: u64)
    ensures
        offset == if starts_over(state@, path@, file_len) {
            0
        } else {
            state.processed_offset
        },
{
    if needs_reset(state, path, file_len) {
        0
    } else {
        state.processed_offset
    }
}

/// Takes in what reading the transcript at `transcript_path` brought. A
/// snapshot into which nothing could be taken is left as it is.
pub fn read_tokens_from_transcript(
    snapshot: &mut SessionSnapshot,
    transcript_path: &str,
    read: &TranscriptRead,
) -> (result: Result<(), TranscriptError>)
    ensures
        match transcript_taken_in(old(snapshot)@, transcript_path@, *read) {
            Ok(after) => result is Ok && final(snapshot)@ == after,
            Err(error) => result == Err::<(), TranscriptError>(error) && *final(snapshot) == *old(
                snapshot,
            ),
        },
{
    match read {
        TranscriptRead::Missing => {
            snapshot.transcript_state.transcript_path = Some(transcript_path.to_owned());
            Ok(())
        },
        TranscriptRead::Unreadable => Err(TranscriptError::Unreadable),
        TranscriptRead::Unread { file_len, bytes } => {
            let again: bool = needs_reset(&snapshot.transcript_state, transcript_path, *file_len);
            let start = TranscriptProgress {
                current_offset: if again {
                    0
                } else {
                    snapshot.transcript_state.processed_offset
                },
                processed_messages: if again {
                    0
                } else {
                    snapshot.transcript_state.processed_messages
                },
                latest_tokens: match &snapshot.history.tokens {
                    Some(tokens) => Some(tokens.clone()),
                    None => None,
                },
            };
            proof {
                if start@.tokens is Some {
                    law_tokens_stay_known(start@, lines(bytes@));
                }
            }
            match process_transcript_stream(start, bytes) {
                Ok(progress) => {
                    snapshot.transcript_state.transcript_path = Some(transcript_path.to_owned());
                    snapshot.transcript_state.processed_offset = progress.current_offset;
                    snapshot.transcript_state.processed_messages = progress.processed_messages;
                    if let Some(tokens) = progress.latest_tokens {
                        snapshot.transcript_state.last_message_uuid = copied_text(
                            &tokens.last_message_uuid,
                        );
                        snapshot.transcript_state.last_timestamp = copied_text(
                            &tokens.last_timestamp,
                        );
                        snapshot.history.tokens = Some(tokens);
                    }
                    Ok(())
                },
                Err(error) => Err(error),
            }
        },
    }
}

} // verus!
