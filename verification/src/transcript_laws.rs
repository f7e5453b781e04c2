//! What holds of text, of the lines of a transcript and of the token usage that
//! they report.

use vstd::prelude::*;
use vstd::utf8::{decode_utf8, valid_utf8};

use crate::cost_laws::counts;
use crate::document::parsed_json;
use crate::json::Json;
use crate::session::{
    nat_of, no_tokens, no_transcript, tokens_of, SnapshotView, TokenHistory, TokenView,
    TranscriptState,
};
use crate::text::{is_white, slice_text_of, text_of, trimmed};
use crate::transcript::{
    baseline_of, is_summary, lines, lines_taken_in, message_tokens, progress_result_of, resumed,
    starts_over, tokens_after, tokens_result_of, transcript_taken_in, ProgressView, TranscriptError,
    TranscriptProgress, TranscriptRead,
};

verus! {

/// Law: optional text is seen as it is.
pub proof fn law_optional_text_is_seen(text: String, slice: &str)
    ensures
        text_of(Some(text)) == Some(text@),
        text_of(None) is None,
        slice_text_of(Some(slice)) == Some(slice@),
        slice_text_of(None) is None,
{
}

/// Law: white space is what Unicode lists as such.
pub proof fn law_white_space_is_listed(c: char)
    ensures
        is_white(c) <==> (c == ' ' || c == '\u{85}' || c == '\u{a0}' || c == '\u{1680}' || (
        '\u{9}' <= c && c <= '\u{d}') || ('\u{2000}' <= c && c <= '\u{200a}') || c == '\u{2028}'
            || c == '\u{2029}' || c == '\u{202f}' || c == '\u{205f}' || c == '\u{3000}'),
{
}

/// Whether all characters of a text are white space.
pub open spec fn is_blank(text: Seq<char>) -> bool {
    forall|i: int| 0 <= i < text.len() ==> is_white(#[trigger] text[i])
}

proof fn lemma_blank_parts(first: Seq<char>, second: Seq<char>)
    requires
        is_blank(first),
        is_blank(second),
    ensures
        is_blank(first + second),
{
    assert forall|i: int| 0 <= i < (first + second).len() implies is_white(
        #[trigger] (first + second)[i],
    ) by {
        if i < first.len() {
            assert((first + second)[i] == first[i]);
        } else {
            assert((first + second)[i] == second[i - first.len()]);
        }
    }
}

/// What trimming cuts off at the start and at the end of a text.
proof fn lemma_cut_ends(text: Seq<char>) -> (ends: (Seq<char>, Seq<char>))
    ensures
        text == ends.0 + trimmed(text) + ends.1,
        is_blank(ends.0),
        is_blank(ends.1),
    decreases text.len(),
{
    let empty = Seq::<char>::empty();
    if text.len() == 0 {
        assert(text =~= empty + trimmed(text) + empty);
        (empty, empty)
    } else if is_white(text.first()) {
        let ends = lemma_cut_ends(text.drop_first());
        let first = seq![text.first()];
        assert(is_blank(first));
        lemma_blank_parts(first, ends.0);
        assert(text =~= first + text.drop_first());
        assert(text =~= (first + ends.0) + trimmed(text) + ends.1);
        (first + ends.0, ends.1)
    } else if is_white(text.last()) {
        let ends = lemma_cut_ends(text.drop_last());
        let last = seq![text.last()];
        assert(is_blank(last));
        lemma_blank_parts(ends.1, last);
        assert(text =~= text.drop_last() + last);
        assert(text =~= ends.0 + trimmed(text) + (ends.1 + last));
        (ends.0, ends.1 + last)
    } else {
        assert(text =~= empty + trimmed(text) + empty);
        (empty, empty)
    }
}

/// Law: trimming cuts white space off the two ends of a text, all of it and
/// nothing else.
pub proof fn law_trimming_cuts_the_ends(text: Seq<char>)
    ensures
        exists|left: Seq<char>, right: Seq<char>|
            is_blank(left) && is_blank(right) && text == #[trigger] (left + trimmed(text) + right),
        trimmed(text).len() > 0 ==> !is_white(trimmed(text).first()) && !is_white(
            trimmed(text).last(),
        ),
{
    let ends = lemma_cut_ends(text);
    assert(is_blank(ends.0) && is_blank(ends.1) && text == ends.0 + trimmed(text) + ends.1);
    lemma_trimmed_ends(text);
}

proof fn lemma_trimmed_ends(text: Seq<char>)
    ensures
        trimmed(text).len() > 0 ==> !is_white(trimmed(text).first()) && !is_white(
            trimmed(text).last(),
        ),
    decreases text.len(),
{
    if text.len() > 0 {
        lemma_trimmed_ends(text.drop_first());
        lemma_trimmed_ends(text.drop_last());
    }
}

/// The lines one behind the other.
pub open spec fn joined(text: Seq<Seq<u8>>) -> Seq<u8>
    decreases text.len(),
{
    if text.len() == 0 {
        Seq::empty()
    } else {
        joined(text.drop_last()) + text.last()
    }
}

/// Law: the lines of a text, one behind the other, are the text. None of them
/// is empty, each but the last ends with a newline, and there is no newline
/// elsewhere in a line.
pub proof fn law_lines_end_at_newlines(bytes: Seq<u8>)
    ensures
        joined(lines(bytes)) == bytes,
        forall|i: int| 0 <= i < lines(bytes).len() ==> (#[trigger] lines(bytes)[i]).len() > 0,
        forall|i: int|
            0 <= i < lines(bytes).len() - 1 ==> (#[trigger] lines(bytes)[i]).last() == 10,
        forall|i: int, j: int|
            0 <= i < lines(bytes).len() && 0 <= j < lines(bytes)[i].len() - 1
                ==> #[trigger] lines(bytes)[i][j] != 10,
    decreases bytes.len(),
{
    if bytes.len() > 0 {
        law_lines_end_at_newlines(bytes.drop_last());
        let before = lines(bytes.drop_last());
        let after = lines(bytes);
        if before.len() == 0 || before.last().last() == 10 {
            assert(after == before.push(seq![bytes.last()]));
            assert(after.drop_last() =~= before);
            assert(joined(after) =~= bytes);
            assert forall|i: int, j: int|
                0 <= i < after.len() && 0 <= j < after[i].len() - 1 implies #[trigger] after[i][j]
                != 10 by {
                assert(after[i] == before[i]);
                assert(before[i][j] != 10);
            }
            assert forall|i: int| 0 <= i < after.len() - 1 implies (#[trigger] after[i]).last()
                == 10 by {
                assert(after[i] == before[i]);
            }
        } else {
            let last = before.last();
            assert(after == before.drop_last().push(last.push(bytes.last())));
            assert(after.drop_last() =~= before.drop_last());
            assert(joined(before) == joined(before.drop_last()) + last);
            assert(joined(after) =~= joined(before).push(bytes.last()));
            assert(joined(after) =~= bytes);
            assert forall|i: int, j: int|
                0 <= i < after.len() && 0 <= j < after[i].len() - 1 implies #[trigger] after[i][j]
                != 10 by {
                if i < after.len() - 1 {
                    assert(after[i] == before[i]);
                    assert(before[i][j] != 10);
                } else if j < last.len() - 1 {
                    assert(before[i][j] != 10);
                    assert(after[i][j] == before[i][j]);
                } else {
                    assert(after[i][j] == last.last());
                }
            }
            assert forall|i: int| 0 <= i < after.len() - 1 implies (#[trigger] after[i]).last()
                == 10 by {
                assert(after[i] == before[i]);
            }
            assert forall|i: int| 0 <= i < after.len() implies (#[trigger] after[i]).len()
                > 0 by {
                if i < after.len() - 1 {
                    assert(after[i] == before[i]);
                }
            }
        }
    }
}

/// Whether the member `key` of `json` gives the text `text`: it is that text,
/// or there is no such text and `text` is none.
pub open spec fn tells(json: Json, key: Seq<char>, text: Option<Seq<char>>) -> bool {
    match json {
        Json::Object(map) => if map.contains_key(key) {
            match map[key] {
                Json::Text(t) => text == Some(t),
                _ => text is None,
            }
        } else {
            text is None
        },
        _ => text is None,
    }
}

/// Whether a document is marked as the summary of a compacted conversation.
pub open spec fn is_marked_as_summary(map: Map<Seq<char>, Json>) -> bool {
    map.contains_key("isCompactSummary"@) && map["isCompactSummary"@] == Json::Bool(true)
}

/// Whether a document is a message of the assistant.
pub open spec fn is_from_assistant(map: Map<Seq<char>, Json>) -> bool {
    map.contains_key("type"@) && map["type"@] == Json::Text("assistant"@)
}

/// Whether `usage` is the usage document of the message `map`.
pub open spec fn has_usage(map: Map<Seq<char>, Json>, usage: Json) -> bool {
    map.contains_key("message"@) && (map["message"@] matches Json::Object(message)
        && message.contains_key("usage"@) && message["usage"@] == usage)
}

/// Law: documents are told apart by what is set in them: a summary by its mark,
/// a message of the assistant by its type, usage by its place in the message,
/// and texts by their keys.
pub proof fn law_documents_are_told_apart(
    map: Map<Seq<char>, Json>,
    message: Map<Seq<char>, Json>,
    key: Seq<char>,
    text: Seq<char>,
    json: Json,
    usage: Json,
    told: Option<Seq<char>>,
)
    ensures
        is_marked_as_summary(map.insert("isCompactSummary"@, json)) <==> json == Json::Bool(true),
        !is_marked_as_summary(map.remove("isCompactSummary"@)),
        is_from_assistant(map.insert("type"@, json)) <==> json == Json::Text("assistant"@),
        !is_from_assistant(map.remove("type"@)),
        has_usage(
            map.insert("message"@, Json::Object(message.insert("usage"@, json))),
            usage,
        ) <==> json == usage,
        !has_usage(map.insert("message"@, Json::Object(message.remove("usage"@))), usage),
        !has_usage(map.remove("message"@), usage),
        !(json is Object) ==> !has_usage(map.insert("message"@, json), usage),
        tells(Json::Object(map.insert(key, Json::Text(text))), key, told) <==> told == Some(text),
        !(json is Text) ==> (tells(Json::Object(map.insert(key, json)), key, told) <==> told
            is None),
        tells(Json::Object(map.remove(key)), key, told) <==> told is None,
        !(json is Object) ==> (tells(json, key, told) <==> told is None),
{
}

/// Law: a summary leaves no usage, only its own time.
pub proof fn law_summary_leaves_only_its_time(
    tokens: Option<TokenView>,
    map: Map<Seq<char>, Json>,
)
    requires
        is_marked_as_summary(map),
    ensures
        is_summary(Json::Object(map)),
        tokens_after(tokens, Json::Object(map)) matches Ok(Some(after)) && after.input == 0
            && after.output == 0 && after.cache_creation_input == 0 && after.cache_read_input == 0
            && after.context_used == 0 && after.last_message_uuid is None
            && after.system_baseline is None && tells(
            Json::Object(map),
            "timestamp"@,
            after.last_timestamp,
        ),
{
}

/// Law: the usage after a message of the assistant that reports usage is what
/// that message reports, whatever was known before: its own counts, their sum,
/// its own id and its own time. Only the baseline may come from before; where
/// there was none, it is the message's input. Usage whose sum is out of range is
/// an overflow.
pub proof fn law_usage_is_that_of_the_last_message(
    tokens: Option<TokenView>,
    map: Map<Seq<char>, Json>,
    usage: Json,
    input: nat,
    output: nat,
    cache_creation: nat,
    cache_read: nat,
)
    requires
        !is_marked_as_summary(map),
        is_from_assistant(map),
        has_usage(map, usage),
        counts(usage, "input_tokens"@, input as int),
        counts(usage, "output_tokens"@, output as int),
        counts(usage, "cache_creation_input_tokens"@, cache_creation as int),
        counts(usage, "cache_read_input_tokens"@, cache_read as int),
    ensures
        input + output + cache_creation + cache_read > u64::MAX ==> tokens_after(
            tokens,
            Json::Object(map),
        ) == Err::<Option<TokenView>, TranscriptError>(TranscriptError::CounterOverflow),
        input + output + cache_creation + cache_read <= u64::MAX ==> (tokens_after(
            tokens,
            Json::Object(map),
        ) matches Ok(Some(after)) && after.input == input && after.output == output
            && after.cache_creation_input == cache_creation && after.cache_read_input == cache_read
            && after.context_used == input + output + cache_creation + cache_read && tells(
            Json::Object(map),
            "uuid"@,
            after.last_message_uuid,
        ) && tells(Json::Object(map), "timestamp"@, after.last_timestamp) && after.system_baseline
            == (if tokens is Some && tokens->0.system_baseline is Some {
            tokens->0.system_baseline
        } else {
            Some(input)
        })),
        message_tokens(Json::Object(map)) matches Some(entry) && entry.input == input
            && entry.output == output && entry.cache_creation_input == cache_creation
            && entry.cache_read_input == cache_read && entry.context_used == input + output
            + cache_creation + cache_read && entry.system_baseline is None && tells(
            Json::Object(map),
            "uuid"@,
            entry.last_message_uuid,
        ) && tells(Json::Object(map), "timestamp"@, entry.last_timestamp),
{
}

/// Law: what is known before a message that reports usage decides on nothing but
/// the baseline after it.
pub proof fn law_earlier_usage_is_replaced(
    first: Option<TokenView>,
    second: Option<TokenView>,
    json: Json,
)
    requires
        !is_summary(json),
        message_tokens(json) is Some,
    ensures
        tokens_after(first, json) is Ok <==> tokens_after(second, json) is Ok,
        tokens_after(first, json) matches Ok(Some(a)) ==> (tokens_after(second, json) matches Ok(
            Some(b),
        ) && a.input == b.input && a.output == b.output && a.cache_creation_input
            == b.cache_creation_input && a.cache_read_input == b.cache_read_input
            && a.context_used == b.context_used && a.last_message_uuid == b.last_message_uuid
            && a.last_timestamp == b.last_timestamp),
{
}

/// Law: a document that is neither a summary nor a message of the assistant that
/// reports usage changes nothing.
pub proof fn law_other_documents_report_nothing(
    tokens: Option<TokenView>,
    json: Json,
    map: Map<Seq<char>, Json>,
)
    ensures
        !(json is Object) ==> tokens_after(tokens, json) == Ok::<
            Option<TokenView>,
            TranscriptError,
        >(tokens) && message_tokens(json) is None,
        !is_marked_as_summary(map) && (!is_from_assistant(map) || forall|usage: Json|
            !#[trigger] has_usage(map, usage)) ==> tokens_after(tokens, Json::Object(map)) == Ok::<
            Option<TokenView>,
            TranscriptError,
        >(tokens) && message_tokens(Json::Object(map)) is None,
        is_summary(Json::Object(map)) == is_marked_as_summary(map),
{
    if is_from_assistant(map) && map.contains_key("message"@) {
        if let Json::Object(message) = map["message"@] {
            if message.contains_key("usage"@) {
                assert(has_usage(map, message["usage"@]));
            }
        }
    }
}

/// Law: lines are taken in one by one, in their order. A line that is no text
/// ends the reading, one that is blank moves the offset alone, one that is no
/// document counts as a message that reports nothing, and a document is a
/// message after which the usage is as the document leaves it.
pub proof fn law_lines_are_taken_in_one_by_one(
    progress: ProgressView,
    text: Seq<Seq<u8>>,
    line: Seq<u8>,
)
    ensures
        lines_taken_in(progress, Seq::empty()) == Ok::<ProgressView, TranscriptError>(progress),
        lines_taken_in(progress, text) is Err ==> lines_taken_in(progress, text.push(line))
            == lines_taken_in(progress, text),
        lines_taken_in(progress, text) is Ok && !valid_utf8(line) ==> lines_taken_in(
            progress,
            text.push(line),
        ) == Err::<ProgressView, TranscriptError>(TranscriptError::NotUtf8),
        lines_taken_in(progress, text) matches Ok(before) ==> (lines_taken_in(
            progress,
            text.push(line),
        ) matches Ok(after) ==> valid_utf8(line) && after.offset == before.offset + line.len()
            && after.offset <= u64::MAX),
        lines_taken_in(progress, text) matches Ok(before) ==> (valid_utf8(line) && trimmed(
            decode_utf8(line),
        ).len() == 0 && before.offset + line.len() <= u64::MAX ==> lines_taken_in(
            progress,
            text.push(line),
        ) == Ok::<ProgressView, TranscriptError>(
            ProgressView {
                offset: before.offset + line.len(),
                messages: before.messages,
                tokens: before.tokens,
            },
        )),
        lines_taken_in(progress, text) matches Ok(before) ==> (valid_utf8(line) && trimmed(
            decode_utf8(line),
        ).len() > 0 && before.offset + line.len() <= u64::MAX && before.messages + 1 <= u64::MAX
            && parsed_json(trimmed(decode_utf8(line))) is None ==> lines_taken_in(
            progress,
            text.push(line),
        ) == Ok::<ProgressView, TranscriptError>(
            ProgressView {
                offset: before.offset + line.len(),
                messages: before.messages + 1,
                tokens: before.tokens,
            },
        )),
        lines_taken_in(progress, text) matches Ok(before) ==> (valid_utf8(line) && trimmed(
            decode_utf8(line),
        ).len() > 0 && before.offset + line.len() <= u64::MAX && before.messages + 1 <= u64::MAX ==> (
        parsed_json(trimmed(decode_utf8(line))) matches Some(json) ==> lines_taken_in(
            progress,
            text.push(line),
        ) == match tokens_after(before.tokens, json) {
            Ok(tokens) => Ok::<ProgressView, TranscriptError>(
                ProgressView {
                    offset: before.offset + line.len(),
                    messages: before.messages + 1,
                    tokens,
                },
            ),
            Err(error) => Err(error),
        })),
        lines_taken_in(progress, text) matches Ok(before) ==> (valid_utf8(line) && (before.offset
            + line.len() > u64::MAX || (trimmed(decode_utf8(line)).len() > 0 && before.messages + 1
            > u64::MAX)) ==> lines_taken_in(progress, text.push(line)) == Err::<
            ProgressView,
            TranscriptError,
        >(TranscriptError::CounterOverflow)),
{
    assert(text.push(line).drop_last() =~= text);
    assert(text.push(line).last() == line);
}

/// The number of lines that are not blank.
pub open spec fn messages_among(text: Seq<Seq<u8>>) -> nat {
    text.filter(|line: Seq<u8>| trimmed(decode_utf8(line)).len() > 0).len()
}

/// Law: each line that is not blank counts as one message.
pub proof fn law_lines_that_are_not_blank_are_messages(
    progress: ProgressView,
    text: Seq<Seq<u8>>,
)
    ensures
        lines_taken_in(progress, text) matches Ok(after) ==> after.messages == progress.messages
            + messages_among(text),
    decreases text.len(),
{
    reveal(Seq::filter);
    if text.len() > 0 {
        law_lines_that_are_not_blank_are_messages(progress, text.drop_last());
    }
}

/// Law: the last line that is a message of the assistant with usage decides on
/// the usage, as long as no line behind it is a document that reports any.
pub proof fn law_silent_lines_keep_the_usage(progress: ProgressView, text: Seq<Seq<u8>>)
    ensures
        (forall|i: int|
            0 <= i < text.len() ==> (parsed_json(
                trimmed(decode_utf8(#[trigger] text[i])),
            ) matches Some(json) ==> !is_summary(json) && message_tokens(json) is None)) ==> (
        lines_taken_in(progress, text) matches Ok(after) ==> after.tokens == progress.tokens),
    decreases text.len(),
{
    if text.len() > 0 {
        law_silent_lines_keep_the_usage(progress, text.drop_last());
        assert forall|i: int| 0 <= i < text.drop_last().len() implies #[trigger] text.drop_last()[i]
            == text[i] by {}
        assert(text.last() == text[text.len() - 1]);
    }
}

/// Law: a transcript is read on from where reading stopped if it is the same
/// file and no shorter than that; else it is read from its start, and its
/// messages are counted anew. The token usage is kept either way.
pub proof fn law_reading_resumes_where_it_stopped(
    snapshot: SnapshotView,
    path: Seq<char>,
    file_len: u64,
)
    ensures
        snapshot.transcript_state.transcript_path == Some(path)
            && snapshot.transcript_state.processed_offset <= file_len ==> !starts_over(
            snapshot.transcript_state,
            path,
            file_len,
        ) && resumed(snapshot, path, file_len).offset == snapshot.transcript_state.processed_offset
            && resumed(snapshot, path, file_len).messages
            == snapshot.transcript_state.processed_messages,
        snapshot.transcript_state.transcript_path != Some(path)
            || snapshot.transcript_state.processed_offset > file_len ==> starts_over(
            snapshot.transcript_state,
            path,
            file_len,
        ) && resumed(snapshot, path, file_len).offset == 0 && resumed(
            snapshot,
            path,
            file_len,
        ).messages == 0,
        resumed(snapshot, path, file_len).tokens == snapshot.history.tokens,
{
}

/// Law: reading a transcript changes the token usage and the state of
/// processing alone. The state names the transcript, how far it was read and,
/// where usage is known, the message that it comes from.
pub proof fn law_reading_changes_only_the_usage(
    snapshot: SnapshotView,
    path: Seq<char>,
    file_len: u64,
    bytes: Vec<u8>,
)
    ensures
        transcript_taken_in(
            snapshot,
            path,
            TranscriptRead::Unread { file_len, bytes },
        ) is Err <==> lines_taken_in(resumed(snapshot, path, file_len), lines(bytes@)) is Err,
        transcript_taken_in(
            snapshot,
            path,
            TranscriptRead::Unread { file_len, bytes },
        ) matches Err(error) ==> lines_taken_in(
            resumed(snapshot, path, file_len),
            lines(bytes@),
        ) == Err::<ProgressView, TranscriptError>(error),
        transcript_taken_in(
            snapshot,
            path,
            TranscriptRead::Unread { file_len, bytes },
        ) matches Ok(after) ==> (lines_taken_in(
            resumed(snapshot, path, file_len),
            lines(bytes@),
        ) matches Ok(progress) && after.transcript_state.transcript_path == Some(path)
            && after.transcript_state.processed_offset == progress.offset
            && after.transcript_state.processed_messages == progress.messages
            && after.history.tokens == progress.tokens && (progress.tokens matches Some(tokens)
            ==> after.transcript_state.last_message_uuid == tokens.last_message_uuid
            && after.transcript_state.last_timestamp == tokens.last_timestamp) && (
        progress.tokens is None ==> after.transcript_state.last_message_uuid
            == snapshot.transcript_state.last_message_uuid && after.transcript_state.last_timestamp
            == snapshot.transcript_state.last_timestamp) && after.meta == snapshot.meta
            && after.latest == snapshot.latest && after.history.cost == snapshot.history.cost
            && after.history.model_usage == snapshot.history.model_usage),
{
}

/// Law: a transcript that is not there is noted and no more, and one that
/// cannot be read is an error.
pub proof fn law_missing_transcripts_are_noted(snapshot: SnapshotView, path: Seq<char>)
    ensures
        transcript_taken_in(snapshot, path, TranscriptRead::Missing) matches Ok(after)
            && after.transcript_state.transcript_path == Some(path)
            && after.transcript_state.processed_offset
            == snapshot.transcript_state.processed_offset
            && after.transcript_state.processed_messages
            == snapshot.transcript_state.processed_messages
            && after.transcript_state.last_message_uuid
            == snapshot.transcript_state.last_message_uuid && after.transcript_state.last_timestamp
            == snapshot.transcript_state.last_timestamp && after.history == snapshot.history
            && after.meta == snapshot.meta && after.latest == snapshot.latest,
        transcript_taken_in(snapshot, path, TranscriptRead::Unreadable) == Err::<
            SnapshotView,
            TranscriptError,
        >(TranscriptError::Unreadable),
{
}

/// Law: token usage is seen field by field.
pub proof fn law_token_usage_is_seen(tokens: TokenHistory, view: Option<TokenView>)
    ensures
        tokens@.input == tokens.input,
        tokens@.output == tokens.output,
        tokens@.cache_creation_input == tokens.cache_creation_input,
        tokens@.cache_read_input == tokens.cache_read_input,
        tokens@.context_used == tokens.context_used,
        tokens@.last_message_uuid is Some <==> tokens.last_message_uuid is Some,
        tokens.last_message_uuid matches Some(text) ==> tokens@.last_message_uuid == Some(text@),
        tokens@.last_timestamp is Some <==> tokens.last_timestamp is Some,
        tokens.last_timestamp matches Some(text) ==> tokens@.last_timestamp == Some(text@),
        tokens@.system_baseline is Some <==> tokens.system_baseline is Some,
        tokens.system_baseline matches Some(n) ==> tokens@.system_baseline == Some(n as nat),
        tokens_of(Some(tokens)) == Some(tokens@),
        tokens_of(None) is None,
        view matches Some(known) ==> baseline_of(view) == known.system_baseline,
        view is None ==> baseline_of(view) is None,
        nat_of(tokens.system_baseline) == tokens@.system_baseline,
{
}

/// Law: the state of processing and the progress are seen field by field, and
/// so are results.
pub proof fn law_progress_is_seen(
    state: TranscriptState,
    progress: TranscriptProgress,
    tokens: Option<TokenHistory>,
    error: TranscriptError,
)
    ensures
        state.transcript_path is None ==> state@.transcript_path is None,
        state.transcript_path matches Some(text) ==> state@.transcript_path == Some(text@),
        state@.processed_offset == state.processed_offset,
        state@.processed_messages == state.processed_messages,
        state.last_message_uuid is None ==> state@.last_message_uuid is None,
        state.last_message_uuid matches Some(text) ==> state@.last_message_uuid == Some(text@),
        state.last_timestamp is None ==> state@.last_timestamp is None,
        state.last_timestamp matches Some(text) ==> state@.last_timestamp == Some(text@),
        progress@.offset == progress.current_offset,
        progress@.messages == progress.processed_messages,
        progress@.tokens == tokens_of(progress.latest_tokens),
        progress_result_of(Ok(progress)) == Ok::<ProgressView, TranscriptError>(progress@),
        progress_result_of(Err(error)) == Err::<ProgressView, TranscriptError>(error),
        tokens_result_of(Ok(tokens)) == Ok::<Option<TokenView>, TranscriptError>(
            tokens_of(tokens),
        ),
        tokens_result_of(Err(error)) == Err::<Option<TokenView>, TranscriptError>(error),
{
}

/// Law: at first nothing is known of token usage and no transcript was seen.
pub proof fn law_nothing_is_known_at_first()
    ensures
        no_tokens().input == 0 && no_tokens().output == 0,
        no_tokens().cache_creation_input == 0 && no_tokens().cache_read_input == 0,
        no_tokens().context_used == 0,
        no_tokens().last_message_uuid is None && no_tokens().last_timestamp is None,
        no_tokens().system_baseline is None,
        no_transcript().transcript_path is None,
        no_transcript().processed_offset == 0 && no_transcript().processed_messages == 0,
        no_transcript().last_message_uuid is None && no_transcript().last_timestamp is None,
{
}

} // verus!
