//! What an input document says.

use vstd::prelude::*;

use crate::json::{as_text, either_field, field, json_of_ref, Json, JsonValue};
use crate::text::{owned_text, slice_text_of, text_of};

verus! {

/// The session that the document is about.
pub open spec fn session_id_of(input: Json) -> Option<Seq<char>> {
    as_text(either_field(input, "session_id"@, "sessionId"@))
}

/// The cost document.
pub open spec fn cost_of(input: Json) -> Option<Json> {
    either_field(input, "cost"@, "sessionCost"@)
}

/// The model document.
pub open spec fn model_of(input: Json) -> Option<Json> {
    either_field(input, "model"@, "modelInfo"@)
}

/// The time of the document: the first of its two time members that is text.
pub open spec fn timestamp_of(input: Json) -> Option<Seq<char>> {
    match as_text(field(input, "timestamp"@)) {
        Some(text) => Some(text),
        None => as_text(field(input, "last_update_time"@)),
    }
}

/// The path of the transcript.
pub open spec fn transcript_path_of(input: Json) -> Option<Seq<char>> {
    as_text(either_field(input, "transcript_path"@, "transcriptPath"@))
}

/// The project directory that the workspace document names.
pub open spec fn workspace_path_of(input: Json) -> Option<Seq<char>> {
    match either_field(input, "workspace"@, "workspaceInfo"@) {
        Some(workspace) => as_text(either_field(workspace, "project_dir"@, "projectDir"@)),
        None => None,
    }
}

/// The path of the project: what the workspace names, else the directory that
/// the document names, else what is known, else the directory in which the
/// process runs.
pub open spec fn project_path_of(
    input: Json,
    existing: Option<Seq<char>>,
    current_dir: Option<Seq<char>>,
) -> Option<Seq<char>> {
    if workspace_path_of(input) is Some {
        workspace_path_of(input)
    } else if as_text(either_field(input, "cwd"@, "currentDir"@)) is Some {
        as_text(either_field(input, "cwd"@, "currentDir"@))
    } else if existing is Some {
        existing
    } else {
        current_dir
    }
}

/// The text that an optional value is.
fn text_at(value: Option<&JsonValue>) -> (text: Option<&str>)
    ensures
        slice_text_of(text) == as_text(json_of_ref(value)),
{
    match value {
        Some(value) => value.as_str(),
        None => None,
    }
}

/// The session that the document is about.
pub fn extract_session_id(input_data: &JsonValue) -> (id: Option<&str>)
    ensures
        slice_text_of(id) == session_id_of(input_data@),
{
    text_at(input_data.get_either("session_id", "sessionId"))
}

/// The cost document.
pub fn extract_cost_value(input_data: &JsonValue) -> (cost: Option<&JsonValue>)
    ensures
        json_of_ref(cost) == cost_of(input_data@),
{
    input_data.get_either("cost", "sessionCost")
}

/// The model document.
pub fn extract_model(input_data: &JsonValue) -> (model: Option<&JsonValue>)
    ensures
        json_of_ref(model) == model_of(input_data@),
{
    input_data.get_either("model", "modelInfo")
}

/// The time of the document.
pub fn extract_timestamp(input_data: &JsonValue) -> (timestamp: Option<&str>)
    ensures
        slice_text_of(timestamp) == timestamp_of(input_data@),
{
    match text_at(input_data.get("timestamp")) {
        Some(text) => Some(text),
        None => text_at(input_data.get("last_update_time")),
    }
}

/// The path of the transcript.
pub fn extract_transcript_path(input_data: &JsonValue) -> (path: Option<&str>)
    ensures
        slice_text_of(path) == transcript_path_of(input_data@),
{
    text_at(input_data.get_either("transcript_path", "transcriptPath"))
}

/// The path of the project. `existing` is what is known of it, `current_dir`
/// the directory in which the process runs.
pub fn determine_project_path(
    input: &JsonValue,
    existing: Option<&str>,
    current_dir: Option<&str>,
) -> (path: Option<String>)
    ensures
        text_of(path) == project_path_of(
            input@,
            slice_text_of(existing),
            slice_text_of(current_dir),
        ),
{
    if let Some(workspace) = input.get_either("workspace", "workspaceInfo") {
        if let Some(path) = text_at(workspace.get_either("project_dir", "projectDir")) {
            return Some(path.to_owned());
        }
    }
    if let Some(cwd) = text_at(input.get_either("cwd", "currentDir")) {
        return Some(cwd.to_owned());
    }
    if let Some(existing) = existing {
        return Some(existing.to_owned());
    }
    owned_text(current_dir)
}

} // verus!
