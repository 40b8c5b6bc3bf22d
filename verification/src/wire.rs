//! The two body schemas of the service, read from a parsed JSON document.
//!
//! A success body is `{ candidates: [ { content?: { parts: [...] },
//! finishReason?, safetyRatings? } ], promptFeedback?: { blockReason?,
//! safetyRatings? } }`; an error body is `{ error: { message, status? } }`.
//! Members that the schemas do not name are ignored.

use vstd::prelude::*;

use crate::errors::FinishReason;
use crate::json::{json_is_object, json_items, json_member, json_text, json_tree, json_trees, JsonTree};
use crate::response::{
    ApiError, ApiErrorView, Candidate, CandidateView, Content, GenerateContentResponse,
    PromptFeedback, PromptFeedbackView, ResponseView, SafetyRating, SafetyRatingView,
};
use crate::text::text_eq;
use crate::types::{ContentPart, FileData, PartView};

verus! {

/// An optional member of an object, as a schema sees it.
pub enum Field<T> {
    /// The object has no such member.
    Absent,
    /// The member is there and has the kind that the schema asks for.
    Present(T),
    /// The member is there and has another kind.
    Mismatch,
}

/// The member of an object under a key; `None` for an object without it and
/// for a tree that is no object.
pub open spec fn member(tree: JsonTree, key: Seq<char>) -> Option<JsonTree> {
    match tree {
        JsonTree::Object(members) => if members.contains_key(key) {
            Some(members[key])
        } else {
            None
        },
        _ => None,
    }
}

/// A member that must be there and be a string.
pub open spec fn required_text(tree: JsonTree, key: Seq<char>) -> Option<Seq<char>> {
    match member(tree, key) {
        Some(JsonTree::Text(text)) => Some(text),
        _ => None,
    }
}

/// A member that may be missing and must be a string where it is there.
pub open spec fn optional_text(tree: JsonTree, key: Seq<char>) -> Field<Seq<char>> {
    match member(tree, key) {
        None => Field::Absent,
        Some(JsonTree::Text(text)) => Field::Present(text),
        Some(_) => Field::Mismatch,
    }
}

/// The items of an array, each decoded: `None` as soon as one item does not
/// decode, else the decoded items in the order of the array.
pub open spec fn all_decoded<T>(items: Seq<JsonTree>, decode: spec_fn(JsonTree) -> Option<T>) -> Option<
    Seq<T>,
> {
    if forall|i: int| 0 <= i < items.len() ==> decode(#[trigger] items[i]) is Some {
        Some(Seq::new(items.len(), |i: int| decode(items[i])->0))
    } else {
        None
    }
}

/// A safety rating: an object with the strings `category` and `probability`.
pub open spec fn rating_of(tree: JsonTree) -> Option<SafetyRatingView> {
    match (required_text(tree, "category"@), required_text(tree, "probability"@)) {
        (Some(category), Some(probability)) => Some(SafetyRatingView { category, probability }),
        _ => None,
    }
}

/// The member `safetyRatings`: no ratings where it is missing, else an array
/// of ratings.
pub open spec fn ratings_of(tree: JsonTree) -> Option<Seq<SafetyRatingView>> {
    match member(tree, "safetyRatings"@) {
        None => Some(Seq::empty()),
        Some(JsonTree::Array(items)) => all_decoded(items, |item: JsonTree| rating_of(item)),
        Some(_) => None,
    }
}

/// A file reference: an object with the strings `mimeType` and `fileUri`.
pub open spec fn file_of(tree: JsonTree) -> Option<PartView> {
    match (required_text(tree, "mimeType"@), required_text(tree, "fileUri"@)) {
        (Some(mime_type), Some(file_uri)) => Some(PartView::FileReference { mime_type, file_uri }),
        _ => None,
    }
}

/// A content part: an object with a string `text`, or else with a file
/// reference under `fileData`.
pub open spec fn part_of(tree: JsonTree) -> Option<PartView> {
    match member(tree, "text"@) {
        Some(JsonTree::Text(text)) => Some(PartView::Text(text)),
        Some(_) => None,
        None => match member(tree, "fileData"@) {
            Some(file) => file_of(file),
            None => None,
        },
    }
}

/// A content: an object with an array `parts` of content parts.
pub open spec fn content_of(tree: JsonTree) -> Option<Seq<PartView>> {
    match member(tree, "parts"@) {
        Some(JsonTree::Array(items)) => all_decoded(items, |item: JsonTree| part_of(item)),
        _ => None,
    }
}

/// The finish reason that a wire name stands for.
pub open spec fn finish_reason_of(name: Seq<char>) -> FinishReason {
    if name == "SAFETY"@ {
        FinishReason::Safety
    } else if name == "RECITATION"@ {
        FinishReason::Recitation
    } else {
        FinishReason::Other
    }
}

/// A candidate: an object whose `content`, `finishReason` and
/// `safetyRatings` may each be missing.
pub open spec fn candidate_of(tree: JsonTree) -> Option<CandidateView> {
    if !(tree is Object) {
        None
    } else {
        let content = match member(tree, "content"@) {
            None => Some(None),
            Some(inner) => match content_of(inner) {
                Some(parts) => Some(Some(parts)),
                None => None,
            },
        };
        match (content, optional_text(tree, "finishReason"@), ratings_of(tree)) {
            (Some(_), Field::Mismatch, _) => None,
            (Some(content), Field::Absent, Some(safety_ratings)) => Some(
                CandidateView { content, finish_reason: None, safety_ratings },
            ),
            (Some(content), Field::Present(name), Some(safety_ratings)) => Some(
                CandidateView {
                    content,
                    finish_reason: Some(finish_reason_of(name)),
                    safety_ratings,
                },
            ),
            _ => None,
        }
    }
}

/// A prompt feedback: an object whose `blockReason` and `safetyRatings` may
/// each be missing.
pub open spec fn feedback_of(tree: JsonTree) -> Option<PromptFeedbackView> {
    if !(tree is Object) {
        None
    } else {
        match (optional_text(tree, "blockReason"@), ratings_of(tree)) {
            (Field::Absent, Some(safety_ratings)) => Some(
                PromptFeedbackView { block_reason: None, safety_ratings },
            ),
            (Field::Present(reason), Some(safety_ratings)) => Some(
                PromptFeedbackView { block_reason: Some(reason), safety_ratings },
            ),
            _ => None,
        }
    }
}

/// A success body: an object with an array `candidates`, and a prompt
/// feedback under `promptFeedback` where that member is there.
pub open spec fn response_of(tree: JsonTree) -> Option<ResponseView> {
    match member(tree, "candidates"@) {
        Some(JsonTree::Array(items)) => match all_decoded(
            items,
            |item: JsonTree| candidate_of(item),
        ) {
            Some(candidates) => match member(tree, "promptFeedback"@) {
                None => Some(ResponseView { candidates, prompt_feedback: None }),
                Some(inner) => match feedback_of(inner) {
                    Some(feedback) => Some(
                        ResponseView { candidates, prompt_feedback: Some(feedback) },
                    ),
                    None => None,
                },
            },
            None => None,
        },
        _ => None,
    }
}

/// An error body: an object with an object `error` that has a string
/// `message` and, where it is there, a string `status`.
pub open spec fn api_error_of(tree: JsonTree) -> Option<ApiErrorView> {
    match member(tree, "error"@) {
        Some(inner) => match (required_text(inner, "message"@), optional_text(inner, "status"@)) {
            (Some(message), Field::Absent) => Some(ApiErrorView { message, status: None }),
            (Some(message), Field::Present(status)) => Some(
                ApiErrorView { message, status: Some(status) },
            ),
            _ => None,
        },
        None => None,
    }
}

/// What a decoded optional string holds.
pub open spec fn text_field_view(field: Field<String>) -> Field<Seq<char>> {
    match field {
        Field::Absent => Field::Absent,
        Field::Present(text) => Field::Present(text@),
        Field::Mismatch => Field::Mismatch,
    }
}

fn read_required_text(value: &serde_json::Value, key: &str) -> (text: Option<String>)
    ensures
        text.deep_view() == required_text(json_tree(*value), key@),
{
    match json_member(value, key) {
        Some(found) => match json_text(found) {
            Some(text) => Some(text.to_owned()),
            None => None,
        },
        None => None,
    }
}

fn read_optional_text(value: &serde_json::Value, key: &str) -> (field: Field<String>)
    ensures
        text_field_view(field) == optional_text(json_tree(*value), key@),
{
    match json_member(value, key) {
        Some(found) => match json_text(found) {
            Some(text) => Field::Present(text.to_owned()),
            None => Field::Mismatch,
        },
        None => Field::Absent,
    }
}

/// Decodes a safety rating.
pub fn decode_rating(value: &serde_json::Value) -> (rating: Option<SafetyRating>)
    ensures
        rating.deep_view() == rating_of(json_tree(*value)),
{
    let category = read_required_text(value, "category");
    let probability = read_required_text(value, "probability");
    match (category, probability) {
        (Some(category), Some(probability)) => Some(SafetyRating { category, probability }),
        _ => None,
    }
}

fn decode_ratings(value: &serde_json::Value) -> (ratings: Option<Vec<SafetyRating>>)
    ensures
        ratings.deep_view() == ratings_of(json_tree(*value)),
{
    let list = match json_member(value, "safetyRatings") {
        None => {
            return Some(Vec::new());
        },
        Some(found) => match json_items(found) {
            Some(list) => list,
            None => {
                return None;
            },
        },
    };
    let ghost trees = json_trees(list@);
    let ghost decode = |item: JsonTree| rating_of(item);
    let mut ratings: Vec<SafetyRating> = Vec::new();
    let mut i: usize = 0;
    while i < list.len()
        invariant
            i <= list.len(),
            trees == json_trees(list@),
            decode == (|item: JsonTree| rating_of(item)),
            ratings_of(json_tree(*value)) == all_decoded(trees, decode),
            ratings.len() == i,
            forall|k: int| 0 <= k < i ==> decode(#[trigger] trees[k]) == Some(ratings[k]@),
        decreases list.len() - i,
    {
        match decode_rating(&list[i]) {
            Some(rating) => {
                ratings.push(rating);
            },
            None => {
                assert(decode(trees[i as int]) is None);
                return None;
            },
        }
        i += 1;
    }
    Some(ratings)
}

/// Decodes a content part.
pub fn decode_part(value: &serde_json::Value) -> (part: Option<ContentPart>)
    ensures
        part.deep_view() == part_of(json_tree(*value)),
{
    match json_member(value, "text") {
        Some(found) => match json_text(found) {
            Some(text) => Some(ContentPart::Text(text.to_owned())),
            None => None,
        },
        None => match json_member(value, "fileData") {
            Some(file) => {
                let mime_type = read_required_text(file, "mimeType");
                let file_uri = read_required_text(file, "fileUri");
                match (mime_type, file_uri) {
                    (Some(mime_type), Some(file_uri)) => Some(
                        ContentPart::FileReference(FileData { mime_type, file_uri }),
                    ),
                    _ => None,
                }
            },
            None => None,
        },
    }
}

/// Decodes the content of a candidate.
pub fn decode_content(value: &serde_json::Value) -> (content: Option<Content>)
    ensures
        content.deep_view() == content_of(json_tree(*value)),
{
    let list = match json_member(value, "parts") {
        None => {
            return None;
        },
        Some(found) => match json_items(found) {
            Some(list) => list,
            None => {
                return None;
            },
        },
    };
    let ghost trees = json_trees(list@);
    let ghost decode = |item: JsonTree| part_of(item);
    let mut parts: Vec<ContentPart> = Vec::new();
    let mut i: usize = 0;
    while i < list.len()
        invariant
            i <= list.len(),
            trees == json_trees(list@),
            decode == (|item: JsonTree| part_of(item)),
            content_of(json_tree(*value)) == all_decoded(trees, decode),
            parts.len() == i,
            forall|k: int| 0 <= k < i ==> decode(#[trigger] trees[k]) == Some(parts[k]@),
        decreases list.len() - i,
    {
        match decode_part(&list[i]) {
            Some(part) => {
                parts.push(part);
            },
            None => {
                assert(decode(trees[i as int]) is None);
                return None;
            },
        }
        i += 1;
    }
    Some(Content { parts })
}

/// Reads the wire name of a finish reason.
pub fn decode_finish_reason(name: &str) -> (reason: FinishReason)
    ensures
        reason == finish_reason_of(name@),
{
    if text_eq(name, "SAFETY") {
        FinishReason::Safety
    } else if text_eq(name, "RECITATION") {
        FinishReason::Recitation
    } else {
        FinishReason::Other
    }
}

/// Decodes a candidate.
pub fn decode_candidate(value: &serde_json::Value) -> (candidate: Option<Candidate>)
    ensures
        candidate.deep_view() == candidate_of(json_tree(*value)),
{
    if !json_is_object(value) {
        return None;
    }
    let content = match json_member(value, "content") {
        None => None,
        Some(inner) => match decode_content(inner) {
            Some(content) => Some(content),
            None => {
                return None;
            },
        },
    };
    let finish_reason = match read_optional_text(value, "finishReason") {
        Field::Absent => None,
        Field::Present(name) => Some(decode_finish_reason(name.as_str())),
        Field::Mismatch => {
            return None;
        },
    };
    match decode_ratings(value) {
        Some(safety_ratings) => Some(Candidate { content, finish_reason, safety_ratings }),
        None => None,
    }
}

/// Decodes a prompt feedback.
pub fn decode_feedback(value: &serde_json::Value) -> (feedback: Option<PromptFeedback>)
    ensures
        feedback.deep_view() == feedback_of(json_tree(*value)),
{
    if !json_is_object(value) {
        return None;
    }
    let block_reason = match read_optional_text(value, "blockReason") {
        Field::Absent => None,
        Field::Present(reason) => Some(reason),
        Field::Mismatch => {
            return None;
        },
    };
    match decode_ratings(value) {
        Some(safety_ratings) => Some(PromptFeedback { block_reason, safety_ratings }),
        None => None,
    }
}

/// Decodes a success body.
pub fn decode_response(value: &serde_json::Value) -> (response: Option<GenerateContentResponse>)
    ensures
        response.deep_view() == response_of(json_tree(*value)),
{
    let list = match json_member(value, "candidates") {
        None => {
            return None;
        },
        Some(found) => match json_items(found) {
            Some(list) => list,
            None => {
                return None;
            },
        },
    };
    let ghost trees = json_trees(list@);
    let ghost decode = |item: JsonTree| candidate_of(item);
    let mut candidates: Vec<Candidate> = Vec::new();
    let mut i: usize = 0;
    while i < list.len()
        invariant
            i <= list.len(),
            trees == json_trees(list@),
            decode == (|item: JsonTree| candidate_of(item)),
            member(json_tree(*value), "candidates"@) == Some(JsonTree::Array(trees)),
            candidates.len() == i,
            forall|k: int| 0 <= k < i ==> decode(#[trigger] trees[k]) == Some(candidates[k]@),
        decreases list.len() - i,
    {
        match decode_candidate(&list[i]) {
            Some(candidate) => {
                candidates.push(candidate);
            },
            None => {
                assert(decode(trees[i as int]) is None);
                return None;
            },
        }
        i += 1;
    }
    assert(candidates.deep_view() =~= all_decoded(trees, decode)->0);
    let prompt_feedback = match json_member(value, "promptFeedback") {
        None => None,
        Some(inner) => match decode_feedback(inner) {
            Some(feedback) => Some(feedback),
            None => {
                return None;
            },
        },
    };
    Some(GenerateContentResponse { candidates, prompt_feedback })
}

/// Decodes an error body.
pub fn decode_api_error(value: &serde_json::Value) -> (error: Option<ApiError>)
    ensures
        match error {
            Some(decoded) => api_error_of(json_tree(*value)) == Some(decoded@),
            None => api_error_of(json_tree(*value)) is None,
        },
{
    match json_member(value, "error") {
        Some(inner) => {
            let message = read_required_text(inner, "message");
            let status = read_optional_text(inner, "status");
            match (message, status) {
                (Some(message), Field::Absent) => Some(ApiError { message, status: None }),
                (Some(message), Field::Present(status)) => Some(
                    ApiError { message, status: Some(status) },
                ),
                _ => None,
            }
        },
        None => None,
    }
}

} // verus!
