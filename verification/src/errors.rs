//! What can go wrong in a call, and why generation stopped.

use vstd::prelude::*;

use crate::response::{ApiError, ApiErrorView, BlockKind, BlockKindView};
use crate::status::{describe_status, status_words};

verus! {

/// The two shapes that a response body can have.
#[derive(Debug, Clone, Copy, PartialEq, Eq, Structural)]
pub enum Schema {
    /// The body of a call that the service answered with status 200.
    Success,
    /// The body of a call that the service answered with any other status.
    ProviderError,
}

/// Why a call failed.
#[derive(Debug, PartialEq, Eq)]
pub enum GemError {
    /// The request could not be sent, or no response came back.
    ConnectionFailure(String),
    /// The response arrived with this status, but its body could not be read.
    ResponseBodyUnreadable { status: u16, detail: String },
    /// The body does not match the schema that its status calls for.
    ParsingFailure { schema: Schema, detail: String },
    /// The service answered with a well-formed error.
    ProviderError(ApiError),
    /// The response has no candidate.
    EmptyResponse,
    /// No candidate has content, and the feedback gives no reason.
    AllCandidatesBlocked,
    /// No candidate has content, and the feedback gives this reason.
    PromptFeedbackBlocked(String),
    /// The streaming endpoint answered with a status other than 200.
    StreamSetupFailure { status: u16, body: String },
    /// An element of a streamed array could not be decoded, or the stream
    /// does not frame an array.
    StreamElementDecodeFailure(String),
}

/// What a `GemError` holds.
pub enum GemErrorView {
    ConnectionFailure(Seq<char>),
    ResponseBodyUnreadable { status: u16, detail: Seq<char> },
    ParsingFailure { schema: Schema, detail: Seq<char> },
    ProviderError(ApiErrorView),
    EmptyResponse,
    AllCandidatesBlocked,
    PromptFeedbackBlocked(Seq<char>),
    StreamSetupFailure { status: u16, body: Seq<char> },
    StreamElementDecodeFailure(Seq<char>),
}

impl View for GemError {
    type V = GemErrorView;

    open spec fn view(&self) -> GemErrorView {
        match self {
            GemError::ConnectionFailure(detail) => GemErrorView::ConnectionFailure(detail@),
            GemError::ResponseBodyUnreadable { status, detail } => {
                GemErrorView::ResponseBodyUnreadable { status: *status, detail: detail@ }
            },
            GemError::ParsingFailure { schema, detail } => GemErrorView::ParsingFailure {
                schema: *schema,
                detail: detail@,
            },
            GemError::ProviderError(error) => GemErrorView::ProviderError(error@),
            GemError::EmptyResponse => GemErrorView::EmptyResponse,
            GemError::AllCandidatesBlocked => GemErrorView::AllCandidatesBlocked,
            GemError::PromptFeedbackBlocked(reason) => GemErrorView::PromptFeedbackBlocked(reason@),
            GemError::StreamSetupFailure { status, body } => GemErrorView::StreamSetupFailure {
                status: *status,
                body: body@,
            },
            GemError::StreamElementDecodeFailure(detail) => {
                GemErrorView::StreamElementDecodeFailure(detail@)
            },
        }
    }
}

impl DeepView for GemError {
    type V = GemErrorView;

    open spec fn deep_view(&self) -> GemErrorView {
        self@
    }
}

/// The error by which a call reports a response that is not usable.
pub open spec fn blocked(kind: BlockKindView) -> GemErrorView {
    match kind {
        BlockKindView::Empty => GemErrorView::EmptyResponse,
        BlockKindView::AllBlocked => GemErrorView::AllCandidatesBlocked,
        BlockKindView::Feedback(reason) => GemErrorView::PromptFeedbackBlocked(reason),
    }
}

impl GemErrorView {
    /// The message of an error.
    pub open spec fn message(self) -> Seq<char> {
        match self {
            GemErrorView::EmptyResponse => "Received an empty response from the API"@,
            GemErrorView::AllCandidatesBlocked => "All candidates have a block error"@,
            GemErrorView::PromptFeedbackBlocked(reason) => "Feedback error: "@ + reason,
            GemErrorView::ConnectionFailure(detail) => "Connection error: "@ + detail,
            GemErrorView::ParsingFailure { schema, detail } => "Parsing error: "@ + detail,
            GemErrorView::ProviderError(error) => "Gemini API error: "@ + error.message,
            GemErrorView::ResponseBodyUnreadable { status, detail } => "Response error: "@ + detail
                + " (status code: "@ + status_words(status) + ")"@,
            GemErrorView::StreamSetupFailure { status, body } => "Stream error: Response error: "@
                + body + " (status code: "@ + status_words(status) + ")"@,
            GemErrorView::StreamElementDecodeFailure(detail) => "Stream error: "@ + detail,
        }
    }
}

fn joined(head: &str, tail: &str) -> (text: String)
    ensures
        text@ == head@ + tail@,
{
    let mut text = head.to_owned();
    text.append(tail);
    text
}

fn with_status(head: &str, middle: &str, status: u16) -> (text: String)
    ensures
        text@ == head@ + middle@ + " (status code: "@ + status_words(status) + ")"@,
{
    let mut text = joined(head, middle);
    text.append(" (status code: ");
    let words = describe_status(status);
    text.append(words.as_str());
    text.append(")");
    text
}

impl GemError {
    /// The message of the error, for display.
    pub fn to_string(&self) -> (text: String)
        ensures
            text@ == self@.message(),
    {
        match self {
            GemError::EmptyResponse => "Received an empty response from the API".to_owned(),
            GemError::AllCandidatesBlocked => "All candidates have a block error".to_owned(),
            GemError::PromptFeedbackBlocked(reason) => joined("Feedback error: ", reason.as_str()),
            GemError::ConnectionFailure(detail) => joined("Connection error: ", detail.as_str()),
            GemError::ParsingFailure { schema, detail } => joined(
                "Parsing error: ",
                detail.as_str(),
            ),
            GemError::ProviderError(error) => joined("Gemini API error: ", error.message.as_str()),
            GemError::ResponseBodyUnreadable { status, detail } => with_status(
                "Response error: ",
                detail.as_str(),
                *status,
            ),
            GemError::StreamSetupFailure { status, body } => with_status(
                "Stream error: Response error: ",
                body.as_str(),
                *status,
            ),
            GemError::StreamElementDecodeFailure(detail) => joined(
                "Stream error: ",
                detail.as_str(),
            ),
        }
    }

    /// The error by which a call reports a response that is not usable.
    pub fn from_block(kind: BlockKind) -> (error: GemError)
        ensures
            error@ == blocked(kind@),
    {
        match kind {
            BlockKind::Empty => GemError::EmptyResponse,
            BlockKind::AllBlocked => GemError::AllCandidatesBlocked,
            BlockKind::Feedback(reason) => GemError::PromptFeedbackBlocked(reason),
        }
    }
}

/// Why generation of a candidate stopped.
#[derive(Debug, Clone, Copy, PartialEq, Eq, Structural)]
pub enum FinishReason {
    /// Stopped for safety.
    Safety,
    /// Stopped because the content recites a source.
    Recitation,
    /// Any other reason.
    Other,
}

impl FinishReason {
    /// Whether this reason means that the provider withheld the candidate.
    pub open spec fn blocks(self) -> bool {
        self is Safety || self is Recitation
    }

    /// `true` for `Safety` and `Recitation`, `false` otherwise.
    pub fn is_block_error(&self) -> (blocked: bool)
        ensures
            blocked == self.blocks(),
    {
        matches!(self, FinishReason::Safety | FinishReason::Recitation)
    }
}

} // verus!
