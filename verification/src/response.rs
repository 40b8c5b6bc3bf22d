//! A response of the service and the rule that decides whether it is usable.

use vstd::prelude::*;

use crate::errors::FinishReason;
use crate::types::{ContentPart, PartView};

verus! {

/// The provider's rating of content in one harm category.
#[derive(Debug, PartialEq, Eq)]
pub struct SafetyRating {
    pub category: String,
    pub probability: String,
}

/// What a safety rating holds.
pub struct SafetyRatingView {
    pub category: Seq<char>,
    pub probability: Seq<char>,
}

impl View for SafetyRating {
    type V = SafetyRatingView;

    open spec fn view(&self) -> SafetyRatingView {
        SafetyRatingView { category: self.category@, probability: self.probability@ }
    }
}

impl DeepView for SafetyRating {
    type V = SafetyRatingView;

    open spec fn deep_view(&self) -> SafetyRatingView {
        self@
    }
}

/// The content of a candidate: parts in order.
#[derive(Debug, PartialEq, Eq)]
pub struct Content {
    pub parts: Vec<ContentPart>,
}

impl View for Content {
    type V = Seq<PartView>;

    open spec fn view(&self) -> Seq<PartView> {
        self.parts.deep_view()
    }
}

impl DeepView for Content {
    type V = Seq<PartView>;

    open spec fn deep_view(&self) -> Seq<PartView> {
        self@
    }
}

/// The text of the first part that is text, if any part is.
pub open spec fn first_text(parts: Seq<PartView>) -> Option<Seq<char>>
    decreases parts.len(),
{
    if parts.len() == 0 {
        None
    } else {
        match parts.first() {
            PartView::Text(text) => Some(text),
            _ => first_text(parts.drop_first()),
        }
    }
}

impl Content {
    /// The text of the first part that is text, if any part is.
    pub fn get_text(&self) -> (text: Option<&String>)
        ensures
            match text {
                Some(found) => first_text(self@) == Some(found@),
                None => first_text(self@) is None,
            },
    {
        let ghost all = self@;
        let mut i: usize = 0;
        assert(all.skip(0) =~= all);
        while i < self.parts.len()
            invariant
                i <= self.parts.len(),
                all == self@,
                first_text(all) == first_text(all.skip(i as int)),
            decreases self.parts.len() - i,
        {
            assert(all.skip(i as int).drop_first() =~= all.skip(i + 1));
            if let ContentPart::Text(text) = &self.parts[i] {
                return Some(text);
            }
            i += 1;
        }
        None
    }
}

/// One of the alternative outputs that the provider generated.
#[derive(Debug, PartialEq, Eq)]
pub struct Candidate {
    pub content: Option<Content>,
    pub finish_reason: Option<FinishReason>,
    pub safety_ratings: Vec<SafetyRating>,
}

/// What a candidate holds.
pub struct CandidateView {
    pub content: Option<Seq<PartView>>,
    pub finish_reason: Option<FinishReason>,
    pub safety_ratings: Seq<SafetyRatingView>,
}

impl View for Candidate {
    type V = CandidateView;

    open spec fn view(&self) -> CandidateView {
        CandidateView {
            content: self.content.deep_view(),
            finish_reason: self.finish_reason,
            safety_ratings: self.safety_ratings.deep_view(),
        }
    }
}

impl DeepView for Candidate {
    type V = CandidateView;

    open spec fn deep_view(&self) -> CandidateView {
        self@
    }
}

/// What the provider says of the prompt as a whole.
#[derive(Debug, PartialEq, Eq)]
pub struct PromptFeedback {
    pub block_reason: Option<String>,
    pub safety_ratings: Vec<SafetyRating>,
}

/// What a prompt feedback holds.
pub struct PromptFeedbackView {
    pub block_reason: Option<Seq<char>>,
    pub safety_ratings: Seq<SafetyRatingView>,
}

impl View for PromptFeedback {
    type V = PromptFeedbackView;

    open spec fn view(&self) -> PromptFeedbackView {
        PromptFeedbackView {
            block_reason: self.block_reason.deep_view(),
            safety_ratings: self.safety_ratings.deep_view(),
        }
    }
}

impl DeepView for PromptFeedback {
    type V = PromptFeedbackView;

    open spec fn deep_view(&self) -> PromptFeedbackView {
        self@
    }
}

/// A response: candidates in order, and the feedback on the prompt if any.
#[derive(Debug, PartialEq, Eq)]
pub struct GenerateContentResponse {
    pub candidates: Vec<Candidate>,
    pub prompt_feedback: Option<PromptFeedback>,
}

/// What a response holds.
pub struct ResponseView {
    pub candidates: Seq<CandidateView>,
    pub prompt_feedback: Option<PromptFeedbackView>,
}

impl View for GenerateContentResponse {
    type V = ResponseView;

    open spec fn view(&self) -> ResponseView {
        ResponseView {
            candidates: self.candidates.deep_view(),
            prompt_feedback: self.prompt_feedback.deep_view(),
        }
    }
}

impl DeepView for GenerateContentResponse {
    type V = ResponseView;

    open spec fn deep_view(&self) -> ResponseView {
        self@
    }
}

/// The error that the service reports in the body of a failed call.
#[derive(Debug, PartialEq, Eq)]
pub struct ApiError {
    pub message: String,
    pub status: Option<String>,
}

/// What an `ApiError` holds.
pub struct ApiErrorView {
    pub message: Seq<char>,
    pub status: Option<Seq<char>>,
}

impl View for ApiError {
    type V = ApiErrorView;

    open spec fn view(&self) -> ApiErrorView {
        ApiErrorView { message: self.message@, status: self.status.deep_view() }
    }
}

/// Why a response is not usable.
#[derive(Debug, PartialEq, Eq)]
pub enum BlockKind {
    /// The response has no candidate.
    Empty,
    /// No candidate has content, and the feedback gives no reason.
    AllBlocked,
    /// No candidate has content, and the feedback gives this reason.
    Feedback(String),
}

/// What a `BlockKind` holds.
pub enum BlockKindView {
    Empty,
    AllBlocked,
    Feedback(Seq<char>),
}

impl View for BlockKind {
    type V = BlockKindView;

    open spec fn view(&self) -> BlockKindView {
        match self {
            BlockKind::Empty => BlockKindView::Empty,
            BlockKind::AllBlocked => BlockKindView::AllBlocked,
            BlockKind::Feedback(reason) => BlockKindView::Feedback(reason@),
        }
    }
}

impl ResponseView {
    /// Whether at least one candidate carries content.
    pub open spec fn has_content(self) -> bool {
        exists|i: int| 0 <= i < self.candidates.len() && (#[trigger] self.candidates[i]).content is Some
    }

    /// The reason by which the feedback says the prompt was blocked, if the
    /// response has feedback and the feedback has a reason.
    pub open spec fn block_reason(self) -> Option<Seq<char>> {
        match self.prompt_feedback {
            Some(feedback) => feedback.block_reason,
            None => None,
        }
    }

    /// The verdict on a response. No candidate at all: `Empty`. Else, content
    /// in any candidate: usable. Else the feedback's reason where it gives
    /// one, and `AllBlocked` where it gives none.
    pub open spec fn verdict(self) -> Option<BlockKindView> {
        if self.candidates.len() == 0 {
            Some(BlockKindView::Empty)
        } else if self.has_content() {
            None
        } else {
            match self.block_reason() {
                Some(reason) => Some(BlockKindView::Feedback(reason)),
                None => Some(BlockKindView::AllBlocked),
            }
        }
    }
}

/// What `validate` returns, by its view.
pub open spec fn verdict_view(outcome: Result<(), BlockKind>) -> Option<BlockKindView> {
    match outcome {
        Ok(_) => None,
        Err(kind) => Some(kind@),
    }
}

/// The texts that the candidates of a response give, in the order of the
/// candidates: for each candidate with content that has text, the text of
/// its first text part.
pub open spec fn results_of(candidates: Seq<CandidateView>) -> Seq<Seq<char>>
    decreases candidates.len(),
{
    if candidates.len() == 0 {
        Seq::empty()
    } else {
        let earlier = results_of(candidates.drop_last());
        match candidates.last().content {
            Some(parts) => match first_text(parts) {
                Some(text) => earlier.push(text),
                None => earlier,
            },
            None => earlier,
        }
    }
}

impl CandidateView {
    /// Whether the candidate stopped for a reason that blocks it.
    pub open spec fn is_blocked(self) -> bool {
        match self.finish_reason {
            Some(reason) => reason.blocks(),
            None => false,
        }
    }
}

impl Candidate {
    pub fn get_content(&self) -> (content: Option<&Content>)
        ensures
            content.deep_view() == self@.content,
    {
        self.content.as_ref()
    }

    /// Whether the candidate stopped for safety or for recitation.
    pub fn is_blocked(&self) -> (blocked: bool)
        ensures
            blocked == self@.is_blocked(),
    {
        match &self.finish_reason {
            Some(reason) => reason.is_block_error(),
            None => false,
        }
    }
}

impl GenerateContentResponse {
    pub fn get_candidates(&self) -> (candidates: &Vec<Candidate>)
        ensures
            candidates.deep_view() == self@.candidates,
    {
        &self.candidates
    }

    /// The reason by which the feedback says the prompt was blocked, if the
    /// response has feedback and the feedback has a reason.
    pub fn feedback(&self) -> (reason: Option<&String>)
        ensures
            reason.deep_view() == self@.block_reason(),
    {
        match &self.prompt_feedback {
            Some(feedback) => feedback.block_reason.as_ref(),
            None => None,
        }
    }

    /// The texts that the candidates give, in the order of the candidates.
    pub fn get_results(&self) -> (results: Vec<String>)
        ensures
            results.deep_view() == results_of(self@.candidates),
    {
        let ghost all = self@.candidates;
        let mut results: Vec<String> = Vec::new();
        let mut i: usize = 0;
        while i < self.candidates.len()
            invariant
                i <= self.candidates.len(),
                all == self@.candidates,
                results.deep_view() == results_of(all.subrange(0, i as int)),
            decreases self.candidates.len() - i,
        {
            assert(all.subrange(0, i + 1).drop_last() =~= all.subrange(0, i as int));
            match &self.candidates[i].content {
                Some(content) => match content.get_text() {
                    Some(text) => {
                        results.push(text.clone());
                    },
                    None => {},
                },
                None => {},
            }
            i += 1;
        }
        assert(all.subrange(0, i as int) =~= all);
        results
    }

    /// Whether any candidate carries content.
    pub fn has_content(&self) -> (found: bool)
        ensures
            found == self@.has_content(),
    {
        let mut i: usize = 0;
        while i < self.candidates.len()
            invariant
                i <= self.candidates.len(),
                forall|k: int| 0 <= k < i ==> self.candidates[k].content is None,
            decreases self.candidates.len() - i,
        {
            if self.candidates[i].content.is_some() {
                assert(self@.candidates[i as int].content is Some);
                return true;
            }
            i += 1;
        }
        false
    }

    /// Decides whether the response is usable. Only the presence of content
    /// is looked at: safety ratings and finish reasons play no part.
    pub fn validate(&self) -> (outcome: Result<(), BlockKind>)
        ensures
            verdict_view(outcome) == self@.verdict(),
            self@.candidates.len() == 0 ==> outcome matches Err(BlockKind::Empty),
            self@.candidates.len() > 0 && self@.has_content() ==> outcome is Ok,
            self@.candidates.len() > 0 && !self@.has_content() ==> (match self@.block_reason() {
                Some(reason) => outcome matches Err(BlockKind::Feedback(given)) && given@ == reason,
                None => outcome matches Err(BlockKind::AllBlocked),
            }),
    {
        if self.candidates.len() == 0 {
            return Err(BlockKind::Empty);
        }
        if self.has_content() {
            return Ok(());
        }
        match &self.prompt_feedback {
            Some(feedback) => match &feedback.block_reason {
                Some(reason) => Err(BlockKind::Feedback(reason.clone())),
                None => Err(BlockKind::AllBlocked),
            },
            None => Err(BlockKind::AllBlocked),
        }
    }
}

} // verus!
