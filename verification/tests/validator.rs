use gem_rs::client::usable;
use gem_rs::errors::{FinishReason, GemError};
use gem_rs::response::{
    BlockKind, Candidate, Content, GenerateContentResponse, PromptFeedback, SafetyRating,
};
use gem_rs::types::ContentPart;

fn with_text(text: &str) -> Candidate {
    Candidate {
        content: Some(Content { parts: vec![ContentPart::Text(text.to_string())] }),
        finish_reason: None,
        safety_ratings: Vec::new(),
    }
}

fn without_content(reason: Option<FinishReason>) -> Candidate {
    Candidate { content: None, finish_reason: reason, safety_ratings: Vec::new() }
}

fn feedback(reason: Option<&str>) -> PromptFeedback {
    PromptFeedback {
        block_reason: reason.map(|text| text.to_string()),
        safety_ratings: vec![SafetyRating {
            category: "HARM_CATEGORY_HARASSMENT".to_string(),
            probability: "HIGH".to_string(),
        }],
    }
}

#[test]
fn no_candidates_is_empty_whatever_the_feedback() {
    let bare = GenerateContentResponse { candidates: Vec::new(), prompt_feedback: None };
    assert_eq!(bare.validate(), Err(BlockKind::Empty));
    let reasoned = GenerateContentResponse {
        candidates: Vec::new(),
        prompt_feedback: Some(feedback(Some("SAFETY"))),
    };
    assert_eq!(reasoned.validate(), Err(BlockKind::Empty));
    let unreasoned = GenerateContentResponse {
        candidates: Vec::new(),
        prompt_feedback: Some(feedback(None)),
    };
    assert_eq!(unreasoned.validate(), Err(BlockKind::Empty));
    assert_eq!(usable(reasoned), Err(GemError::EmptyResponse));
}

#[test]
fn a_feedback_reason_wins_over_all_blocked() {
    let response = GenerateContentResponse {
        candidates: vec![without_content(Some(FinishReason::Safety)), without_content(None)],
        prompt_feedback: Some(feedback(Some("PROHIBITED_CONTENT"))),
    };
    assert_eq!(response.validate(), Err(BlockKind::Feedback("PROHIBITED_CONTENT".to_string())));
    assert_eq!(usable(response), Err(GemError::PromptFeedbackBlocked("PROHIBITED_CONTENT".to_string())));
}

#[test]
fn no_content_and_no_reason_is_all_blocked() {
    let no_feedback = GenerateContentResponse {
        candidates: vec![without_content(None)],
        prompt_feedback: None,
    };
    assert_eq!(no_feedback.validate(), Err(BlockKind::AllBlocked));
    let no_reason = GenerateContentResponse {
        candidates: vec![without_content(Some(FinishReason::Recitation))],
        prompt_feedback: Some(feedback(None)),
    };
    assert_eq!(no_reason.validate(), Err(BlockKind::AllBlocked));
    assert_eq!(usable(no_reason), Err(GemError::AllCandidatesBlocked));
}

#[test]
fn one_candidate_with_content_is_enough() {
    let response = GenerateContentResponse {
        candidates: vec![
            without_content(Some(FinishReason::Safety)),
            with_text("fine"),
            without_content(None),
        ],
        prompt_feedback: Some(feedback(Some("SAFETY"))),
    };
    assert_eq!(response.validate(), Ok(()));
    assert!(response.has_content());
    let kept = usable(response).unwrap();
    assert_eq!(kept.candidates.len(), 3);
}

#[test]
fn content_counts_even_when_the_candidate_was_cut_for_safety() {
    let mut candidate = with_text("partial");
    candidate.finish_reason = Some(FinishReason::Safety);
    let response = GenerateContentResponse { candidates: vec![candidate], prompt_feedback: None };
    assert_eq!(response.validate(), Ok(()));
}

#[test]
fn content_without_parts_still_counts_as_content() {
    let candidate = Candidate {
        content: Some(Content { parts: Vec::new() }),
        finish_reason: None,
        safety_ratings: Vec::new(),
    };
    let response = GenerateContentResponse { candidates: vec![candidate], prompt_feedback: None };
    assert_eq!(response.validate(), Ok(()));
}

#[test]
fn safety_and_recitation_are_block_errors() {
    assert!(FinishReason::Safety.is_block_error());
    assert!(FinishReason::Recitation.is_block_error());
    assert!(!FinishReason::Other.is_block_error());
}

#[test]
fn get_text_finds_the_first_text_part() {
    let content = Content {
        parts: vec![
            ContentPart::FileReference(gem_rs::types::FileData::new("a/b", "files/1")),
            ContentPart::Text("first".to_string()),
            ContentPart::Text("second".to_string()),
        ],
    };
    assert_eq!(content.get_text(), Some(&"first".to_string()));
    let none = Content { parts: Vec::new() };
    assert_eq!(none.get_text(), None);
}

#[test]
fn get_results_lists_the_texts_in_candidate_order() {
    let textless = Candidate {
        content: Some(Content {
            parts: vec![ContentPart::FileReference(gem_rs::types::FileData::new("a/b", "files/1"))],
        }),
        finish_reason: None,
        safety_ratings: Vec::new(),
    };
    let response = GenerateContentResponse {
        candidates: vec![with_text("one"), without_content(None), textless, with_text("two")],
        prompt_feedback: None,
    };
    assert_eq!(response.get_results(), vec!["one".to_string(), "two".to_string()]);
    assert_eq!(response.get_candidates().len(), 4);
    assert_eq!(response.get_candidates()[0].get_content(), response.candidates[0].content.as_ref());
    assert_eq!(response.get_candidates()[1].get_content(), None);
    let empty = GenerateContentResponse { candidates: Vec::new(), prompt_feedback: None };
    assert!(empty.get_results().is_empty());
}

#[test]
fn feedback_gives_the_block_reason() {
    let mut response = GenerateContentResponse { candidates: Vec::new(), prompt_feedback: None };
    assert_eq!(response.feedback(), None);
    response.prompt_feedback = Some(feedback(None));
    assert_eq!(response.feedback(), None);
    response.prompt_feedback = Some(feedback(Some("SAFETY")));
    assert_eq!(response.feedback(), Some(&"SAFETY".to_string()));
}

#[test]
fn a_candidate_is_blocked_by_its_finish_reason() {
    assert!(without_content(Some(FinishReason::Safety)).is_blocked());
    assert!(without_content(Some(FinishReason::Recitation)).is_blocked());
    assert!(!without_content(Some(FinishReason::Other)).is_blocked());
    assert!(!without_content(None).is_blocked());
}
