use std::time::Duration;

use gem_rs::api::Models;
use gem_rs::client::{
    read_body, Client, Endpoint, Exchange, GemSession, GemSessionBuilder, DEFAULT_TIMEOUT,
    SCHEMA_MISMATCH,
};
use gem_rs::errors::{FinishReason, GemError, Schema};
use gem_rs::response::ApiError;
use gem_rs::types::{
    Blob, ContentPart, Context, FileData, HarmBlockThreshold, Role, Settings,
};

const API_KEY: &str = "X";

fn answered(status: u16, body: &str) -> Exchange {
    Exchange::Answered { status, body: body.as_bytes().to_vec() }
}

fn text(value: &str) -> ContentPart {
    ContentPart::Text(value.to_string())
}

#[test]
fn test_gem_session_send_context() {
    let mut session = GemSession::Builder()
        .connect_timeout(Duration::from_secs(30))
        .timeout(Duration::from_secs(30))
        .model(Models::Gemini15FlashExp0827)
        .context(Context::new())
        .build(API_KEY.to_string());

    let mut settings = Settings::new();
    settings.set_all_safety_settings(HarmBlockThreshold::BlockNone);

    let call = session.send_message("Hello! What is your name?", &settings);
    assert_eq!(call.api_key, API_KEY);
    assert_eq!(call.body.contents.len(), 1);
    assert_eq!(call.body.contents[0].parts(), &vec![text("Hello! What is your name?")]);
}

#[test]
fn a_recorded_reply_is_the_models_turn() {
    let mut session = GemSession::new(API_KEY.to_string());
    let outcome = Client::conclude(answered(
        200,
        "{\"candidates\":[{\"content\":{\"parts\":[{\"text\":\"Hi\"}]}}]}",
    ));
    assert!(session.record(outcome).is_ok());
    assert_eq!(session.context().len(), 1);
    assert_eq!(session.context().turns()[0].role(), Role::Model);
    assert_eq!(session.record(Err(GemError::EmptyResponse)), Err(GemError::EmptyResponse));
    assert_eq!(session.context().len(), 1);
}

#[test]
fn scenario_hello_hi_leaves_two_turns() {
    let mut session = GemSession::new(API_KEY.to_string());
    let call = session.send_message("Hello", &Settings::new());
    assert_eq!(call.body.contents.len(), 1);
    let body = "{\"candidates\":[{\"content\":{\"parts\":[{\"text\":\"Hi\"}]}}]}";
    let response = session.receive(answered(200, body)).unwrap();
    assert_eq!(response.candidates.len(), 1);
    let turns = session.context().turns();
    assert_eq!(turns.len(), 2);
    assert_eq!(turns[0].role(), Role::User);
    assert_eq!(turns[0].parts(), &vec![text("Hello")]);
    assert_eq!(turns[1].role(), Role::Model);
    assert_eq!(turns[1].parts(), &vec![text("Hi")]);
}

#[test]
fn scenario_status_403_is_the_provider_error() {
    let outcome = Client::conclude(answered(403, "{\"error\":{\"message\":\"invalid key\"}}"));
    assert_eq!(
        outcome,
        Err(GemError::ProviderError(ApiError { message: "invalid key".to_string(), status: None }))
    );
}

#[test]
fn scenario_no_candidates_is_an_empty_response() {
    assert_eq!(Client::conclude(answered(200, "{\"candidates\":[]}")), Err(GemError::EmptyResponse));
}

#[test]
fn scenario_blocked_prompt_reports_the_reason() {
    let body = "{\"candidates\":[{}],\"promptFeedback\":{\"blockReason\":\"SAFETY\"}}";
    assert_eq!(
        Client::conclude(answered(200, body)),
        Err(GemError::PromptFeedbackBlocked("SAFETY".to_string()))
    );
}

#[test]
fn candidates_without_content_and_without_reason_are_all_blocked() {
    let body = "{\"candidates\":[{\"finishReason\":\"SAFETY\"},{}],\"promptFeedback\":{}}";
    assert_eq!(Client::conclude(answered(200, body)), Err(GemError::AllCandidatesBlocked));
}

#[test]
fn a_failed_call_leaves_the_history_alone() {
    let mut session = GemSession::new(API_KEY.to_string());
    session.send_message("Hello", &Settings::new());
    let before = session.context().len();
    assert!(session.receive(answered(500, "{\"error\":{\"message\":\"down\"}}")).is_err());
    assert!(session.receive(answered(200, "{\"candidates\":[]}")).is_err());
    assert!(session.receive(answered(200, "not json")).is_err());
    assert!(session.receive(Exchange::Unsent("refused".to_string())).is_err());
    assert_eq!(session.context().len(), before);
}

#[test]
fn the_transport_failures_are_told_apart() {
    assert_eq!(
        Client::conclude(Exchange::Unsent("connection refused".to_string())),
        Err(GemError::ConnectionFailure("connection refused".to_string()))
    );
    assert_eq!(
        Client::conclude(Exchange::Unread { status: 200, detail: "reset".to_string() }),
        Err(GemError::ResponseBodyUnreadable { status: 200, detail: "reset".to_string() })
    );
}

#[test]
fn a_parsing_failure_names_the_schema_that_was_tried() {
    match Client::conclude(answered(200, "{\"candidates\":")) {
        Err(GemError::ParsingFailure { schema, detail }) => {
            assert_eq!(schema, Schema::Success);
            assert!(detail.contains("EOF"));
        }
        other => panic!("{:?}", other),
    }
    match Client::conclude(answered(404, "<html>")) {
        Err(GemError::ParsingFailure { schema, detail }) => {
            assert_eq!(schema, Schema::ProviderError);
            assert!(detail.contains("line 1"));
        }
        other => panic!("{:?}", other),
    }
}

#[test]
fn json_of_another_shape_is_a_schema_mismatch() {
    let mismatch = |schema| {
        Err(GemError::ParsingFailure { schema, detail: SCHEMA_MISMATCH.to_string() })
    };
    assert_eq!(Client::conclude(answered(200, "{}")), mismatch(Schema::Success));
    assert_eq!(Client::conclude(answered(200, "[]")), mismatch(Schema::Success));
    assert_eq!(Client::conclude(answered(200, "{\"candidates\":{}}")), mismatch(Schema::Success));
    assert_eq!(Client::conclude(answered(200, "{\"candidates\":[1]}")), mismatch(Schema::Success));
    assert_eq!(
        Client::conclude(answered(200, "{\"candidates\":[{\"content\":{}}]}")),
        mismatch(Schema::Success)
    );
    assert_eq!(
        Client::conclude(answered(200, "{\"candidates\":[{\"finishReason\":7}]}")),
        mismatch(Schema::Success)
    );
    assert_eq!(
        Client::conclude(answered(200, "{\"candidates\":[],\"promptFeedback\":[]}")),
        mismatch(Schema::Success)
    );
    assert_eq!(Client::conclude(answered(500, "{}")), mismatch(Schema::ProviderError));
    assert_eq!(
        Client::conclude(answered(500, "{\"error\":{\"code\":500}}")),
        mismatch(Schema::ProviderError)
    );
    assert_eq!(
        Client::conclude(answered(500, "{\"error\":\"boom\"}")),
        mismatch(Schema::ProviderError)
    );
}

#[test]
fn a_success_body_under_another_status_is_read_as_an_error_body() {
    let body = "{\"candidates\":[{\"content\":{\"parts\":[{\"text\":\"Hi\"}]}}]}";
    assert_eq!(
        Client::conclude(answered(201, body)),
        Err(GemError::ParsingFailure {
            schema: Schema::ProviderError,
            detail: SCHEMA_MISMATCH.to_string()
        })
    );
}

#[test]
fn an_error_body_under_status_200_is_read_as_a_success_body() {
    assert_eq!(
        Client::conclude(answered(200, "{\"error\":{\"message\":\"invalid key\"}}")),
        Err(GemError::ParsingFailure { schema: Schema::Success, detail: SCHEMA_MISMATCH.to_string() })
    );
}

#[test]
fn the_whole_response_is_decoded() {
    let body = "{\"candidates\":[{\"content\":{\"role\":\"model\",\"parts\":[{\"text\":\"a\"},\
        {\"fileData\":{\"mimeType\":\"image/png\",\"fileUri\":\"files/1\"}}]},\
        \"finishReason\":\"STOP\",\"index\":0,\
        \"safetyRatings\":[{\"category\":\"HARM_CATEGORY_HATE_SPEECH\",\"probability\":\"NEGLIGIBLE\"}]},\
        {\"finishReason\":\"RECITATION\"},{\"finishReason\":\"SAFETY\"}],\
        \"promptFeedback\":{\"safetyRatings\":[]},\"usageMetadata\":{\"totalTokenCount\":3}}";
    let response = Client::conclude(answered(200, body)).unwrap();
    assert_eq!(response.candidates.len(), 3);
    let first = &response.candidates[0];
    assert_eq!(
        first.content.as_ref().unwrap().parts,
        vec![text("a"), ContentPart::FileReference(FileData::new("image/png", "files/1"))]
    );
    assert_eq!(first.finish_reason, Some(FinishReason::Other));
    assert_eq!(first.safety_ratings.len(), 1);
    assert_eq!(first.safety_ratings[0].category, "HARM_CATEGORY_HATE_SPEECH");
    assert_eq!(first.safety_ratings[0].probability, "NEGLIGIBLE");
    assert_eq!(response.candidates[1].finish_reason, Some(FinishReason::Recitation));
    assert_eq!(response.candidates[2].finish_reason, Some(FinishReason::Safety));
    assert_eq!(response.candidates[2].content, None);
    let feedback = response.prompt_feedback.unwrap();
    assert_eq!(feedback.block_reason, None);
    assert!(feedback.safety_ratings.is_empty());
}

#[test]
fn the_provider_error_keeps_its_status() {
    let body = "{\"error\":{\"code\":429,\"message\":\"quota\",\"status\":\"RESOURCE_EXHAUSTED\"}}";
    assert_eq!(
        Client::conclude(answered(429, body)),
        Err(GemError::ProviderError(ApiError {
            message: "quota".to_string(),
            status: Some("RESOURCE_EXHAUSTED".to_string())
        }))
    );
}

#[test]
fn read_body_takes_the_parsers_outcome() {
    let parsed = serde_json::from_str::<serde_json::Value>("{\"candidates\":[]}")
        .map_err(|error| error.to_string());
    assert_eq!(read_body(200, parsed), Err(GemError::EmptyResponse));
    assert_eq!(
        read_body(200, Err("bad".to_string())),
        Err(GemError::ParsingFailure { schema: Schema::Success, detail: "bad".to_string() })
    );
    assert_eq!(
        read_body(502, Err("bad".to_string())),
        Err(GemError::ParsingFailure { schema: Schema::ProviderError, detail: "bad".to_string() })
    );
}

#[test]
fn content_without_text_is_reported_as_empty_and_not_recorded() {
    let mut session = GemSession::new(API_KEY.to_string());
    session.send_message("Hello", &Settings::new());
    let body = "{\"candidates\":[{\"content\":{\"parts\":[\
        {\"fileData\":{\"mimeType\":\"image/png\",\"fileUri\":\"files/1\"}}]}}]}";
    assert_eq!(session.receive(answered(200, body)), Err(GemError::EmptyResponse));
    assert_eq!(session.context().len(), 1);
}

#[test]
fn only_the_first_candidate_is_recorded() {
    let mut session = GemSession::new(API_KEY.to_string());
    session.send_message("Hello", &Settings::new());
    let body = "{\"candidates\":[{},{\"content\":{\"parts\":[{\"text\":\"late\"}]}}]}";
    assert!(session.receive(answered(200, body)).is_ok());
    assert_eq!(session.context().len(), 1);
    let body = "{\"candidates\":[{\"content\":{\"parts\":[{\"text\":\"one\"}]}},\
        {\"content\":{\"parts\":[{\"text\":\"two\"}]}}]}";
    assert!(session.receive(answered(200, body)).is_ok());
    assert_eq!(session.context().len(), 2);
    assert_eq!(session.context().turns()[1].parts(), &vec![text("one")]);
}

#[test]
fn the_call_goes_to_the_models_endpoint_with_the_key() {
    let mut session = GemSession::Builder()
        .model(Models::Gemini15FlashExp0827)
        .build("secret".to_string());
    let mut settings = Settings::new();
    settings.set_all_safety_settings(HarmBlockThreshold::BlockNone);
    let call = session.send_message("Hello! What is your name?", &settings);
    assert_eq!(call.endpoint, Endpoint::Generate);
    assert_eq!(
        call.url,
        "https://generativelanguage.googleapis.com/v1beta/models/gemini-1.5-flash-exp-0827:generateContent"
    );
    assert_eq!(call.api_key, "secret");
    assert_eq!(call.body.safety_settings.len(), 4);
    assert_eq!(&call.body.contents, session.context().turns());
}

#[test]
fn the_streaming_call_goes_to_the_streaming_endpoint() {
    let mut session = GemSession::new(API_KEY.to_string());
    let call = session.send_message_stream("Hello", &Settings::new());
    assert_eq!(call.endpoint, Endpoint::Stream);
    assert_eq!(
        call.url,
        "https://generativelanguage.googleapis.com/v1beta/models/gemini-1.5-pro:streamGenerateContent"
    );
    assert_eq!(call.body.contents.len(), 1);
    assert_eq!(session.context().len(), 1);
}

#[test]
fn every_send_appends_the_users_turn_first() {
    let file = FileData::new("application/pdf", "files/9");
    let blob = Blob::new("image/png", &[0, 1]);
    let settings = Settings::new();
    let mut session = GemSession::new(API_KEY.to_string());
    assert_eq!(session.send_file(file.clone(), &settings).body.contents.len(), 1);
    assert_eq!(session.send_blob(blob.clone(), &settings).body.contents.len(), 2);
    assert_eq!(session.send_message_with_file("m", file.clone(), &settings).body.contents.len(), 3);
    assert_eq!(session.send_message_with_blob("m", blob.clone(), &settings).body.contents.len(), 4);
    assert_eq!(session.send_file_stream(file.clone(), &settings).endpoint, Endpoint::Stream);
    assert_eq!(session.send_blob_stream(blob.clone(), &settings).endpoint, Endpoint::Stream);
    let call = session.send_message_with_file_stream("m", file.clone(), &settings);
    assert_eq!(call.endpoint, Endpoint::Stream);
    let call = session.send_message_with_blob_stream("m", blob.clone(), &settings);
    assert_eq!(call.body.contents.len(), 8);
    let turns = session.context().turns();
    assert_eq!(turns[0].parts(), &vec![ContentPart::FileReference(file.clone())]);
    assert_eq!(turns[1].parts(), &vec![ContentPart::InlineBlob(blob.clone())]);
    assert_eq!(turns[2].parts(), &vec![text("m"), ContentPart::FileReference(file)]);
    assert_eq!(turns[7].parts(), &vec![text("m"), ContentPart::InlineBlob(blob)]);
    for turn in turns {
        assert_eq!(turn.role(), Role::User);
    }
}

#[test]
fn the_builder_starts_from_the_defaults() {
    let session = GemSessionBuilder::new().build(API_KEY.to_string());
    assert_eq!(session.client().model(), Models::Gemini15Pro);
    assert_eq!(session.client().timeout(), Duration::from_secs(30));
    assert_eq!(session.client().connect_timeout(), Duration::from_secs(DEFAULT_TIMEOUT));
    assert_eq!(session.client().api_key(), API_KEY);
    assert_eq!(session.context().len(), 0);
    let plain = GemSessionBuilder::default(API_KEY.to_string());
    assert_eq!(plain.client(), session.client());
    assert_eq!(GemSession::new(API_KEY.to_string()).client(), session.client());
}

#[test]
fn the_builder_keeps_what_is_set() {
    let mut context = Context::new();
    context.push_text(None, "earlier".to_string());
    let session = GemSession::Builder()
        .connect_timeout(Duration::from_millis(5000))
        .timeout(Duration::from_secs(45))
        .model(Models::Gemma2_9bIt)
        .context(context)
        .build(API_KEY.to_string());
    assert_eq!(session.client().connect_timeout(), Duration::from_secs(5));
    assert_eq!(session.client().timeout(), Duration::from_millis(45000));
    assert_eq!(session.client().model(), Models::Gemma2_9bIt);
    assert_eq!(session.context().len(), 1);
    let client = Client::new(
        "k".to_string(),
        Models::Gemini10Pro,
        Duration::from_secs(1),
        Duration::from_secs(2),
    );
    assert_eq!(client.url(Endpoint::Generate), format!(
        "https://generativelanguage.googleapis.com/v1beta/models/{}:generateContent",
        "gemini-1.0-pro"
    ));
}
