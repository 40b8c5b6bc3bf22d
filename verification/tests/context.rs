use gem_rs::context::Context;
use gem_rs::settings::{
    GenerationConfig, HarmBlockThreshold, HarmCategory, SafetySetting, Settings,
};
use gem_rs::types::{Blob, ContentPart, FileData, Role, Turn};

fn text(value: &str) -> ContentPart {
    ContentPart::Text(value.to_string())
}

#[test]
fn a_new_context_is_empty() {
    let context = Context::new();
    assert_eq!(context.len(), 0);
    assert!(context.turns().is_empty());
}

#[test]
fn push_text_defaults_to_the_user() {
    let mut context = Context::new();
    context.push_text(None, "Hello".to_string());
    assert_eq!(context.len(), 1);
    assert_eq!(context.turns()[0].role(), Role::User);
    assert_eq!(context.turns()[0].parts(), &vec![text("Hello")]);
}

#[test]
fn push_text_keeps_a_given_role() {
    let mut context = Context::new();
    context.push_text(Some(Role::Model), "Hi".to_string());
    context.push_text(Some(Role::User), "Bye".to_string());
    assert_eq!(context.turns()[0].role(), Role::Model);
    assert_eq!(context.turns()[1].role(), Role::User);
}

#[test]
fn each_push_appends_one_turn_in_order() {
    let mut context = Context::new();
    let file = FileData::new("application/pdf", "files/abc");
    let blob = Blob::new("image/png", &[1, 2, 3]);
    context.push_text(None, "one".to_string());
    context.push_file_reference(None, file.clone());
    context.push_blob(Some(Role::Model), blob.clone());
    context.push_text_with_file(None, "four", file.clone());
    context.push_text_with_blob(None, "five", blob.clone());
    assert_eq!(context.len(), 5);
    let turns = context.turns();
    assert_eq!(turns[0].parts(), &vec![text("one")]);
    assert_eq!(turns[1].parts(), &vec![ContentPart::FileReference(file.clone())]);
    assert_eq!(turns[2].role(), Role::Model);
    assert_eq!(turns[2].parts(), &vec![ContentPart::InlineBlob(blob.clone())]);
    assert_eq!(turns[3].parts(), &vec![text("four"), ContentPart::FileReference(file)]);
    assert_eq!(turns[4].parts(), &vec![text("five"), ContentPart::InlineBlob(blob)]);
}

#[test]
fn build_mirrors_the_history() {
    let mut context = Context::new();
    context.push_text(None, "a".to_string());
    context.push_text(Some(Role::Model), "b".to_string());
    context.push_text(None, "c".to_string());
    let request = context.build(&Settings::new());
    assert_eq!(request.contents.len(), 3);
    assert_eq!(&request.contents, context.turns());
    assert_eq!(request.contents[1].role(), Role::Model);
    assert_eq!(request.contents[2].parts(), &vec![text("c")]);
}

#[test]
fn build_leaves_the_context_as_it_is() {
    let mut context = Context::new();
    context.push_text(None, "a".to_string());
    let settings = Settings::new();
    let first = context.build(&settings);
    let second = context.build(&settings);
    let third = context.build(&settings);
    assert_eq!(context.len(), 1);
    assert_eq!(first, second);
    assert_eq!(second, third);
}

#[test]
fn build_of_an_empty_context_has_no_turn() {
    let request = Context::new().build(&Settings::new());
    assert!(request.contents.is_empty());
    assert!(request.safety_settings.is_empty());
    assert_eq!(request.system_instruction, None);
}

#[test]
fn a_context_can_start_from_seed_turns() {
    let seed = vec![
        Turn::single(Role::User, text("q")),
        Turn::pair(Role::Model, text("a"), text("b")),
    ];
    let context = Context::from_turns(seed);
    assert_eq!(context.len(), 2);
    assert_eq!(context.turns()[1].parts().len(), 2);
    assert_eq!(context.build(&Settings::new()).contents.len(), 2);
}

#[test]
fn a_turn_clone_holds_the_same_parts() {
    let turn = Turn::pair(Role::User, text("x"), ContentPart::InlineBlob(Blob::new("a/b", &[9])));
    assert_eq!(turn.clone(), turn);
}

#[test]
fn unset_settings_compile_to_nothing() {
    let settings = Settings::new();
    assert!(settings.safety_settings().is_empty());
    assert_eq!(settings.system_instruction(), None);
    assert_eq!(
        settings.generation(),
        GenerationConfig { max_output_tokens: None, temperature: None, top_p: None, top_k: None }
    );
}

#[test]
fn set_all_safety_settings_covers_every_category_in_order() {
    let mut settings = Settings::new();
    settings.set_all_safety_settings(HarmBlockThreshold::BlockNone);
    let expected: Vec<SafetySetting> = [
        HarmCategory::Harassment,
        HarmCategory::HateSpeech,
        HarmCategory::SexuallyExplicit,
        HarmCategory::DangerousContent,
    ]
    .iter()
    .map(|category| SafetySetting { category: *category, threshold: HarmBlockThreshold::BlockNone })
    .collect();
    assert_eq!(settings.safety_settings(), expected);
}

#[test]
fn an_unspecified_threshold_is_left_out_of_the_request() {
    let mut settings = Settings::new();
    settings.set_all_safety_settings(HarmBlockThreshold::BlockOnlyHigh);
    settings.set_safety_setting(HarmCategory::HateSpeech, HarmBlockThreshold::Unspecified);
    settings.set_safety_setting(HarmCategory::DangerousContent, HarmBlockThreshold::BlockNone);
    let list = settings.safety_settings();
    assert_eq!(list.len(), 3);
    assert_eq!(list[0].category, HarmCategory::Harassment);
    assert_eq!(list[1].category, HarmCategory::SexuallyExplicit);
    assert_eq!(
        list[2],
        SafetySetting {
            category: HarmCategory::DangerousContent,
            threshold: HarmBlockThreshold::BlockNone
        }
    );
}

#[test]
fn settings_are_projected_into_the_request() {
    let mut settings = Settings::new();
    settings.set_system_instruction("Be brief");
    settings.set_max_output_tokens(8192);
    settings.set_temperature(1500);
    settings.set_top_p(950);
    settings.set_top_k(40);
    let mut context = Context::new();
    context.push_text(None, "hi".to_string());
    let request = context.build(&settings);
    assert_eq!(request.system_instruction, Some("Be brief".to_string()));
    assert_eq!(
        request.generation_config,
        GenerationConfig {
            max_output_tokens: Some(8192),
            temperature: Some(1500),
            top_p: Some(950),
            top_k: Some(40),
        }
    );
}

#[test]
fn settings_may_vary_between_calls_on_one_context() {
    let mut context = Context::new();
    context.push_text(None, "hi".to_string());
    let mut strict = Settings::new();
    strict.set_all_safety_settings(HarmBlockThreshold::BlockLowAndAbove);
    let first = context.build(&strict);
    let second = context.build(&Settings::new());
    assert_eq!(first.safety_settings.len(), 4);
    assert!(second.safety_settings.is_empty());
    assert_eq!(first.contents, second.contents);
}

#[test]
fn the_default_role_is_the_user() {
    assert_eq!(Role::default(), Role::User);
    assert_eq!(Role::or_default(None), Role::User);
    assert_eq!(Role::or_default(Some(Role::Model)), Role::Model);
}

#[test]
fn a_turn_needs_at_least_one_part() {
    assert_eq!(Turn::new(Role::User, Vec::new()), None);
    let turn = Turn::new(Role::Model, vec![text("a"), text("b"), text("c")]).unwrap();
    assert_eq!(turn.role(), Role::Model);
    assert_eq!(turn.parts().len(), 3);
    assert_eq!(Turn::new(Role::User, vec![text("x")]), Some(Turn::single(Role::User, text("x"))));
}

#[test]
fn roles_categories_and_thresholds_have_their_wire_names() {
    assert_eq!(Role::User.as_str(), "user");
    assert_eq!(Role::Model.as_str(), "model");
    assert_eq!(HarmCategory::Harassment.as_str(), "HARM_CATEGORY_HARASSMENT");
    assert_eq!(HarmCategory::HateSpeech.as_str(), "HARM_CATEGORY_HATE_SPEECH");
    assert_eq!(HarmCategory::SexuallyExplicit.as_str(), "HARM_CATEGORY_SEXUALLY_EXPLICIT");
    assert_eq!(HarmCategory::DangerousContent.as_str(), "HARM_CATEGORY_DANGEROUS_CONTENT");
    assert_eq!(HarmBlockThreshold::Unspecified.as_str(), "HARM_BLOCK_THRESHOLD_UNSPECIFIED");
    assert_eq!(HarmBlockThreshold::BlockLowAndAbove.as_str(), "BLOCK_LOW_AND_ABOVE");
    assert_eq!(HarmBlockThreshold::BlockMediumAndAbove.as_str(), "BLOCK_MEDIUM_AND_ABOVE");
    assert_eq!(HarmBlockThreshold::BlockOnlyHigh.as_str(), "BLOCK_ONLY_HIGH");
    assert_eq!(HarmBlockThreshold::BlockNone.as_str(), "BLOCK_NONE");
}
