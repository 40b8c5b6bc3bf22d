use gem_rs::api::{Models, GENERATE_CONTENT, STREAM_GENERATE_CONTENT};

fn serialized(model: Models) -> String {
    format!("\"{}\"", model.to_string())
}

#[test]
fn test_models_display() {
    let model = Models::Gemini15ProExp0827;
    assert_eq!(serialized(model), "\"gemini-1.5-pro-exp-0827\"");

    let model = Models::Gemini15FlashExp0827;
    assert_eq!(serialized(model), "\"gemini-1.5-flash-exp-0827\"");

    let model = Models::Gemini15Flash8bExp0827;
    assert_eq!(serialized(model), "\"gemini-1.5-flash-8b-exp-0827\"");

    let model = Models::Gemini15Pro;
    assert_eq!(serialized(model), "\"gemini-1.5-pro\"");

    let model = Models::Gemini15Flash;
    assert_eq!(serialized(model), "\"gemini-1.5-flash\"");

    let model = Models::Gemini10Pro;
    assert_eq!(serialized(model), "\"gemini-1.0-pro\"");

    let model = Models::Gemma2_2bIt;
    assert_eq!(serialized(model), "\"gemma-2-2b-it\"");

    let model = Models::Gemma2_9bIt;
    assert_eq!(serialized(model), "\"gemma-2-9b-it\"");

    let model = Models::Gemma2_27bIt;
    assert_eq!(serialized(model), "\"gemma-2-27b-it\"");
}

#[test]
fn wire_names_carry_no_quotes() {
    assert_eq!(Models::Gemini15Pro.to_string(), "gemini-1.5-pro");
    assert_eq!(Models::Gemini15Flash.as_str(), "gemini-1.5-flash");
    assert_eq!(Models::Gemma2_27bIt.to_string(), "gemma-2-27b-it");
}

#[test]
fn every_model_reads_back_from_its_name() {
    let all = [
        Models::Gemini15ProExp0827,
        Models::Gemini15FlashExp0827,
        Models::Gemini15Flash8bExp0827,
        Models::Gemini15Pro,
        Models::Gemini15Flash,
        Models::Gemini10Pro,
        Models::Gemma2_2bIt,
        Models::Gemma2_9bIt,
        Models::Gemma2_27bIt,
    ];
    for (i, model) in all.iter().enumerate() {
        assert_eq!(Models::from_name(model.as_str()), Some(*model));
        for (j, other) in all.iter().enumerate() {
            if i != j {
                assert_ne!(model.to_string(), other.to_string());
            }
        }
    }
}

#[test]
fn unknown_names_are_no_model() {
    assert_eq!(Models::from_name("gemini-1.5"), None);
    assert_eq!(Models::from_name(""), None);
    assert_eq!(Models::from_name("Gemini-1.5-pro"), None);
    assert_eq!(Models::from_name("\"gemini-1.5-pro\""), None);
}

#[test]
fn the_default_model_is_gemini_15_pro() {
    assert_eq!(Models::default(), Models::Gemini15Pro);
}

#[test]
fn both_endpoints_share_the_models_base() {
    assert_eq!(GENERATE_CONTENT, "https://generativelanguage.googleapis.com/v1beta/models/");
    assert_eq!(STREAM_GENERATE_CONTENT, GENERATE_CONTENT);
}
