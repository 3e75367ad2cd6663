use jarvis::ai_integration::{
    choose_endpoint, classify_lowered, classify_request, classify_response, document_query,
    remember, web_search_url, AiRequestType, AiResponseType, Message, RequestKind,
};
use jarvis::db::structs::{
    validate_max_tokens, AdvancedSettings, ApiKeys, ExperimentalFeatures, LogLevel,
    StartupBehavior, UiTheme,
};
use jarvis::document_search::{
    calculate_relevance_score, determine_file_type, ending_of, get_search_statistics, score_name,
    DocumentType,
};

#[test]
fn test_api_key_detection() {
    let mut keys = ApiKeys::default();
    assert!(!keys.has_required_keys());

    keys.openai = "test-key".to_string();
    assert!(keys.has_required_keys());
    assert_eq!(keys.get_active_ai_key(), Some(("openai", "test-key")));

    keys.openrouter = "openrouter-key".to_string();
    assert_eq!(keys.get_active_ai_key(), Some(("openrouter", "openrouter-key")));
}

#[test]
fn imported_keys_do_not_erase_present_ones() {
    let mut current = ApiKeys::default();
    current.openai = "existing-key".to_string();
    current.picovoice = "pv".to_string();
    current.elevenlabs = "el".to_string();
    let mut imported = ApiKeys::default();
    imported.picovoice = "new-pv".to_string();
    current.merge_with_imported(imported);
    assert_eq!(current.openai, "existing-key");
    assert_eq!(current.picovoice, "new-pv");
    assert_eq!(current.openrouter, "");
    assert_eq!(current.elevenlabs, "");
}

#[test]
fn advanced_settings_by_default() {
    let s = AdvancedSettings::default();
    assert!(s.enable_document_search && s.auto_open_documents && s.device_monitoring);
    assert!(s.enable_tray_icon && s.encrypt_api_keys && s.enable_logging);
    assert!(!s.enable_gpu_acceleration);
    assert_eq!(s.audio_buffer_size, 512);
    assert_eq!(s.processing_threads, 2);
    assert_eq!(s.log_level, LogLevel::Info);
    assert_eq!(s.theme, UiTheme::Dark);
    assert_eq!(s.language, "ru");
    assert_eq!(s.startup_behavior, StartupBehavior::StartListening);
    assert_eq!(s.experimental_features, ExperimentalFeatures::default());
    assert!(!ExperimentalFeatures::default().enable_plugin_system);
}

#[test]
fn test_determine_file_type() {
    assert_eq!(determine_file_type(".pdf"), DocumentType::Document);
    assert_eq!(determine_file_type(".jpg"), DocumentType::Image);
    assert_eq!(determine_file_type(".mp4"), DocumentType::Video);
    assert_eq!(determine_file_type(".mp3"), DocumentType::Audio);
    assert_eq!(determine_file_type(".xyz"), DocumentType::Other);
}

#[test]
fn test_calculate_relevance_score() {
    let score1 = calculate_relevance_score("/path/to/test.pdf", "test");
    let score2 = calculate_relevance_score("/path/to/another.pdf", "test");

    assert!(score1 > score2);
}

#[test]
fn relevance_in_half_points() {
    assert_eq!(calculate_relevance_score("Test.PDF", "test"), 36);
    assert_eq!(calculate_relevance_score("testing.png", "TEST"), 15);
    assert_eq!(calculate_relevance_score("my_test.mp3", "test"), 4);
    assert_eq!(calculate_relevance_score("other.txt", "test"), 2);
    assert_eq!(calculate_relevance_score("other", "test"), 0);
    assert_eq!(calculate_relevance_score("test", "test"), 34);
    assert_eq!(score_name("a.b.c", "a.b", DocumentType::Other), 34);
    assert_eq!(score_name("A.txt", "a", DocumentType::Document), 2);
    assert_eq!(ending_of("Report.DOCX"), ".docx");
    assert_eq!(ending_of("noext"), "");
    assert_eq!(ending_of(".hidden"), "");
    assert_eq!(determine_file_type(".PDF"), DocumentType::Other);
    assert_eq!(determine_file_type(""), DocumentType::Other);
    let kinds = vec![DocumentType::Audio, DocumentType::Image, DocumentType::Audio];
    assert_eq!(get_search_statistics(&kinds, DocumentType::Audio), 2);
    assert_eq!(get_search_statistics(&kinds, DocumentType::Video), 0);
}

#[test]
fn requests_are_classified_by_their_words() {
    assert_eq!(classify_lowered("открой отчёт"), RequestKind::DocumentRequest);
    assert_eq!(classify_lowered("переведи и включи"), RequestKind::Translation);
    assert_eq!(classify_lowered("включи свет"), RequestKind::Command);
    assert_eq!(classify_lowered("который час"), RequestKind::Question);
    // A document word outranks the others.
    assert_eq!(classify_lowered("переведи документ"), RequestKind::DocumentRequest);
    assert_eq!(classify_lowered("ВКЛЮЧИ"), RequestKind::Question);
    assert!(matches!(classify_request("ВКЛЮЧИ свет"), AiRequestType::Command(t) if t == "ВКЛЮЧИ свет"));
    assert!(matches!(
        classify_request("Переведи привет"),
        AiRequestType::Translation(t, lang) if t == "Переведи привет" && lang == "ru"
    ));
    assert!(matches!(classify_request("Покажи фото"), AiRequestType::DocumentRequest(_)));
    assert!(matches!(classify_request("Как дела"), AiRequestType::Question(_)));
}

#[test]
fn answers_are_classified_by_their_beginning() {
    assert!(matches!(
        classify_response("SYSTEM_COMMAND:  shutdown now "),
        AiResponseType::SystemControl(c) if c == "shutdown now"
    ));
    assert!(matches!(
        classify_response("OPEN_DOCUMENT: a.pdf"),
        AiResponseType::DocumentPath(p) if p == "a.pdf"
    ));
    assert!(matches!(
        classify_response("WEB_SEARCH:rust"),
        AiResponseType::WebSearch(q) if q == "rust"
    ));
    assert!(matches!(classify_response(" WEB_SEARCH: rust"), AiResponseType::TextResponse));
    assert!(matches!(classify_response(""), AiResponseType::TextResponse));
    assert_eq!(document_query("DOCUMENT_SEARCH: *.pdf ", "найди"), "*.pdf");
    assert_eq!(document_query("не знаю", "найди отчёт"), "найди отчёт");
}

#[test]
fn service_selection() {
    let e = choose_endpoint("or-key", "oa-key", "vendor/small-model").unwrap();
    assert_eq!(e.url, "https://openrouter.ai/api/v1/chat/completions");
    assert_eq!(e.api_key, "or-key");
    assert_eq!(e.model, "vendor/small-model");
    let e = choose_endpoint("", "oa-key", "vendor/small-model").unwrap();
    assert_eq!(e.url, "https://api.openai.com/v1/chat/completions");
    assert_eq!(e.api_key, "oa-key");
    assert_eq!(e.model, "gpt-3.5-turbo");
    assert_eq!(choose_endpoint("", "", "m").unwrap_err(), "No API key available");
}

#[test]
fn conversation_keeps_the_last_ten_turns() {
    let mut history: Vec<Message> = Vec::new();
    for i in 0..4 {
        remember(&mut history, &format!("q{}", i), &format!("a{}", i));
    }
    assert_eq!(history.len(), 8);
    remember(&mut history, "q4", "a4");
    assert_eq!(history.len(), 10);
    remember(&mut history, "q5", "a5");
    assert_eq!(history.len(), 10);
    assert_eq!(history[0].content, "q1");
    assert_eq!(history[0].role, "user");
    assert_eq!(history[8].content, "q5");
    assert_eq!(history[9].content, "a5");
    assert_eq!(history[9].role, "assistant");
}

#[test]
fn web_search_address_is_percent_encoded() {
    assert_eq!(web_search_url("rust"), "https://www.google.com/search?q=rust");
    assert_eq!(
        web_search_url("a b&c=d~e_f-g.h"),
        "https://www.google.com/search?q=a%20b%26c%3Dd~e_f-g.h"
    );
    assert_eq!(web_search_url("я"), "https://www.google.com/search?q=%D1%8F");
    assert_eq!(web_search_url(""), "https://www.google.com/search?q=");
}

#[test]
fn tokens_asked_for_are_within_range() {
    assert!(validate_max_tokens(1).is_ok());
    assert!(validate_max_tokens(1000).is_ok());
    assert!(validate_max_tokens(10000).is_ok());
    assert_eq!(
        validate_max_tokens(0),
        Err("AI max_tokens must be between 1 and 10000".to_string())
    );
    assert_eq!(
        validate_max_tokens(10001),
        Err("AI max_tokens must be between 1 and 10000".to_string())
    );
}
