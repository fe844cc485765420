use chatme_core::adapter::{
    build_request, build_request_body, request_headers, request_url, response_text, AdapterError,
    ApiConfig, ApiProvider, ChatMessage,
};
use chatme_core::models::mark_default;

fn config(provider: ApiProvider) -> ApiConfig {
    ApiConfig {
        id: "c1".to_string(),
        name: "main".to_string(),
        provider,
        api_key: "SECRET-REDACTED".to_string(),
        base_url: None,
        model: "test-model".to_string(),
        temperature_centi: 70,
        max_tokens: Some(256),
        is_default: true,
    }
}

fn messages() -> Vec<ChatMessage> {
    vec![
        ChatMessage { role: "user".to_string(), content: "Say \"hi\"".to_string() },
        ChatMessage { role: "assistant".to_string(), content: "hi".to_string() },
    ]
}

#[test]
fn openai_body_is_exact() {
    let body = build_request_body(&config(ApiProvider::OpenAI), &messages(), false);
    assert_eq!(
        body,
        "{\"model\":\"test-model\",\"messages\":[{\"role\":\"user\",\"content\":\"Say \\\"hi\\\"\"},{\"role\":\"assistant\",\"content\":\"hi\"}],\"temperature\":0.70,\"max_tokens\":256}"
    );
}

#[test]
fn openai_streaming_body_asks_for_a_stream() {
    let body = build_request_body(&config(ApiProvider::OpenAI), &messages(), true);
    assert!(body.ends_with(",\"stream\":true}"));
}

#[test]
fn missing_max_tokens_is_null_for_openai() {
    let mut c = config(ApiProvider::OpenAI);
    c.max_tokens = None;
    let body = build_request_body(&c, &messages(), false);
    assert!(body.ends_with("\"max_tokens\":null}"));
}

#[test]
fn anthropic_body_collapses_roles_and_defaults_tokens() {
    let mut c = config(ApiProvider::Anthropic);
    c.max_tokens = None;
    let ms = vec![
        ChatMessage { role: "system".to_string(), content: "be brief".to_string() },
        ChatMessage { role: "assistant".to_string(), content: "ok".to_string() },
    ];
    let body = build_request_body(&c, &ms, false);
    assert_eq!(
        body,
        "{\"model\":\"test-model\",\"max_tokens\":1000,\"messages\":[{\"role\":\"user\",\"content\":\"be brief\"},{\"role\":\"assistant\",\"content\":\"ok\"}]}"
    );
}

#[test]
fn ollama_body_disables_streaming_explicitly() {
    let body = build_request_body(&config(ApiProvider::Ollama), &messages(), false);
    assert!(body.contains("\"stream\":false"));
    assert!(body.ends_with("\"options\":{\"temperature\":0.70}}"));
}

#[test]
fn google_body_maps_the_assistant_role_to_model() {
    let body = build_request_body(&config(ApiProvider::Google), &messages(), false);
    assert_eq!(
        body,
        "{\"contents\":[{\"role\":\"user\",\"parts\":[{\"text\":\"Say \\\"hi\\\"\"}]},{\"role\":\"model\",\"parts\":[{\"text\":\"hi\"}]}],\"generationConfig\":{\"temperature\":0.70,\"maxOutputTokens\":256}}"
    );
}

#[test]
fn urls_fall_back_to_vendor_defaults() {
    assert_eq!(
        request_url(&config(ApiProvider::OpenAI)).unwrap(),
        "https://api.openai.com/v1/chat/completions"
    );
    assert_eq!(
        request_url(&config(ApiProvider::Anthropic)).unwrap(),
        "https://api.anthropic.com/v1/messages"
    );
    assert_eq!(request_url(&config(ApiProvider::Ollama)).unwrap(), "http://localhost:11434/api/chat");
    assert_eq!(
        request_url(&config(ApiProvider::Google)).unwrap(),
        "https://generativelanguage.googleapis.com/v1beta/models/test-model:generateContent?key=SECRET-REDACTED"
    );
}

#[test]
fn custom_provider_requires_a_base_url() {
    let e = request_url(&config(ApiProvider::Custom)).unwrap_err();
    assert_eq!(e.message(), "Base URL is required for custom providers");
    let mut c = config(ApiProvider::Custom);
    c.base_url = Some("http://my.host/v1/chat".to_string());
    assert_eq!(request_url(&c).unwrap(), "http://my.host/v1/chat");
}

#[test]
fn headers_per_vendor() {
    let hs = request_headers(&config(ApiProvider::OpenAI));
    assert_eq!(hs.len(), 2);
    assert_eq!(hs[0].name, "Authorization");
    assert_eq!(hs[0].value, "Bearer SECRET-REDACTED");
    assert_eq!(hs[1].name, "Content-Type");

    let hs = request_headers(&config(ApiProvider::Anthropic));
    assert_eq!(hs.len(), 3);
    assert_eq!(hs[0].name, "x-api-key");
    assert_eq!(hs[1].name, "anthropic-version");
    assert_eq!(hs[1].value, "2023-06-01");

    let mut c = config(ApiProvider::Custom);
    c.api_key = String::new();
    let hs = request_headers(&c);
    assert_eq!(hs.len(), 1);
    assert_eq!(hs[0].name, "Content-Type");
}

#[test]
fn build_request_assembles_all_three_parts() {
    let req = build_request(&config(ApiProvider::OpenAI), &messages(), false).unwrap();
    assert_eq!(req.url, "https://api.openai.com/v1/chat/completions");
    assert_eq!(req.headers.len(), 2);
    assert!(req.body.starts_with("{\"model\":"));
}

#[test]
fn marking_a_default_clears_every_other_flag() {
    let mut configs = vec![config(ApiProvider::OpenAI), config(ApiProvider::Ollama), config(
        ApiProvider::Google,
    )];
    configs[0].id = "a".to_string();
    configs[1].id = "b".to_string();
    configs[1].is_default = false;
    configs[2].id = "c".to_string();
    mark_default(&mut configs, 1);
    assert!(!configs[0].is_default);
    assert!(configs[1].is_default);
    assert!(!configs[2].is_default);
    assert_eq!(configs[0].id, "a");
    assert_eq!(configs[1].id, "b");
    assert_eq!(configs[2].id, "c");
    assert_eq!(configs[2].model, "test-model");
}

#[test]
fn non_2xx_keeps_the_raw_body() {
    let r = response_text(ApiProvider::OpenAI, 401, "{\"error\":\"bad key\"}".to_string());
    match r {
        Err(AdapterError::Http { status, body }) => {
            assert_eq!(status, 401);
            assert_eq!(body, "{\"error\":\"bad key\"}");
            assert!(AdapterError::Http { status, body }.message().contains("bad key"));
        },
        _ => panic!("a non-2xx answer must fail with the raw body"),
    }
}

#[test]
fn openai_response_is_extracted() {
    let body = "{\"choices\":[{\"message\":{\"role\":\"assistant\",\"content\":\"sure\"}}]}";
    let r = response_text(ApiProvider::OpenAI, 200, body.to_string());
    assert_eq!(r.unwrap(), "sure");
}

#[test]
fn anthropic_response_is_extracted() {
    let body = "{\"content\":[{\"type\":\"text\",\"text\":\"hello there\"}]}";
    let r = response_text(ApiProvider::Anthropic, 200, body.to_string());
    assert_eq!(r.unwrap(), "hello there");
}

#[test]
fn ollama_response_is_extracted() {
    let body = "{\"message\":{\"role\":\"assistant\",\"content\":\"local says hi\"}}";
    let r = response_text(ApiProvider::Ollama, 200, body.to_string());
    assert_eq!(r.unwrap(), "local says hi");
}

#[test]
fn google_response_is_extracted() {
    let body = "{\"candidates\":[{\"content\":{\"parts\":[{\"text\":\"généré\"}]}}]}";
    let r = response_text(ApiProvider::Google, 200, body.to_string());
    assert_eq!(r.unwrap(), "généré");
}

#[test]
fn custom_provider_reads_the_openai_shape() {
    let body = "{\"choices\":[{\"message\":{\"content\":\"custom ok\"}}]}";
    let r = response_text(ApiProvider::Custom, 200, body.to_string());
    assert_eq!(r.unwrap(), "custom ok");
}

#[test]
fn unexpected_shape_keeps_the_raw_body() {
    let body = "{\"choices\":[]}";
    let r = response_text(ApiProvider::OpenAI, 200, body.to_string());
    match r {
        Err(AdapterError::Shape { body: b }) => {
            assert_eq!(b, body);
        },
        _ => panic!("an empty choices list must fail with the raw body"),
    }
    let r = response_text(ApiProvider::Anthropic, 200, "not json".to_string());
    assert!(matches!(r, Err(AdapterError::Shape { .. })));
}
