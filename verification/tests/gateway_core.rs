//! Normalization against the registry, attempt building, the log record,
//! the persistence plan, the operator summary, and the model vocabulary.

use ai_gateway::json::JsonValue;
use ai_gateway::logrec::LogRecord;
use ai_gateway::logrec::PublishPlan;
use ai_gateway::logrec::UsageProbe;
use ai_gateway::logrec::make_record;
use ai_gateway::logrec::plan_publish;
use ai_gateway::logrec::usage_total_code;
use ai_gateway::openai::CompletionModel;
use ai_gateway::registry::Provider;
use ai_gateway::registry::ProviderRegistry;
use ai_gateway::relay::relay_single;
use ai_gateway::request::ChatMessage;
use ai_gateway::request::CompletionRequest;
use ai_gateway::request::build_attempt;
use ai_gateway::request::normalize_model;

fn provider(url: &str, model: &str, key: &str) -> Provider {
    Provider {
        endpoint_url: url.to_string(),
        model: model.to_string(),
        credential: key.to_string(),
    }
}

fn two_provider_registry() -> ProviderRegistry {
    ProviderRegistry::new(vec![
        provider("https://one.test/chat", "alpha-8b", "k1"),
        provider("https://two.test/chat", "beta-70b", "k2"),
    ])
}

fn request_with_model(model: Option<&str>) -> CompletionRequest {
    CompletionRequest {
        messages: vec![ChatMessage {
            role: "user".to_string(),
            content: "hi".to_string(),
        }],
        model: model.map(|m| m.to_string()),
        stream: Some(false),
        extra: vec![],
    }
}

#[test]
fn unset_model_gets_the_default() {
    let reg = two_provider_registry();
    let mut req = request_with_model(None);
    normalize_model(&mut req, &reg);
    assert_eq!(req.model, Some("alpha-8b".to_string()));
}

#[test]
fn unknown_model_gets_the_default() {
    let reg = two_provider_registry();
    let mut req = request_with_model(Some("no-such-model"));
    normalize_model(&mut req, &reg);
    assert_eq!(req.model, Some("alpha-8b".to_string()));
}

#[test]
fn known_model_is_kept() {
    let reg = two_provider_registry();
    let mut req = request_with_model(Some("beta-70b"));
    normalize_model(&mut req, &reg);
    assert_eq!(req.model, Some("beta-70b".to_string()));
}

#[test]
fn attempt_always_carries_the_providers_model() {
    let reg = two_provider_registry();
    let req = request_with_model(Some("alpha-8b"));
    let attempt = build_attempt(req, reg.get(1));
    assert_eq!(attempt.url, "https://two.test/chat");
    assert_eq!(attempt.credential, "k2");
    assert_eq!(attempt.body.model, Some("beta-70b".to_string()));
    assert_eq!(attempt.body.messages.len(), 1);
    assert_eq!(attempt.body.stream, Some(false));
}

#[test]
fn registry_lists_models_comma_separated() {
    let reg = two_provider_registry();
    assert_eq!(reg.models_csv(), "alpha-8b,beta-70b");
    let one = ProviderRegistry::new(vec![provider("u", "only", "k")]);
    assert_eq!(one.models_csv(), "only");
    let none = ProviderRegistry::new(vec![]);
    assert_eq!(none.models_csv(), "");
}

#[test]
fn registry_membership() {
    let reg = two_provider_registry();
    assert!(reg.knows_model(&"alpha-8b".to_string()));
    assert!(reg.knows_model(&"beta-70b".to_string()));
    assert!(!reg.knows_model(&"gamma".to_string()));
    assert_eq!(reg.default_model(), "alpha-8b");
    assert_eq!(reg.len(), 2);
}

#[test]
fn record_holds_both_sides_of_the_exchange() {
    let req = CompletionRequest {
        messages: vec![ChatMessage {
            role: "user".to_string(),
            content: "hi".to_string(),
        }],
        model: Some("alpha-8b".to_string()),
        stream: Some(false),
        extra: vec![(
            "temperature".to_string(),
            JsonValue::Num("0.7".to_string()),
        )],
    };
    let ex = relay_single("{\"id\":\"c1\",\"usage\":{\"total_tokens\":9}}").unwrap();
    let record = make_record(
        req,
        &ex.log_value,
        "203.0.113.7".to_string(),
        Some("curl/8".to_string()),
    );
    assert_eq!(
        record.request_json,
        "{\"messages\":[{\"content\":\"hi\",\"role\":\"user\"}],\"model\":\"alpha-8b\",\"stream\":false,\"temperature\":0.7}"
    );
    assert_eq!(
        record.response_json,
        "{\"id\":\"c1\",\"usage\":{\"total_tokens\":9}}"
    );
    assert_eq!(record.client_ip, "203.0.113.7");
    assert_eq!(record.user_agent, Some("curl/8".to_string()));
    // the caller's view of the same exchange stays stripped
    assert_eq!(ex.caller_body, "{\"id\":\"c1\"}");
}

#[test]
fn publish_plan_follows_backend_availability() {
    let record = LogRecord {
        request_json: "{}".to_string(),
        response_json: "{}".to_string(),
        client_ip: "0.0.0.0".to_string(),
        user_agent: None,
    };
    match plan_publish(true, record) {
        PublishPlan::Persist(r) => assert_eq!(r.request_json, "{}"),
        PublishPlan::Discard(_) => panic!("a configured backend must be used"),
    }
    let record = LogRecord {
        request_json: "{}".to_string(),
        response_json: "{}".to_string(),
        client_ip: "0.0.0.0".to_string(),
        user_agent: None,
    };
    match plan_publish(false, record) {
        PublishPlan::Persist(_) => panic!("no backend, nothing to persist"),
        PublishPlan::Discard(r) => assert_eq!(r.response_json, "{}"),
    }
}

#[test]
fn missing_backend_leaves_the_response_alone() {
    let body = "{\"id\":\"c1\",\"usage\":{\"total_tokens\":9}}";
    let with_backend = relay_single(body).unwrap();
    let without_backend = relay_single(body).unwrap();
    let record = make_record(
        request_with_model(None),
        &without_backend.log_value,
        "0.0.0.0".to_string(),
        None,
    );
    let _ = plan_publish(false, record);
    assert_eq!(with_backend.caller_body, without_backend.caller_body);
}

#[test]
fn stream_flag_reading() {
    let mut req = request_with_model(None);
    req.stream = Some(true);
    assert!(req.wants_stream());
    req.stream = Some(false);
    assert!(!req.wants_stream());
    req.stream = None;
    assert!(!req.wants_stream());
}

#[test]
fn usage_codes_match_the_index_page() {
    assert_eq!(usage_total_code(&UsageProbe::NotConfigured), -3);
    assert_eq!(usage_total_code(&UsageProbe::ConnectionFailed), -2);
    assert_eq!(usage_total_code(&UsageProbe::QueryFailed), -1);
    assert_eq!(usage_total_code(&UsageProbe::Total(None)), 0);
    assert_eq!(usage_total_code(&UsageProbe::Total(Some(1234))), 1234);
}

#[test]
fn completion_model_names_round_trip() {
    let all = [
        CompletionModel::QwenQwen3_32b,
        CompletionModel::OpenAiOss120b,
        CompletionModel::OpenAiOss20b,
        CompletionModel::MetaLlamaLlama4Maverick17b128eInstruct,
    ];
    for m in all {
        assert_eq!(CompletionModel::from_name(m.as_name()), Some(m));
    }
    assert_eq!(CompletionModel::as_name(&CompletionModel::QwenQwen3_32b), "qwen/qwen3-32b");
    assert_eq!(CompletionModel::from_name("made-up"), None);
    assert_eq!(CompletionModel::default(), CompletionModel::QwenQwen3_32b);
}
