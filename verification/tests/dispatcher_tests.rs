use astral_core::dispatcher::LLMManager;
use astral_core::provider::LLMConfig;
use astral_core::provider::LLMProvider;
use astral_core::provider::ProviderError;
use astral_core::provider::ProviderOutcome;
use astral_core::provider::TokenUsage;
use astral_core::provider::build_request;
use astral_core::provider::has_required_credentials;

fn echo_reply(text: &str) -> ProviderOutcome {
    ProviderOutcome::Reply {
        contents: vec![text.to_string()],
        usage: TokenUsage::Unreported,
    }
}

#[test]
fn history_stays_bounded_over_many_sends() {
    let mut m = LLMManager::new(LLMConfig::default());
    for i in 0..25 {
        let _ = m.begin_send(&format!("question number {}", i));
        assert!(m.get_history().len() <= 10);
        let r = m.finish_send(echo_reply(&format!("answer number {}", i)));
        assert!(r.is_ok());
        assert!(m.get_history().len() <= 10);
    }
    assert_eq!(m.get_history().len(), 10);
}

#[test]
fn history_stays_bounded_when_every_call_fails() {
    let mut m = LLMManager::new(LLMConfig::default());
    for i in 0..25 {
        let _ = m.begin_send(&format!("unanswered {}", i));
        let r = m.finish_send(ProviderOutcome::TimedOut);
        assert!(r.is_err());
        assert!(m.get_history().len() <= 10);
    }
}

#[test]
fn echoed_send_records_user_then_assistant() {
    let mut m = LLMManager::new(LLMConfig::default());
    let request = m.begin_send("hello").unwrap();
    // The outbound sequence injects the system preamble in front.
    assert_eq!(request.messages.len(), 2);
    assert_eq!(request.messages[0].role, "system");
    assert_eq!(request.messages[1].role, "user");
    assert_eq!(request.messages[1].content, "hello");
    let response = m.finish_send(echo_reply("hi")).unwrap();
    assert_eq!(response.content, "hi");
    let h = m.get_history();
    assert_eq!(h.len(), 2);
    assert_eq!(h[0].role, "user");
    assert_eq!(h[0].content, "hello");
    assert_eq!(h[1].role, "assistant");
    assert_eq!(h[1].content, "hi");
}

#[test]
fn preamble_is_never_stored_in_history() {
    let mut m = LLMManager::new(LLMConfig::default());
    let _ = m.begin_send("one");
    let _ = m.finish_send(echo_reply("two"));
    assert!(m.get_history().iter().all(|msg| msg.role != "system"));
}

#[test]
fn failed_call_keeps_the_pending_user_message() {
    let mut m = LLMManager::new(LLMConfig::default());
    let _ = m.begin_send("anyone there?");
    let r = m.finish_send(ProviderOutcome::ConnectionFailed {
        detail: "connection refused".to_string(),
    });
    assert!(matches!(r, Err(ProviderError::Transient { .. })));
    let h = m.get_history();
    assert_eq!(h.len(), 1);
    assert_eq!(h[0].role, "user");
    assert_eq!(h[0].content, "anyone there?");
}

#[test]
fn config_round_trip_returns_every_field() {
    let mut m = LLMManager::new(LLMConfig::default());
    let cfg = LLMConfig {
        provider: LLMProvider::Claude,
        api_key: Some("SECRET-REDACTED".to_string()),
        model: "haiku-mini".to_string(),
        temperature_centi: 120,
        max_tokens: 256,
        ollama_url: None,
    };
    m.update_config(cfg.clone());
    let got = m.get_config();
    assert!(matches!(got.provider, LLMProvider::Claude));
    assert_eq!(got.api_key, Some("SECRET-REDACTED".to_string()));
    assert_eq!(got.model, "haiku-mini");
    assert_eq!(got.temperature_centi, 120);
    assert_eq!(got.max_tokens, 256);
    assert_eq!(got.ollama_url, None);
}

#[test]
fn update_config_leaves_history_alone() {
    let mut m = LLMManager::new(LLMConfig::default());
    let _ = m.begin_send("before");
    let _ = m.finish_send(echo_reply("reply"));
    m.update_config(LLMConfig::default());
    assert_eq!(m.get_history().len(), 2);
}

#[test]
fn clear_history_empties_the_conversation() {
    let mut m = LLMManager::new(LLMConfig::default());
    let _ = m.begin_send("a");
    let _ = m.finish_send(echo_reply("b"));
    m.clear_history();
    assert_eq!(m.get_history().len(), 0);
}

#[test]
fn missing_openai_key_is_a_configuration_error() {
    let cfg = LLMConfig {
        provider: LLMProvider::OpenAI,
        api_key: None,
        ..LLMConfig::default()
    };
    assert!(!has_required_credentials(&cfg));
    match build_request(&cfg, Vec::new()) {
        Err(ProviderError::Configuration { detail }) => {
            assert_eq!(detail, "OpenAI API key not configured");
        }
        _ => panic!("expected a configuration error"),
    }
}

#[test]
fn missing_claude_key_is_a_configuration_error() {
    let cfg = LLMConfig {
        provider: LLMProvider::Claude,
        api_key: None,
        ..LLMConfig::default()
    };
    assert!(!has_required_credentials(&cfg));
    match build_request(&cfg, Vec::new()) {
        Err(ProviderError::Configuration { detail }) => {
            assert_eq!(detail, "Anthropic API key not configured");
        }
        _ => panic!("expected a configuration error"),
    }
}

#[test]
fn missing_ollama_url_is_a_configuration_error() {
    let cfg = LLMConfig {
        provider: LLMProvider::Ollama,
        ollama_url: None,
        ..LLMConfig::default()
    };
    assert!(!has_required_credentials(&cfg));
    let mut m = LLMManager::new(cfg);
    let r = m.begin_send("hello");
    assert!(matches!(r, Err(ProviderError::Configuration { .. })));
    // The user message is recorded even though nothing was sent.
    assert_eq!(m.get_history().len(), 1);
}

#[test]
fn configured_cloud_request_carries_key_and_endpoint() {
    let cfg = LLMConfig {
        provider: LLMProvider::OpenAI,
        api_key: Some("SECRET-REDACTED".to_string()),
        model: "gpt-4".to_string(),
        temperature_centi: 70,
        max_tokens: 500,
        ollama_url: None,
    };
    assert!(has_required_credentials(&cfg));
    let q = build_request(&cfg, Vec::new()).unwrap();
    assert_eq!(q.url, "https://api.openai.com/v1/chat/completions");
    assert_eq!(q.api_key, Some("SECRET-REDACTED".to_string()));
    assert_eq!(q.model, "gpt-4");
    assert_eq!(q.timeout_secs, 30);
    assert!(!q.stream);
}

#[test]
fn ollama_request_url_is_built_from_the_base() {
    let cfg = LLMConfig::default();
    let q = build_request(&cfg, Vec::new()).unwrap();
    assert_eq!(q.url, "http://localhost:11434/api/chat");
    assert_eq!(q.api_key, None);
}

#[test]
fn split_token_usage_is_summed() {
    let mut m = LLMManager::new(LLMConfig::default());
    let _ = m.begin_send("count my tokens");
    let r = m
        .finish_send(ProviderOutcome::Reply {
            contents: vec!["done".to_string()],
            usage: TokenUsage::Split { input_tokens: 30, output_tokens: 12 },
        })
        .unwrap();
    assert_eq!(r.tokens_used, Some(42));
}

#[test]
fn total_token_usage_is_passed_through() {
    let mut m = LLMManager::new(LLMConfig::default());
    let _ = m.begin_send("count my tokens");
    let r = m
        .finish_send(ProviderOutcome::Reply {
            contents: vec!["done".to_string()],
            usage: TokenUsage::Total { tokens: 77 },
        })
        .unwrap();
    assert_eq!(r.tokens_used, Some(77));
    assert_eq!(r.model, "mistral:latest");
}

#[test]
fn http_failure_surfaces_the_raw_body() {
    let mut m = LLMManager::new(LLMConfig::default());
    let _ = m.begin_send("hello");
    let r = m.finish_send(ProviderOutcome::HttpFailure {
        status: 500,
        body: "boom".to_string(),
    });
    match r {
        Err(ProviderError::Protocol { detail }) => {
            assert_eq!(
                detail,
                "Ollama API error: boom - Make sure Ollama is running with 'ollama serve'"
            );
        }
        _ => panic!("expected a protocol error"),
    }
}

#[test]
fn empty_reply_list_is_a_no_response_protocol_error() {
    let mut m = LLMManager::new(LLMConfig::default());
    let _ = m.begin_send("hello");
    let r = m.finish_send(ProviderOutcome::Reply {
        contents: Vec::new(),
        usage: TokenUsage::Unreported,
    });
    match r {
        Err(ProviderError::Protocol { detail }) => {
            assert_eq!(detail, "No response from Ollama");
        }
        _ => panic!("expected a protocol error"),
    }
    // Nothing was recorded for the failed exchange beyond the user turn.
    assert_eq!(m.get_history().len(), 1);
}

#[test]
fn timeout_is_a_transient_error() {
    let mut m = LLMManager::new(LLMConfig::default());
    let _ = m.begin_send("hello");
    let r = m.finish_send(ProviderOutcome::TimedOut);
    match r {
        Err(ProviderError::Transient { detail }) => {
            assert_eq!(detail, "request timed out after 30 seconds");
        }
        _ => panic!("expected a transient error"),
    }
}

#[test]
fn malformed_reply_is_a_protocol_error() {
    let mut m = LLMManager::new(LLMConfig::default());
    let _ = m.begin_send("hello");
    let r = m.finish_send(ProviderOutcome::MalformedReply {
        detail: "missing field".to_string(),
    });
    match r {
        Err(ProviderError::Protocol { detail }) => {
            assert_eq!(detail, "Failed to parse Ollama response: missing field");
        }
        _ => panic!("expected a protocol error"),
    }
}
