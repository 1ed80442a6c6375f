use pi_lynx_sdk::provider_factory::{
    InputType, canonicalize_model_id, effective_provider_id, normalize_optional_string,
    provider_lookup_id,
};
use pi_lynx_sdk::{
    EmbedErrorKind, ProviderSelection, ProviderStreamOverride, RoutingDefaults, ThinkingLevel,
    build_stream_options, resolve_model_entry,
};

fn openrouter_defaults() -> RoutingDefaults {
    RoutingDefaults {
        api: "openai-completions".to_string(),
        base_url: "https://openrouter.ai/api/v1".to_string(),
        auth_header: true,
        reasoning: true,
        input: vec![InputType::Text, InputType::Image],
        context_window: 128_000,
        max_tokens: 16_384,
    }
}

#[test]
fn resolve_provider_normalizes_aliases_and_applies_overrides() {
    let selection = ProviderSelection {
        provider_id: "open-router".to_string(),
        model_id: "auto".to_string(),
        api_key: Some(" host-key ".to_string()),
        thinking: Some(ThinkingLevel::XHigh),
        stream_options_override: Some(ProviderStreamOverride {
            max_tokens: Some(2048),
            headers: vec![("x-host".to_string(), "lynx".to_string())],
            reasoning_budget_tokens: Some(4096),
        }),
    };
    let lookup = provider_lookup_id(&selection);
    assert_eq!(lookup, "open-router");
    let provider = effective_provider_id(&lookup, Some("openrouter".to_string()));
    assert_eq!(provider, "openrouter");

    let entry = resolve_model_entry(&selection, Some("openrouter".to_string()), Some(openrouter_defaults()))
        .expect("provider resolves");
    assert_eq!(entry.provider_id(), "openrouter");
    assert_eq!(entry.model_id(), "openrouter/auto");
    assert_eq!(entry.api_key.as_deref(), Some("host-key"));

    let options = build_stream_options(&selection, Some(ThinkingLevel::High)).expect("options");
    assert_eq!(options.api_key.as_deref(), Some("host-key"));
    assert_eq!(options.max_tokens, Some(2048));
    assert_eq!(options.headers, vec![("x-host".to_string(), "lynx".to_string())]);
    assert_eq!(options.thinking_level, Some(ThinkingLevel::High));
    assert_eq!(options.thinking_budget_tokens, Some(4096));
}

#[test]
fn resolve_provider_rejects_unknown_embed_provider_defaults() {
    let selection = ProviderSelection {
        provider_id: "definitely-unknown".to_string(),
        model_id: "model-x".to_string(),
        api_key: None,
        thinking: None,
        stream_options_override: None,
    };
    let error = resolve_model_entry(&selection, None, None).expect_err("unknown provider should fail");

    assert_eq!(error.kind(), EmbedErrorKind::InvalidConfig);
    assert!(error.to_string().contains("does not expose embed-safe routing defaults"));
    assert_eq!(
        error.to_string(),
        "Invalid embed configuration during provider_factory::resolve_model_entry: provider 'definitely-unknown' does not expose embed-safe routing defaults"
    );
}

#[test]
fn builtin_defaults_cover_providers_outside_the_catalog() {
    let selection = ProviderSelection {
        provider_id: " openai-codex ".to_string(),
        model_id: " gpt-5 ".to_string(),
        api_key: Some("   ".to_string()),
        thinking: None,
        stream_options_override: None,
    };
    let entry = resolve_model_entry(&selection, None, None).expect("codex resolves");
    assert_eq!(entry.provider, "openai-codex");
    assert_eq!(entry.id, "gpt-5");
    assert_eq!(entry.name, "gpt-5");
    assert_eq!(entry.api, "openai-codex-responses");
    assert_eq!(entry.base_url, "https://chatgpt.com/backend-api/codex/responses");
    assert_eq!(entry.max_tokens, 16_384);
    assert_eq!(entry.context_window, 128_000);
    assert!(entry.auth_header);
    assert_eq!(entry.api_key, None);
}

#[test]
fn blank_identifiers_are_rejected() {
    let mut selection = ProviderSelection {
        provider_id: "  ".to_string(),
        model_id: "m".to_string(),
        api_key: None,
        thinking: None,
        stream_options_override: None,
    };
    let error = resolve_model_entry(&selection, None, None).expect_err("blank provider");
    assert!(error.to_string().ends_with("provider_id must not be empty"));
    selection.provider_id = "openai-codex".to_string();
    selection.model_id = "\t".to_string();
    let error = resolve_model_entry(&selection, None, None).expect_err("blank model");
    assert!(error.to_string().ends_with("model_id must not be empty"));
}

#[test]
fn openrouter_shorthands_expand_case_insensitively() {
    assert_eq!(canonicalize_model_id("OpenRouter", " GPT-4o-Mini "), "openai/gpt-4o-mini");
    assert_eq!(canonicalize_model_id("openrouter", "gpt-4o"), "openai/gpt-4o");
    assert_eq!(canonicalize_model_id("openrouter", "gemini-2.5-pro"), "google/gemini-2.5-pro");

    assert_eq!(canonicalize_model_id("openrouter", " other/model "), "other/model");
    assert_eq!(canonicalize_model_id("anthropic", " Auto "), "Auto");
}

#[test]
fn optional_strings_are_trimmed_or_dropped() {
    assert_eq!(normalize_optional_string(Some("  key ")), Some("key".to_string()));
    assert_eq!(normalize_optional_string(Some(" \n ")), None);
    assert_eq!(normalize_optional_string(None), None);
    assert_eq!(
        normalize_optional_string(Some("\u{3000}key\u{a0}\u{2029}")),
        Some("key".to_string())
    );
    assert_eq!(normalize_optional_string(Some("\u{200b}key")), Some("\u{200b}key".to_string()));
}

#[test]
fn stream_overrides_are_checked_in_order() {
    let mut selection = ProviderSelection {
        provider_id: "openrouter".to_string(),
        model_id: "auto".to_string(),
        api_key: None,
        thinking: None,
        stream_options_override: Some(ProviderStreamOverride {
            max_tokens: Some(0),
            headers: vec![(" ".to_string(), "x".to_string())],
            reasoning_budget_tokens: Some(0),
        }),
    };
    let error = build_stream_options(&selection, None).expect_err("zero max tokens");
    assert_eq!(
        error.to_string(),
        "Invalid embed configuration during provider_factory::build_stream_options: max_tokens must be greater than zero"
    );
    selection.stream_options_override.as_mut().unwrap().max_tokens = None;
    let error = build_stream_options(&selection, None).expect_err("zero budget");
    assert!(error.to_string().ends_with("reasoning_budget_tokens must be greater than zero"));
    selection.stream_options_override.as_mut().unwrap().reasoning_budget_tokens = None;
    let error = build_stream_options(&selection, None).expect_err("blank header");
    assert!(error.to_string().ends_with("stream override headers must not contain blank names"));
}

#[test]
fn trimmed_header_names_replace_earlier_values() {
    let selection = ProviderSelection {
        provider_id: "openrouter".to_string(),
        model_id: "auto".to_string(),
        api_key: None,
        thinking: None,
        stream_options_override: Some(ProviderStreamOverride {
            max_tokens: None,
            headers: vec![
                (" a".to_string(), " 1 ".to_string()),
                ("a ".to_string(), "2".to_string()),
                ("b".to_string(), "3".to_string()),
            ],
            reasoning_budget_tokens: None,
        }),
    };
    let options = build_stream_options(&selection, None).expect("options");
    assert_eq!(
        options.headers,
        vec![("a".to_string(), "2".to_string()), ("b".to_string(), "3".to_string())]
    );
    assert_eq!(options.max_tokens, None);
    assert_eq!(options.session_id, None);
    let with_session = pi_lynx_sdk::provider_factory::with_session_id("s-1", options);
    assert_eq!(with_session.session_id.as_deref(), Some("s-1"));
}
