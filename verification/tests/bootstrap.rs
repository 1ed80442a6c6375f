use pi_lynx_sdk::bootstrap::EMBED_DEFAULT_SYSTEM_PROMPT;
use pi_lynx_sdk::{
    EmbedErrorKind, HostContentBlock, HostToolKind, HostTranscriptEntry, HostTranscriptRole,
    LynxEmbedConfig, ProviderSelection, RuntimeMetadata, SessionMode, ToolPolicy,
    compose_system_prompt, reconstruct_history, validate_config, validate_config_with,
};

fn sample_provider() -> ProviderSelection {
    ProviderSelection {
        provider_id: "open-router".to_string(),
        model_id: "auto".to_string(),
        api_key: Some("test-key".to_string()),
        thinking: None,
        stream_options_override: None,
    }
}

#[test]
fn bootstrap_rejects_unsupported_modes() {
    let config: LynxEmbedConfig<()> =
        LynxEmbedConfig::builder(sample_provider()).enable_extensions(true).build();

    let error = validate_config(&config).expect_err("extensions must be rejected");
    assert_eq!(error.kind(), EmbedErrorKind::InvalidConfig);
    assert!(error.to_string().contains("does not support Pi extensions"));
}

#[test]
fn bootstrap_populates_session_history_and_metadata() {
    let config: LynxEmbedConfig<u8> = LynxEmbedConfig::builder(sample_provider())
        .host_tools(vec![1])
        .runtime_metadata(RuntimeMetadata {
            workspace_root: Some("/workspace".to_string()),
            ..RuntimeMetadata::default()
        })
        .build();
    validate_config(&config).expect("config is valid");
    let transcript = vec![HostTranscriptEntry {
        role: HostTranscriptRole::User,
        message_id: Some("u1".to_string()),
        tool_call_id: None,
        tool_name: None,
        custom_type: None,
        content: vec![HostContentBlock::Text { text: "hello".to_string() }],
        is_error: false,
        timestamp_ms: Some(1),
    }];
    let history = reconstruct_history(&transcript).expect("history");
    assert_eq!(history.messages.len(), 1);
    assert_eq!(history.warnings.len(), 0);
    assert_eq!(config.host_tools.len(), 1);
    assert_eq!(compose_system_prompt(&config), EMBED_DEFAULT_SYSTEM_PROMPT);
}

#[test]
fn bootstrap_rejects_contradictory_tool_policy() {
    let config: LynxEmbedConfig<()> = LynxEmbedConfig::builder(sample_provider())
        .tool_policy(ToolPolicy {
            allowed_tools: vec![HostToolKind::Write],
            allow_mutations: false,
            allow_exec: false,
        })
        .build();

    let error = validate_config(&config).expect_err("contradictory tool policy");
    assert_eq!(error.kind(), EmbedErrorKind::InvalidConfig);
    assert!(error.to_string().contains("allows mutating tools without allow_mutations=true"));
}

#[test]
fn config_checks_run_in_order() {
    let config: LynxEmbedConfig<()> = LynxEmbedConfig::builder(sample_provider())
        .max_tool_iterations(0)
        .enable_extensions(true)
        .build();
    let error = validate_config(&config).expect_err("zero iterations");
    assert_eq!(
        error.to_string(),
        "Invalid embed configuration during bootstrap::validate_config: max_tool_iterations must be greater than zero"
    );

    let config: LynxEmbedConfig<()> = LynxEmbedConfig::builder(sample_provider())
        .session_mode(SessionMode::Persistent("/tmp/s".to_string()))
        .build();
    let error = validate_config(&config).expect_err("session mode");
    assert!(error.to_string().ends_with("embed mode currently supports only SessionMode::InMemory"));

    let config: LynxEmbedConfig<()> = LynxEmbedConfig::builder(sample_provider())
        .tool_policy(ToolPolicy {
            allowed_tools: vec![HostToolKind::Exec],
            allow_mutations: true,
            allow_exec: false,
        })
        .build();
    let error = validate_config(&config).expect_err("exec");
    assert!(error.to_string().ends_with("tool_policy allows exec tools without allow_exec=true"));

    let config: LynxEmbedConfig<()> = LynxEmbedConfig::builder(sample_provider())
        .runtime_metadata(RuntimeMetadata {
            workspace_root: Some("relative/dir".to_string()),
            ..RuntimeMetadata::default()
        })
        .build();
    let error = validate_config(&config).expect_err("relative root");
    assert!(error
        .to_string()
        .ends_with("runtime_metadata.workspace_root must be absolute when provided"));
    assert!(validate_config_with(&config, true).is_ok());
}

#[test]
fn system_prompt_appends_trimmed_suffix() {
    let config: LynxEmbedConfig<()> = LynxEmbedConfig::builder(sample_provider())
        .system_prompt("Base".to_string())
        .append_system_prompt("  extra  ".to_string())
        .build();
    assert_eq!(compose_system_prompt(&config), "Base\n\nextra");

    let config: LynxEmbedConfig<()> = LynxEmbedConfig::builder(sample_provider())
        .system_prompt("   ".to_string())
        .append_system_prompt("extra".to_string())
        .build();
    assert_eq!(compose_system_prompt(&config), "   extra");

    let config: LynxEmbedConfig<()> = LynxEmbedConfig::builder(sample_provider())
        .append_system_prompt(" \n ".to_string())
        .build();
    assert_eq!(compose_system_prompt(&config), EMBED_DEFAULT_SYSTEM_PROMPT);
}

#[test]
fn builder_starts_from_conservative_defaults() {
    let config: LynxEmbedConfig<u8> =
        LynxEmbedConfig::builder(sample_provider()).push_host_tool(3).build();
    assert_eq!(config.max_tool_iterations, 50);
    assert!(!config.enable_extensions);
    assert_eq!(config.session_mode, SessionMode::InMemory);
    assert_eq!(config.tool_policy, ToolPolicy::default());
    assert_eq!(config.host_tools, vec![3]);
    assert_eq!(config.provider, sample_provider());
}
