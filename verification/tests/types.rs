use pi_lynx_sdk::{EmbedError, EmbedErrorKind, HostToolKind, QueueMode, QueueModeConfig, ToolPolicy};

#[test]
fn tool_kinds_fall_into_one_class() {
    let kinds = [
        HostToolKind::Read,
        HostToolKind::Search,
        HostToolKind::List,
        HostToolKind::Exec,
        HostToolKind::Edit,
        HostToolKind::Write,
    ];
    for kind in kinds {
        let classes = [kind.is_read_only(), kind.is_mutating(), kind.is_exec()];
        assert_eq!(classes.iter().filter(|c| **c).count(), 1);
    }
    assert!(HostToolKind::Search.is_read_only());
    assert!(HostToolKind::Edit.is_mutating());
    assert!(HostToolKind::Exec.is_exec());
}

#[test]
fn policy_needs_flags_for_mutating_and_exec_tools() {
    let default = ToolPolicy::default();
    assert!(default.allows(HostToolKind::Read));
    assert!(default.allows(HostToolKind::List));
    assert!(!default.allows(HostToolKind::Write));
    assert!(!default.allows(HostToolKind::Exec));

    let listed = ToolPolicy {
        allowed_tools: vec![HostToolKind::Edit, HostToolKind::Exec],
        allow_mutations: false,
        allow_exec: true,
    };
    assert!(!listed.allows(HostToolKind::Edit));
    assert!(listed.allows(HostToolKind::Exec));
    assert!(!listed.allows(HostToolKind::Read));
}

#[test]
fn queue_modes_default_to_one_at_a_time() {
    let config = QueueModeConfig::default();
    assert_eq!(config.steering, QueueMode::OneAtATime);
    assert_eq!(config.follow_up, QueueMode::OneAtATime);
}

#[test]
fn errors_report_kind_and_text() {
    let cases = vec![
        (EmbedError::config("op", "bad".to_string()), EmbedErrorKind::InvalidConfig, "Invalid embed configuration during op: bad"),
        (EmbedError::transcript("t".to_string()), EmbedErrorKind::InvalidTranscript, "Transcript reconstruction failed: t"),
        (
            EmbedError::bootstrap("create", Some("p".to_string()), None, "down".to_string()),
            EmbedErrorKind::ProviderUnavailable,
            "Bootstrap failed during create: down",
        ),
        (
            EmbedError::provider("p".to_string(), "m".to_string(), "x".to_string()),
            EmbedErrorKind::ProviderStreamFailed,
            "Provider execution failed for p/m: x",
        ),
        (
            EmbedError::tool_denied("exec".to_string(), "no".to_string()),
            EmbedErrorKind::ToolDenied,
            "Tool 'exec' was denied: no",
        ),
        (
            EmbedError::tool_failed("read".to_string(), "io".to_string(), None),
            EmbedErrorKind::ToolFailed,
            "Tool 'read' failed: io",
        ),
        (EmbedError::session("s", "x".to_string()), EmbedErrorKind::Internal, "Session setup failed during s: x"),
        (EmbedError::event_bridge("e".to_string()), EmbedErrorKind::Internal, "Event bridge failed: e"),
        (EmbedError::Aborted, EmbedErrorKind::Cancelled, "Embed turn aborted"),
        (EmbedError::internal("i".to_string()), EmbedErrorKind::Internal, "Internal embed runtime error: i"),
    ];
    for (error, kind, text) in cases {
        assert_eq!(error.kind(), kind);
        assert_eq!(error.to_string(), text);
    }
}
