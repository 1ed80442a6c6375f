//! Checks and assembly performed before an embedded turn runs.

use vstd::prelude::*;
use crate::errors::EmbedError;
use crate::text::{str_trim, trim_seq};
use crate::types::{HostToolKind, LynxEmbedConfig, SessionMode, ToolPolicy};

verus! {

/// The system prompt used when the host supplies none.
pub const EMBED_DEFAULT_SYSTEM_PROMPT: &'static str = "You are Pi running inside an embedded Lynx host. Conversation persistence, permissions, and tool execution are owned by the host. Use only the tools explicitly provided in this session.";

/// The operation named by configuration failures found before a turn.
pub open spec fn validate_config_operation() -> Seq<char> {
    "bootstrap::validate_config"@
}

/// Whether a policy lists a tool kind that mutates workspace state.
pub open spec fn lists_mutating(policy: ToolPolicy) -> bool {
    exists|k: int| 0 <= k < policy.allowed_tools@.len() && #[trigger] policy.allowed_tools@[k].spec_is_mutating()
}

/// Whether a policy lists an exec-capable tool kind.
pub open spec fn lists_exec(policy: ToolPolicy) -> bool {
    exists|k: int| 0 <= k < policy.allowed_tools@.len() && #[trigger] policy.allowed_tools@[k].spec_is_exec()
}

/// The configuration failure, if any, given whether the workspace root
/// (when there is one) is an absolute path. Checks run in this order.
pub open spec fn config_failure<Tool>(
    config: LynxEmbedConfig<Tool>,
    workspace_root_is_absolute: bool,
) -> Option<Seq<char>> {
    if config.max_tool_iterations == 0 {
        Some("max_tool_iterations must be greater than zero"@)
    } else if config.enable_extensions {
        Some("embed mode does not support Pi extensions in phase 1"@)
    } else if config.session_mode != SessionMode::InMemory {
        Some("embed mode currently supports only SessionMode::InMemory"@)
    } else if lists_mutating(config.tool_policy) && !config.tool_policy.allow_mutations {
        Some("tool_policy allows mutating tools without allow_mutations=true"@)
    } else if lists_exec(config.tool_policy) && !config.tool_policy.allow_exec {
        Some("tool_policy allows exec tools without allow_exec=true"@)
    } else if config.runtime_metadata.workspace_root is Some && !workspace_root_is_absolute {
        Some("runtime_metadata.workspace_root must be absolute when provided"@)
    } else {
        None
    }
}

/// The class a search looks for: mutating kinds, or exec-capable kinds.
spec fn in_class(kind: HostToolKind, mutating: bool) -> bool {
    if mutating {
        kind.spec_is_mutating()
    } else {
        kind.spec_is_exec()
    }
}

/// Whether the listed kinds include a mutating one (`mutating`) or an
/// exec-capable one (otherwise).
fn lists_kind(policy: &ToolPolicy, mutating: bool) -> (r: bool)
    ensures
        r == if mutating {
            lists_mutating(*policy)
        } else {
            lists_exec(*policy)
        },
{
    let mut i: usize = 0;
    while i < policy.allowed_tools.len()
        invariant
            i <= policy.allowed_tools@.len(),
            forall|k: int| 0 <= k < i ==> !in_class(#[trigger] policy.allowed_tools@[k], mutating),
        decreases policy.allowed_tools@.len() - i,
    {
        let kind: HostToolKind = policy.allowed_tools[i];
        let hit = if mutating {
            kind.is_mutating()
        } else {
            kind.is_exec()
        };
        if hit {
            assert(in_class(policy.allowed_tools@[i as int], mutating));
            return true;
        }
        i = i + 1;
    }
    proof {
        if mutating && lists_mutating(*policy) {
            let k = choose|k: int|
                0 <= k < policy.allowed_tools@.len()
                    && #[trigger] policy.allowed_tools@[k].spec_is_mutating();
            assert(in_class(policy.allowed_tools@[k], mutating));
        }
        if !mutating && lists_exec(*policy) {
            let k = choose|k: int|
                0 <= k < policy.allowed_tools@.len()
                    && #[trigger] policy.allowed_tools@[k].spec_is_exec();
            assert(in_class(policy.allowed_tools@[k], mutating));
        }
    }
    false
}

/// Validate an embed configuration, given whether its workspace root (when
/// there is one) is an absolute path.
pub fn validate_config_with<Tool>(
    config: &LynxEmbedConfig<Tool>,
    workspace_root_is_absolute: bool,
) -> (r: Result<(), EmbedError>)
    ensures
        match config_failure(*config, workspace_root_is_absolute) {
            None => r is Ok,
            Some(m) => r is Err && r->Err_0.is_config_error(validate_config_operation(), m),
        },
{
    if config.max_tool_iterations == 0 {
        return Err(
            EmbedError::config(
                "bootstrap::validate_config",
                String::from_str("max_tool_iterations must be greater than zero"),
            ),
        );
    }
    if config.enable_extensions {
        return Err(
            EmbedError::config(
                "bootstrap::validate_config",
                String::from_str("embed mode does not support Pi extensions in phase 1"),
            ),
        );
    }
    let in_memory = match config.session_mode {
        SessionMode::InMemory => true,
        _ => false,
    };
    if !in_memory {
        return Err(
            EmbedError::config(
                "bootstrap::validate_config",
                String::from_str("embed mode currently supports only SessionMode::InMemory"),
            ),
        );
    }
    if lists_kind(&config.tool_policy, true) && !config.tool_policy.allow_mutations {
        return Err(
            EmbedError::config(
                "bootstrap::validate_config",
                String::from_str("tool_policy allows mutating tools without allow_mutations=true"),
            ),
        );
    }
    if lists_kind(&config.tool_policy, false) && !config.tool_policy.allow_exec {
        return Err(
            EmbedError::config(
                "bootstrap::validate_config",
                String::from_str("tool_policy allows exec tools without allow_exec=true"),
            ),
        );
    }
    if config.runtime_metadata.workspace_root.is_some() && !workspace_root_is_absolute {
        return Err(
            EmbedError::config(
                "bootstrap::validate_config",
                String::from_str("runtime_metadata.workspace_root must be absolute when provided"),
            ),
        );
    }
    Ok(())
}

/// A shape that every absolute path has on every platform: it starts with a
/// separator (`/` or `\\`), or its second character is the `:` of a drive
/// prefix.
pub open spec fn rooted_shape(path: Seq<char>) -> bool {
    &&& path.len() > 0
    &&& (path[0] == '/' || path[0] == '\\' || (path.len() >= 2 && path[1] == ':'))
}

/// Calls `std::path::Path::is_absolute` on a path. What makes a path
/// absolute depends on the platform; on each, an absolute path starts with
/// its root (`/` on Unix; a `\\` or `/` root, a UNC or verbatim prefix, or
/// a drive prefix `X:` on Windows), which is all that is stated.
#[verifier::external_body]
fn path_is_absolute(path: &str) -> (r: bool)
    ensures
        r ==> rooted_shape(path@),
{
    std::path::Path::new(path).is_absolute()
}

/// Whether a validation outcome is the one owed for a configuration
/// failure (or its absence).
pub open spec fn config_outcome(failure: Option<Seq<char>>, r: Result<(), EmbedError>) -> bool {
    match failure {
        None => r is Ok,
        Some(m) => r is Err && r->Err_0.is_config_error(validate_config_operation(), m),
    }
}

/// Validate an embed configuration before a turn. Whether the workspace
/// root is absolute is asked of the platform's path rules: a configuration
/// without a workspace root, or with one that cannot be absolute on any
/// platform, gets the outcome fixed by `config_failure`; otherwise the
/// outcome is that of `config_failure` for the platform's answer.
pub fn validate_config<Tool>(config: &LynxEmbedConfig<Tool>) -> (r: Result<(), EmbedError>)
    ensures
        exists|is_absolute: bool| config_outcome(#[trigger] config_failure(*config, is_absolute), r),
        config.runtime_metadata.workspace_root is None ==> config_outcome(
            config_failure(*config, true),
            r,
        ),
        config.runtime_metadata.workspace_root matches Some(root) && !rooted_shape(root@)
            ==> config_outcome(config_failure(*config, false), r),
{
    let is_absolute = match &config.runtime_metadata.workspace_root {
        Some(root) => path_is_absolute(root.as_str()),
        None => true,
    };
    let r = validate_config_with(config, is_absolute);
    assert(config_outcome(config_failure(*config, is_absolute), r));
    r
}

/// The system prompt of a turn: the host's prompt or the default, followed
/// by the host's suffix (trimmed) when it is not blank, separated by a blank
/// line when the prompt is not blank.
pub open spec fn composed_prompt(base: Seq<char>, append: Option<Seq<char>>) -> Seq<char> {
    match append {
        Some(a) => if trim_seq(a).len() > 0 {
            if trim_seq(base).len() > 0 {
                base + "\n\n"@ + trim_seq(a)
            } else {
                base + trim_seq(a)
            }
        } else {
            base
        },
        None => base,
    }
}

/// Compose the system prompt of a turn from the configuration.
pub fn compose_system_prompt<Tool>(config: &LynxEmbedConfig<Tool>) -> (r: String)
    ensures
        r@ == composed_prompt(
            match config.system_prompt {
                Some(p) => p@,
                None => EMBED_DEFAULT_SYSTEM_PROMPT@,
            },
            config.append_system_prompt.deep_view(),
        ),
{
    let mut prompt = match &config.system_prompt {
        Some(p) => p.clone(),
        None => String::from_str(EMBED_DEFAULT_SYSTEM_PROMPT),
    };
    match &config.append_system_prompt {
        Some(a) => {
            let append = str_trim(a.as_str());
            if !append.is_empty() {
                if !str_trim(prompt.as_str()).is_empty() {
                    prompt.append("\n\n");
                }
                prompt.append(append);
            }
        },
        None => {},
    }
    prompt
}


/// A configuration that passes validation has a consistent tool policy:
/// every tool kind it lists is one that the policy allows, so policy
/// filtering never silently drops a listed kind.
pub proof fn lemma_valid_config_allows_listed_tools<Tool>(
    config: LynxEmbedConfig<Tool>,
    workspace_root_is_absolute: bool,
    kind: HostToolKind,
)
    requires
        config_failure(config, workspace_root_is_absolute) is None,
        config.tool_policy.allowed_tools@.contains(kind),
    ensures
        config.tool_policy.spec_allows(kind),
{
    let k = choose|k: int|
        0 <= k < config.tool_policy.allowed_tools@.len() && config.tool_policy.allowed_tools@[k]
            == kind;
    if kind.spec_is_mutating() {
        assert(config.tool_policy.allowed_tools@[k].spec_is_mutating());
        assert(lists_mutating(config.tool_policy));
    }
    if kind.spec_is_exec() {
        assert(config.tool_policy.allowed_tools@[k].spec_is_exec());
        assert(lists_exec(config.tool_policy));
    }
}

/// The conditions under which embed mode accepts a configuration: at least
/// one tool iteration, no extensions, an in-memory session, mutating tools
/// listed only with `allow_mutations`, exec tools only with `allow_exec`,
/// and an absolute workspace root when one is given.
pub open spec fn embed_supported<Tool>(
    config: LynxEmbedConfig<Tool>,
    workspace_root_is_absolute: bool,
) -> bool {
    &&& config.max_tool_iterations > 0
    &&& !config.enable_extensions
    &&& config.session_mode == SessionMode::InMemory
    &&& forall|k: int|
        0 <= k < config.tool_policy.allowed_tools@.len() ==> {
            &&& (#[trigger] config.tool_policy.allowed_tools@[k]).spec_is_mutating()
                ==> config.tool_policy.allow_mutations
            &&& config.tool_policy.allowed_tools@[k].spec_is_exec() ==> config.tool_policy.allow_exec
        }
    &&& config.runtime_metadata.workspace_root is Some ==> workspace_root_is_absolute
}

/// Validation accepts exactly the supported configurations: an outcome of
/// the configuration checks is `Ok` if and only if the configuration has at
/// least one tool iteration, no extensions, an in-memory session (a debug
/// file or persistent session is rejected), tool flags that cover every
/// listed mutating or exec tool, and an absolute workspace root if any.
pub proof fn lemma_validation_accepts_only_supported<Tool>(
    config: LynxEmbedConfig<Tool>,
    workspace_root_is_absolute: bool,
    r: Result<(), EmbedError>,
)
    requires
        config_outcome(config_failure(config, workspace_root_is_absolute), r),
    ensures
        r is Ok <==> embed_supported(config, workspace_root_is_absolute),
        r is Ok ==> config.session_mode == SessionMode::InMemory,
{
    let policy = config.tool_policy;
    if lists_mutating(policy) {
        let k = choose|k: int|
            0 <= k < policy.allowed_tools@.len() && #[trigger] policy.allowed_tools@[k].spec_is_mutating();
        assert(policy.allowed_tools@[k].spec_is_mutating());
    }
    if lists_exec(policy) {
        let k = choose|k: int|
            0 <= k < policy.allowed_tools@.len() && #[trigger] policy.allowed_tools@[k].spec_is_exec();
        assert(policy.allowed_tools@[k].spec_is_exec());
    }
    if embed_supported(config, workspace_root_is_absolute) {
        assert(!(lists_mutating(policy) && !policy.allow_mutations));
        assert(!(lists_exec(policy) && !policy.allow_exec));
    }
}

} // verus!
