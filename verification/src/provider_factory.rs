//! Provider/model resolution: the host's selection, normalized into a model
//! entry and conservative stream settings.
//!
//! The runtime's provider catalog answers two questions that this module
//! takes as inputs: the canonical identifier of a provider alias, and the
//! routing defaults that the catalog knows for a provider.

use vstd::prelude::*;
use crate::errors::EmbedError;
use crate::model::ThinkingLevel;
use crate::text::{ascii_lower, eq_ignore_ascii_case, str_trim, trim_seq};
use crate::types::ProviderSelection;

verus! {

/// Input modalities that a model accepts.
#[derive(Debug, Clone, Copy, PartialEq, Eq, Structural)]
pub enum InputType {
    Text,
    Image,
}

/// Routing defaults for a provider: its API family, endpoint and limits.
#[derive(Debug, Clone, PartialEq, Eq)]
pub struct RoutingDefaults {
    pub api: String,
    pub base_url: String,
    pub auth_header: bool,
    pub reasoning: bool,
    pub input: Vec<InputType>,
    pub context_window: u32,
    pub max_tokens: u32,
}

/// The mathematical value of routing defaults.
pub struct RoutingDefaultsView {
    pub api: Seq<char>,
    pub base_url: Seq<char>,
    pub auth_header: bool,
    pub reasoning: bool,
    pub input: Seq<InputType>,
    pub context_window: u32,
    pub max_tokens: u32,
}

impl View for RoutingDefaults {
    type V = RoutingDefaultsView;

    open spec fn view(&self) -> RoutingDefaultsView {
        RoutingDefaultsView {
            api: self.api@,
            base_url: self.base_url@,
            auth_header: self.auth_header,
            reasoning: self.reasoning,
            input: self.input@,
            context_window: self.context_window,
            max_tokens: self.max_tokens,
        }
    }
}

/// The view of optional routing defaults.
pub open spec fn opt_defaults_view(d: Option<RoutingDefaults>) -> Option<RoutingDefaultsView> {
    match d {
        Some(d) => Some(d@),
        None => None,
    }
}

/// A normalized model entry from which the provider is created.
#[derive(Debug, Clone, PartialEq, Eq)]
pub struct ModelEntry {
    /// Normalized model identifier.
    pub id: String,
    /// Display name (the model identifier).
    pub name: String,
    /// API family of the provider.
    pub api: String,
    /// Normalized provider identifier.
    pub provider: String,
    /// Endpoint of the provider.
    pub base_url: String,
    /// Whether the model reasons.
    pub reasoning: bool,
    /// Accepted input modalities.
    pub input: Vec<InputType>,
    /// Context window in tokens.
    pub context_window: u32,
    /// Output limit in tokens.
    pub max_tokens: u32,
    /// Host-supplied API key, trimmed, when not blank.
    pub api_key: Option<String>,
    /// Whether the key travels in an authorization header.
    pub auth_header: bool,
}

/// The mathematical value of a model entry.
pub struct ModelEntryView {
    pub id: Seq<char>,
    pub name: Seq<char>,
    pub api: Seq<char>,
    pub provider: Seq<char>,
    pub base_url: Seq<char>,
    pub reasoning: bool,
    pub input: Seq<InputType>,
    pub context_window: u32,
    pub max_tokens: u32,
    pub api_key: Option<Seq<char>>,
    pub auth_header: bool,
}

impl View for ModelEntry {
    type V = ModelEntryView;

    open spec fn view(&self) -> ModelEntryView {
        ModelEntryView {
            id: self.id@,
            name: self.name@,
            api: self.api@,
            provider: self.provider@,
            base_url: self.base_url@,
            reasoning: self.reasoning,
            input: self.input@,
            context_window: self.context_window,
            max_tokens: self.max_tokens,
            api_key: self.api_key.deep_view(),
            auth_header: self.auth_header,
        }
    }
}

impl ModelEntry {
    /// Return the normalized provider identifier.
    pub fn provider_id(&self) -> (r: &str)
        ensures
            r@ == self.provider@,
    {
        self.provider.as_str()
    }

    /// Return the normalized model identifier.
    pub fn model_id(&self) -> (r: &str)
        ensures
            r@ == self.id@,
    {
        self.id.as_str()
    }
}

/// A trimmed value, or nothing when it is blank.
pub open spec fn normalized_optional(value: Option<Seq<char>>) -> Option<Seq<char>> {
    match value {
        Some(v) => if trim_seq(v).len() > 0 {
            Some(trim_seq(v))
        } else {
            None
        },
        None => None,
    }
}

/// Trim an optional value, dropping it when it is blank.
pub fn normalize_optional_string(value: Option<&str>) -> (r: Option<String>)
    ensures
        r.deep_view() == normalized_optional(
            match value {
                Some(v) => Some(v@),
                None => None,
            },
        ),
{
    match value {
        Some(v) => {
            let t = str_trim(v);
            if t.is_empty() {
                None
            } else {
                Some(String::from_str(t))
            }
        },
        None => None,
    }
}

/// The fully qualified model for an OpenRouter shorthand, compared without
/// regard to ASCII case.
pub open spec fn openrouter_alias(model: Seq<char>) -> Option<Seq<char>> {
    let m = ascii_lower(model);
    if m == ascii_lower("auto"@) {
        Some("openrouter/auto"@)
    } else if m == ascii_lower("gpt-4o-mini"@) {
        Some("openai/gpt-4o-mini"@)
    } else if m == ascii_lower("gpt-4o"@) {
        Some("openai/gpt-4o"@)
    } else if m == ascii_lower("gemini-2.5-pro"@) {
        Some("google/gemini-2.5-pro"@)
    } else {
        None
    }
}

/// The canonical model identifier: OpenRouter shorthands are expanded, and
/// every other identifier is trimmed.
pub open spec fn canonical_model(provider_id: Seq<char>, model_id: Seq<char>) -> Seq<char> {
    if ascii_lower(provider_id) == ascii_lower("openrouter"@) {
        match openrouter_alias(trim_seq(model_id)) {
            Some(full) => full,
            None => trim_seq(model_id),
        }
    } else {
        trim_seq(model_id)
    }
}

/// Expand OpenRouter model shorthands; trim every other model identifier.
pub fn canonicalize_model_id(provider_id: &str, model_id: &str) -> (r: String)
    ensures
        r@ == canonical_model(provider_id@, model_id@),
{
    let m = str_trim(model_id);
    if eq_ignore_ascii_case(provider_id, "openrouter") {
        if eq_ignore_ascii_case(m, "auto") {
            return String::from_str("openrouter/auto");
        }
        if eq_ignore_ascii_case(m, "gpt-4o-mini") {
            return String::from_str("openai/gpt-4o-mini");
        }
        if eq_ignore_ascii_case(m, "gpt-4o") {
            return String::from_str("openai/gpt-4o");
        }
        if eq_ignore_ascii_case(m, "gemini-2.5-pro") {
            return String::from_str("google/gemini-2.5-pro");
        }
    }
    String::from_str(m)
}

/// The endpoint of the Codex responses API.
pub const OPENAI_CODEX_RESPONSES_BASE_URL: &'static str = "https://chatgpt.com/backend-api/codex/responses";

/// The endpoint of the Gemini CLI API.
pub const GOOGLE_GEMINI_CLI_BASE_URL: &'static str = "https://cloudcode-pa.googleapis.com";

/// The endpoint of the Antigravity sandbox.
pub const GOOGLE_ANTIGRAVITY_BASE_URL: &'static str = "https://daily-cloudcode-pa.sandbox.googleapis.com";

/// Routing defaults that the embed layer supplies itself for providers that
/// the catalog does not route.
pub open spec fn builtin_defaults(provider_id: Seq<char>) -> Option<RoutingDefaultsView> {
    if provider_id == "openai-codex"@ {
        Some(
            RoutingDefaultsView {
                api: "openai-codex-responses"@,
                base_url: OPENAI_CODEX_RESPONSES_BASE_URL@,
                auth_header: true,
                reasoning: true,
                input: seq![InputType::Text, InputType::Image],
                context_window: 128_000,
                max_tokens: 16_384,
            },
        )
    } else if provider_id == "google-gemini-cli"@ {
        Some(
            RoutingDefaultsView {
                api: "google-gemini-cli"@,
                base_url: GOOGLE_GEMINI_CLI_BASE_URL@,
                auth_header: false,
                reasoning: true,
                input: seq![InputType::Text, InputType::Image],
                context_window: 128_000,
                max_tokens: 8_192,
            },
        )
    } else if provider_id == "google-antigravity"@ {
        Some(
            RoutingDefaultsView {
                api: "google-gemini-cli"@,
                base_url: GOOGLE_ANTIGRAVITY_BASE_URL@,
                auth_header: false,
                reasoning: true,
                input: seq![InputType::Text, InputType::Image],
                context_window: 128_000,
                max_tokens: 8_192,
            },
        )
    } else {
        None
    }
}

/// Whether a string equals a literal.
fn str_equals(a: &str, b: &str) -> (r: bool)
    ensures
        r == (a@ == b@),
{
    let x = String::from_str(a);
    let y = String::from_str(b);
    x == y
}

/// The routing defaults of a provider: those of the catalog when it routes
/// the provider (`routed`), else the embed layer's own.
pub fn provider_defaults(provider_id: &str, routed: Option<RoutingDefaults>) -> (r: Option<
    RoutingDefaults,
>)
    ensures
        opt_defaults_view(r) == match opt_defaults_view(routed) {
            Some(d) => Some(d),
            None => builtin_defaults(provider_id@),
        },
{
    if routed.is_some() {
        return routed;
    }
    if str_equals(provider_id, "openai-codex") {
        Some(
            RoutingDefaults {
                api: String::from_str("openai-codex-responses"),
                base_url: String::from_str(OPENAI_CODEX_RESPONSES_BASE_URL),
                auth_header: true,
                reasoning: true,
                input: vec![InputType::Text, InputType::Image],
                context_window: 128_000,
                max_tokens: 16_384,
            },
        )
    } else if str_equals(provider_id, "google-gemini-cli") {
        Some(
            RoutingDefaults {
                api: String::from_str("google-gemini-cli"),
                base_url: String::from_str(GOOGLE_GEMINI_CLI_BASE_URL),
                auth_header: false,
                reasoning: true,
                input: vec![InputType::Text, InputType::Image],
                context_window: 128_000,
                max_tokens: 8_192,
            },
        )
    } else if str_equals(provider_id, "google-antigravity") {
        Some(
            RoutingDefaults {
                api: String::from_str("google-gemini-cli"),
                base_url: String::from_str(GOOGLE_ANTIGRAVITY_BASE_URL),
                auth_header: false,
                reasoning: true,
                input: vec![InputType::Text, InputType::Image],
                context_window: 128_000,
                max_tokens: 8_192,
            },
        )
    } else {
        None
    }
}


/// The operation named by model-entry failures.
pub open spec fn resolve_operation() -> Seq<char> {
    "provider_factory::resolve_model_entry"@
}

/// The provider identifier under which the catalog is asked for the
/// canonical form: the host's identifier, trimmed.
pub fn provider_lookup_id(selection: &ProviderSelection) -> (r: String)
    ensures
        r@ == trim_seq(selection.provider_id@),
{
    String::from_str(str_trim(selection.provider_id.as_str()))
}

/// The provider identifier in effect: the catalog's canonical identifier for
/// the alias when it knows one, else the trimmed identifier itself.
pub fn effective_provider_id(trimmed: &str, canonical: Option<String>) -> (r: String)
    ensures
        r@ == match canonical {
            Some(c) => c@,
            None => trimmed@,
        },
{
    match canonical {
        Some(c) => c,
        None => String::from_str(trimmed),
    }
}

/// The model entry resolved from a selection, given the catalog's canonical
/// identifier for the trimmed provider identifier (`canonical`) and the
/// catalog's routing defaults for the provider in effect (`routed`); or the
/// message of the configuration failure.
pub open spec fn resolve_model_entry_spec(
    selection: ProviderSelection,
    canonical: Option<Seq<char>>,
    routed: Option<RoutingDefaultsView>,
) -> Result<ModelEntryView, Seq<char>> {
    let raw_provider = trim_seq(selection.provider_id@);
    let raw_model = trim_seq(selection.model_id@);
    if raw_provider.len() == 0 {
        Err("provider_id must not be empty"@)
    } else if raw_model.len() == 0 {
        Err("model_id must not be empty"@)
    } else {
        let provider = match canonical {
            Some(c) => c,
            None => raw_provider,
        };
        let model = canonical_model(provider, raw_model);
        let defaults = match routed {
            Some(d) => Some(d),
            None => builtin_defaults(provider),
        };
        match defaults {
            None => Err(
                "provider '"@ + provider + "' does not expose embed-safe routing defaults"@,
            ),
            Some(d) => Ok(
                ModelEntryView {
                    id: model,
                    name: model,
                    api: d.api,
                    provider,
                    base_url: d.base_url,
                    reasoning: d.reasoning,
                    input: d.input,
                    context_window: d.context_window,
                    max_tokens: d.max_tokens,
                    api_key: normalized_optional(selection.api_key.deep_view()),
                    auth_header: d.auth_header,
                },
            ),
        }
    }
}

/// Resolve a host selection into a model entry.
///
/// `canonical` is what the provider catalog gives as the canonical identifier
/// of the trimmed provider identifier, and `routed` what it gives as the
/// routing defaults of the provider in effect (see `provider_lookup_id` and
/// `effective_provider_id`).
pub fn resolve_model_entry(
    selection: &ProviderSelection,
    canonical: Option<String>,
    routed: Option<RoutingDefaults>,
) -> (r: Result<ModelEntry, EmbedError>)
    ensures
        match resolve_model_entry_spec(*selection, canonical.deep_view(), opt_defaults_view(routed)) {
            Ok(entry) => r is Ok && r->Ok_0@ == entry,
            Err(m) => r is Err && r->Err_0.is_config_error(resolve_operation(), m),
        },
{
    let raw_provider = str_trim(selection.provider_id.as_str());
    if raw_provider.is_empty() {
        return Err(
            EmbedError::config(
                "provider_factory::resolve_model_entry",
                String::from_str("provider_id must not be empty"),
            ),
        );
    }
    let raw_model = str_trim(selection.model_id.as_str());
    if raw_model.is_empty() {
        return Err(
            EmbedError::config(
                "provider_factory::resolve_model_entry",
                String::from_str("model_id must not be empty"),
            ),
        );
    }
    let provider = effective_provider_id(raw_provider, canonical);
    let model = canonicalize_model_id(provider.as_str(), raw_model);
    let defaults = provider_defaults(provider.as_str(), routed);
    match defaults {
        None => {
            let m = String::from_str("provider '");
            let m = m.concat(provider.as_str());
            let m = m.concat("' does not expose embed-safe routing defaults");
            Err(EmbedError::config("provider_factory::resolve_model_entry", m))
        },
        Some(d) => {
            let api_key = match &selection.api_key {
                Some(k) => normalize_optional_string(Some(k.as_str())),
                None => None,
            };
            Ok(
                ModelEntry {
                    id: model.clone(),
                    name: model,
                    api: d.api,
                    provider,
                    base_url: d.base_url,
                    reasoning: d.reasoning,
                    input: d.input,
                    context_window: d.context_window,
                    max_tokens: d.max_tokens,
                    api_key,
                    auth_header: d.auth_header,
                },
            )
        },
    }
}


/// Stream settings derived from the host's selection. The temperature
/// override is a float and is applied by the host side of the crate.
#[derive(Debug, Clone, PartialEq, Eq)]
pub struct StreamSettings {
    /// Host-supplied API key, trimmed, when not blank.
    pub api_key: Option<String>,
    /// Extra request headers; each name occurs once.
    pub headers: Vec<(String, String)>,
    /// Requested reasoning effort, as the model entry clamps it.
    pub thinking_level: Option<ThinkingLevel>,
    /// Output limit override.
    pub max_tokens: Option<u32>,
    /// Uniform reasoning budget, in tokens, for every effort level.
    pub thinking_budget_tokens: Option<u32>,
    /// Session identifier attached to requests.
    pub session_id: Option<String>,
}

/// The headers named by a list of name/value pairs, a later pair replacing
/// an earlier one of the same name.
pub open spec fn headers_map(pairs: Seq<(Seq<char>, Seq<char>)>) -> Map<Seq<char>, Seq<char>>
    decreases pairs.len(),
{
    if pairs.len() == 0 {
        Map::empty()
    } else {
        headers_map(pairs.drop_last()).insert(pairs.last().0, pairs.last().1)
    }
}

/// The views of string pairs.
pub open spec fn pairs_view(pairs: Seq<(String, String)>) -> Seq<(Seq<char>, Seq<char>)> {
    pairs.map_values(|p: (String, String)| (p.0@, p.1@))
}

/// Whether every name of a pair list occurs once.
pub open spec fn distinct_names(pairs: Seq<(Seq<char>, Seq<char>)>) -> bool {
    forall|i: int, j: int| 0 <= i < j < pairs.len() ==> pairs[i].0 != pairs[j].0
}

/// The operation named by stream-option failures.
pub open spec fn stream_operation() -> Seq<char> {
    "provider_factory::build_stream_options"@
}

/// The stream settings built from the first `n` header overrides, or the
/// configuration failure of a blank header name.
pub open spec fn override_headers_prefix(headers: Seq<(Seq<char>, Seq<char>)>, n: nat) -> Result<
    Map<Seq<char>, Seq<char>>,
    Seq<char>,
>
    decreases n,
{
    if n == 0 {
        Ok(Map::empty())
    } else {
        match override_headers_prefix(headers, (n - 1) as nat) {
            Err(m) => Err(m),
            Ok(map) => if trim_seq(headers[n - 1].0).len() == 0 {
                Err("stream override headers must not contain blank names"@)
            } else {
                Ok(map.insert(trim_seq(headers[n - 1].0), trim_seq(headers[n - 1].1)))
            },
        }
    }
}

/// The mathematical value of stream settings.
pub struct StreamSettingsView {
    pub api_key: Option<Seq<char>>,
    pub headers: Map<Seq<char>, Seq<char>>,
    pub thinking_level: Option<ThinkingLevel>,
    pub max_tokens: Option<u32>,
    pub thinking_budget_tokens: Option<u32>,
    pub session_id: Option<Seq<char>>,
}

impl View for StreamSettings {
    type V = StreamSettingsView;

    open spec fn view(&self) -> StreamSettingsView {
        StreamSettingsView {
            api_key: self.api_key.deep_view(),
            headers: headers_map(pairs_view(self.headers@)),
            thinking_level: self.thinking_level,
            max_tokens: self.max_tokens,
            thinking_budget_tokens: self.thinking_budget_tokens,
            session_id: self.session_id.deep_view(),
        }
    }
}

/// The stream settings built from a selection and the clamped thinking
/// level, or the message of the configuration failure. Checks run in order:
/// max tokens, reasoning budget, then header names.
pub open spec fn stream_settings_spec(
    selection: ProviderSelection,
    thinking_level: Option<ThinkingLevel>,
) -> Result<StreamSettingsView, Seq<char>> {
    let api_key = normalized_optional(selection.api_key.deep_view());
    match selection.stream_options_override {
        None => Ok(
            StreamSettingsView {
                api_key,
                headers: Map::empty(),
                thinking_level,
                max_tokens: None,
                thinking_budget_tokens: None,
                session_id: None,
            },
        ),
        Some(o) => if o.max_tokens == Some(0u32) {
            Err("max_tokens must be greater than zero"@)
        } else if o.reasoning_budget_tokens == Some(0u32) {
            Err("reasoning_budget_tokens must be greater than zero"@)
        } else {
            match override_headers_prefix(pairs_view(o.headers@), o.headers@.len()) {
                Err(m) => Err(m),
                Ok(headers) => Ok(
                    StreamSettingsView {
                        api_key,
                        headers,
                        thinking_level,
                        max_tokens: o.max_tokens,
                        thinking_budget_tokens: o.reasoning_budget_tokens,
                        session_id: None,
                    },
                ),
            }
        },
    }
}

/// Replacing the value of a listed name, in a list whose names are distinct,
/// replaces it in the headers.
proof fn lemma_headers_update(pairs: Seq<(Seq<char>, Seq<char>)>, k: int, v: Seq<char>)
    requires
        distinct_names(pairs),
        0 <= k < pairs.len(),
    ensures
        headers_map(pairs.update(k, (pairs[k].0, v))) == headers_map(pairs).insert(pairs[k].0, v),
    decreases pairs.len(),
{
    let updated = pairs.update(k, (pairs[k].0, v));
    if k == pairs.len() - 1 {
        assert(updated.drop_last() =~= pairs.drop_last());
        assert(headers_map(updated) =~= headers_map(pairs).insert(pairs[k].0, v));
    } else {
        let prev = pairs.drop_last();
        assert(updated.drop_last() =~= prev.update(k, (prev[k].0, v)));
        lemma_headers_update(prev, k, v);
        assert(pairs.last().0 != pairs[k].0);
        assert(headers_map(updated) =~= headers_map(pairs).insert(pairs[k].0, v));
    }
}

/// Sets a header, replacing the value of a header of the same name.
fn set_header(headers: &mut Vec<(String, String)>, name: String, value: String)
    requires
        distinct_names(pairs_view(old(headers)@)),
    ensures
        distinct_names(pairs_view(final(headers)@)),
        headers_map(pairs_view(final(headers)@)) == headers_map(pairs_view(old(headers)@)).insert(
            name@,
            value@,
        ),
{
    let ghost before = pairs_view(headers@);
    assert(before == pairs_view(old(headers)@));
    let mut i: usize = 0;
    while i < headers.len()
        invariant
            i <= headers@.len(),
            before == pairs_view(headers@),
            before == pairs_view(old(headers)@),
            distinct_names(before),
            forall|k: int| 0 <= k < i ==> before[k].0 != name@,
        decreases headers@.len() - i,
    {
        if headers[i].0 == name {
            let ghost k = i as int;
            assert(before[k].0 == name@);
            headers.set(i, (name, value));
            proof {
                assert(pairs_view(headers@) =~= before.update(k, (before[k].0, value@)));
                lemma_headers_update(before, k, value@);
                assert(headers_map(pairs_view(headers@)) == headers_map(before).insert(
                    name@,
                    value@,
                ));
                assert forall|a: int, b: int|
                    0 <= a < b < pairs_view(headers@).len() implies pairs_view(headers@)[a].0
                    != pairs_view(headers@)[b].0 by {
                    assert(pairs_view(headers@)[a].0 == before[a].0);
                    assert(pairs_view(headers@)[b].0 == before[b].0);
                }
            }
            return;
        }
        i = i + 1;
    }
    headers.push((name, value));
    proof {
        assert(pairs_view(headers@) =~= before.push((name@, value@)));
        assert(pairs_view(headers@).drop_last() =~= before);
    }
}

/// Build conservative stream settings from a host selection. `thinking_level`
/// is the selection's thinking preference as the model entry clamps it.
pub fn build_stream_options(
    selection: &ProviderSelection,
    thinking_level: Option<ThinkingLevel>,
) -> (r: Result<StreamSettings, EmbedError>)
    ensures
        match stream_settings_spec(*selection, thinking_level) {
            Ok(settings) => r is Ok && r->Ok_0@ == settings,
            Err(m) => r is Err && r->Err_0.is_config_error(stream_operation(), m),
        },
{
    let api_key = match &selection.api_key {
        Some(k) => normalize_optional_string(Some(k.as_str())),
        None => None,
    };
    let mut settings = StreamSettings {
        api_key,
        headers: Vec::new(),
        thinking_level,
        max_tokens: None,
        thinking_budget_tokens: None,
        session_id: None,
    };
    proof {
        assert(pairs_view(settings.headers@) =~= Seq::<(Seq<char>, Seq<char>)>::empty());
    }
    match &selection.stream_options_override {
        None => {},
        Some(o) => {
            if o.max_tokens == Some(0u32) {
                return Err(
                    EmbedError::config(
                        "provider_factory::build_stream_options",
                        String::from_str("max_tokens must be greater than zero"),
                    ),
                );
            }
            settings.max_tokens = o.max_tokens;
            if o.reasoning_budget_tokens == Some(0u32) {
                return Err(
                    EmbedError::config(
                        "provider_factory::build_stream_options",
                        String::from_str("reasoning_budget_tokens must be greater than zero"),
                    ),
                );
            }
            settings.thinking_budget_tokens = o.reasoning_budget_tokens;
            let ghost hv = pairs_view(o.headers@);
            let mut i: usize = 0;
            while i < o.headers.len()
                invariant
                    i <= o.headers@.len(),
                    hv == pairs_view(o.headers@),
                    selection.stream_options_override == Some(*o),
                    o.max_tokens != Some(0u32),
                    o.reasoning_budget_tokens != Some(0u32),
                    distinct_names(pairs_view(settings.headers@)),
                    override_headers_prefix(hv, i as nat) == Ok::<
                        Map<Seq<char>, Seq<char>>,
                        Seq<char>,
                    >(headers_map(pairs_view(settings.headers@))),
                    settings.api_key.deep_view() == normalized_optional(
                        selection.api_key.deep_view(),
                    ),
                    settings.thinking_level == thinking_level,
                    settings.max_tokens == o.max_tokens,
                    settings.thinking_budget_tokens == o.reasoning_budget_tokens,
                    settings.session_id is None,
                decreases o.headers@.len() - i,
            {
                let name = str_trim(o.headers[i].0.as_str());
                proof {
                    assert(hv[i as int] == (o.headers@[i as int].0@, o.headers@[i as int].1@));
                }
                if name.is_empty() {
                    proof {
                        assert(override_headers_prefix(hv, (i + 1) as nat) is Err);
                        lemma_headers_error_persists(hv, (i + 1) as nat, hv.len());
                    }
                    return Err(
                        EmbedError::config(
                            "provider_factory::build_stream_options",
                            String::from_str(
                                "stream override headers must not contain blank names",
                            ),
                        ),
                    );
                }
                let value = str_trim(o.headers[i].1.as_str());
                set_header(&mut settings.headers, String::from_str(name), String::from_str(value));
                i = i + 1;
            }
        },
    }
    Ok(settings)
}

/// A blank header name stays a failure on every longer prefix.
proof fn lemma_headers_error_persists(headers: Seq<(Seq<char>, Seq<char>)>, n: nat, m: nat)
    requires
        n <= m,
        override_headers_prefix(headers, n) is Err,
    ensures
        override_headers_prefix(headers, m) == override_headers_prefix(headers, n),
    decreases m - n,
{
    if n < m {
        lemma_headers_error_persists(headers, n, (m - 1) as nat);
    }
}

/// Attach the session identifier to stream settings.
pub fn with_session_id(session_id: &str, stream_options: StreamSettings) -> (r: StreamSettings)
    ensures
        r@ == (StreamSettingsView { session_id: Some(session_id@), ..stream_options@ }),
{
    let mut s = stream_options;
    s.session_id = Some(String::from_str(session_id));
    s
}

/// Each provider that the embed layer routes itself has its own endpoint:
/// two different providers never share a base URL.
pub proof fn lemma_builtin_endpoints_are_distinct(p: Seq<char>, q: Seq<char>)
    ensures
        builtin_defaults(p) is Some && builtin_defaults(q) is Some && p != q
            ==> builtin_defaults(p)->Some_0.base_url != builtin_defaults(q)->Some_0.base_url,
{
    reveal_strlit("https://chatgpt.com/backend-api/codex/responses");
    reveal_strlit("https://cloudcode-pa.googleapis.com");
    reveal_strlit("https://daily-cloudcode-pa.sandbox.googleapis.com");
    assert(OPENAI_CODEX_RESPONSES_BASE_URL@.len() == 47);
    assert(GOOGLE_GEMINI_CLI_BASE_URL@.len() == 35);
    assert(GOOGLE_ANTIGRAVITY_BASE_URL@.len() == 49);
}

/// When the catalog knows neither an alias nor routing for the provider,
/// every selection of a provider that the embed layer routes itself
/// resolves to that provider's own endpoint and API family: the Codex
/// responses API for `openai-codex`, the Gemini CLI endpoint for
/// `google-gemini-cli`, and the Antigravity sandbox for
/// `google-antigravity` (both on the Gemini CLI API).
pub proof fn lemma_builtin_providers_resolve_to_their_endpoints(selection: ProviderSelection)
    requires
        trim_seq(selection.model_id@).len() > 0,
    ensures
        trim_seq(selection.provider_id@) == "openai-codex"@ ==> (resolve_model_entry_spec(
            selection,
            None,
            None,
        ) matches Ok(entry) && entry.base_url == OPENAI_CODEX_RESPONSES_BASE_URL@ && entry.api
            == "openai-codex-responses"@ && entry.provider == "openai-codex"@),
        trim_seq(selection.provider_id@) == "google-gemini-cli"@ ==> (resolve_model_entry_spec(
            selection,
            None,
            None,
        ) matches Ok(entry) && entry.base_url == GOOGLE_GEMINI_CLI_BASE_URL@ && entry.api
            == "google-gemini-cli"@ && entry.provider == "google-gemini-cli"@),
        trim_seq(selection.provider_id@) == "google-antigravity"@ ==> (resolve_model_entry_spec(
            selection,
            None,
            None,
        ) matches Ok(entry) && entry.base_url == GOOGLE_ANTIGRAVITY_BASE_URL@ && entry.api
            == "google-gemini-cli"@ && entry.provider == "google-antigravity"@),
{
    reveal_strlit("openai-codex");
    reveal_strlit("google-gemini-cli");
    reveal_strlit("google-antigravity");
}

} // verus!
