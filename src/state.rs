//! The process-wide state: one credential store per provider and the
//! configuration of the custom API providers. Callers hold it behind one
//! reader/writer lock; every method taking `&mut self` is a mutation that
//! needs exclusive access.
use vstd::prelude::*;
use crate::store::{ProviderKind, ProviderStore};

verus! {

/// Configuration of a custom API endpoint.
pub struct CustomProviderConfig {
    pub enabled: bool,
    pub api_key: Option<String>,
    pub base_url: Option<String>,
}

/// Which public API a custom provider speaks.
#[derive(PartialEq, Eq, Structural, Clone, Copy, Debug)]
pub enum CustomApi {
    OpenAI,
    Anthropic,
}

impl CustomApi {
    pub open spec fn spec_default_base_url(self) -> Seq<char> {
        match self {
            CustomApi::OpenAI => "https://api.openai.com"@,
            CustomApi::Anthropic => "https://api.anthropic.com"@,
        }
    }

    /// The endpoint used when none is configured.
    pub fn default_base_url(self) -> (r: &'static str)
        ensures
            r@ == self.spec_default_base_url(),
    {
        match self {
            CustomApi::OpenAI => "https://api.openai.com",
            CustomApi::Anthropic => "https://api.anthropic.com",
        }
    }
}

/// A custom API provider: its kind and its configuration.
pub struct CustomProvider {
    pub api: CustomApi,
    pub config: CustomProviderConfig,
}

impl CustomProvider {
    pub open spec fn spec_base_url(&self) -> Seq<char> {
        match self.config.base_url {
            Some(u) => u@,
            None => self.api.spec_default_base_url(),
        }
    }

    /// A disabled provider without key or endpoint.
    pub fn new(api: CustomApi) -> (r: CustomProvider)
        ensures
            r.api == api,
            !r.config.enabled,
            r.config.api_key is None,
            r.config.base_url is None,
    {
        CustomProvider { api, config: CustomProviderConfig { enabled: false, api_key: None, base_url: None } }
    }

    /// The configured endpoint, or the API's default one.
    pub fn get_base_url(&self) -> (r: String)
        ensures
            r@ == self.spec_base_url(),
    {
        match &self.config.base_url {
            Some(u) => u.clone(),
            None => String::from_str(self.api.default_base_url()),
        }
    }

    /// Replaces the whole configuration.
    pub fn set_config(&mut self, api_key: Option<String>, base_url: Option<String>, enabled: bool)
        ensures
            final(self).api == old(self).api,
            final(self).config.api_key == api_key,
            final(self).config.base_url == base_url,
            final(self).config.enabled == enabled,
    {
        self.config = CustomProviderConfig { enabled, api_key, base_url };
    }
}

/// Status of the OpenAI-compatible custom provider.
pub struct OpenAICustomStatus {
    pub enabled: bool,
    pub has_api_key: bool,
    pub base_url: String,
}

/// Status of the Anthropic-compatible custom provider.
pub struct ClaudeCustomStatus {
    pub enabled: bool,
    pub has_api_key: bool,
    pub base_url: String,
}

/// Everything the process knows of its providers.
pub struct AppState {
    pub kiro_provider: ProviderStore,
    pub gemini_provider: ProviderStore,
    pub openai_custom_provider: CustomProvider,
    pub claude_custom_provider: CustomProvider,
}

impl AppState {
    pub open spec fn wf(&self) -> bool {
        &&& self.kiro_provider.wf()
        &&& self.kiro_provider.kind == ProviderKind::Kiro
        &&& self.gemini_provider.wf()
        &&& self.gemini_provider.kind == ProviderKind::Gemini
        &&& self.openai_custom_provider.api == CustomApi::OpenAI
        &&& self.claude_custom_provider.api == CustomApi::Anthropic
    }

    /// The state at process start: no credentials, custom providers off.
    pub fn new() -> (r: AppState)
        ensures
            r.wf(),
            !r.kiro_provider.credentials.is_loaded(),
            !r.gemini_provider.credentials.is_loaded(),
            !r.openai_custom_provider.config.enabled,
            !r.claude_custom_provider.config.enabled,
    {
        AppState {
            kiro_provider: ProviderStore::new(ProviderKind::Kiro),
            gemini_provider: ProviderStore::new(ProviderKind::Gemini),
            openai_custom_provider: CustomProvider::new(CustomApi::OpenAI),
            claude_custom_provider: CustomProvider::new(CustomApi::Anthropic),
        }
    }
}

/// The OpenAI custom provider's status; the key itself is not shown.
pub fn get_openai_custom_status(state: &AppState) -> (r: OpenAICustomStatus)
    ensures
        r.enabled == state.openai_custom_provider.config.enabled,
        r.has_api_key == state.openai_custom_provider.config.api_key.is_some(),
        r.base_url@ == state.openai_custom_provider.spec_base_url(),
{
    let p = &state.openai_custom_provider;
    OpenAICustomStatus {
        enabled: p.config.enabled,
        has_api_key: p.config.api_key.is_some(),
        base_url: p.get_base_url(),
    }
}

/// Replaces the OpenAI custom provider's configuration; nothing else changes.
pub fn set_openai_custom_config(
    state: &mut AppState,
    api_key: Option<String>,
    base_url: Option<String>,
    enabled: bool,
)
    ensures
        final(state).openai_custom_provider.api == old(state).openai_custom_provider.api,
        final(state).openai_custom_provider.config == (CustomProviderConfig { enabled, api_key, base_url }),
        final(state).kiro_provider == old(state).kiro_provider,
        final(state).gemini_provider == old(state).gemini_provider,
        final(state).claude_custom_provider == old(state).claude_custom_provider,
{
    state.openai_custom_provider.set_config(api_key, base_url, enabled);
}

/// The Anthropic custom provider's status; the key itself is not shown.
pub fn get_claude_custom_status(state: &AppState) -> (r: ClaudeCustomStatus)
    ensures
        r.enabled == state.claude_custom_provider.config.enabled,
        r.has_api_key == state.claude_custom_provider.config.api_key.is_some(),
        r.base_url@ == state.claude_custom_provider.spec_base_url(),
{
    let p = &state.claude_custom_provider;
    ClaudeCustomStatus {
        enabled: p.config.enabled,
        has_api_key: p.config.api_key.is_some(),
        base_url: p.get_base_url(),
    }
}

/// Replaces the Anthropic custom provider's configuration; nothing else changes.
pub fn set_claude_custom_config(
    state: &mut AppState,
    api_key: Option<String>,
    base_url: Option<String>,
    enabled: bool,
)
    ensures
        final(state).claude_custom_provider.api == old(state).claude_custom_provider.api,
        final(state).claude_custom_provider.config == (CustomProviderConfig { enabled, api_key, base_url }),
        final(state).kiro_provider == old(state).kiro_provider,
        final(state).gemini_provider == old(state).gemini_provider,
        final(state).openai_custom_provider == old(state).openai_custom_provider,
{
    state.claude_custom_provider.set_config(api_key, base_url, enabled);
}

} // verus!
