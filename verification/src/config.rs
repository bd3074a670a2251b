//! What a client is configured with, and the fluent builder for it.

use vstd::prelude::*;
use crate::text::texts;

verus! {

/// The shape in which the assistant is asked to answer.
#[derive(Debug, Clone, Copy, PartialEq, Eq, Structural)]
pub enum StreamFormat {
    Text,
    Json,
    StreamJson,
}

impl Default for StreamFormat {
    fn default() -> (r: Self)
        ensures
            r == StreamFormat::Text,
    {
        StreamFormat::Text
    }
}

/// The settings of a client. They are fixed once the client is built.
#[derive(Debug, Clone)]
pub struct Config {
    pub system_prompt: Option<String>,
    pub model: Option<String>,
    /// Where the MCP configuration file lies.
    pub mcp_config_path: Option<String>,
    pub allowed_tools: Option<Vec<String>>,
    pub stream_format: StreamFormat,
    pub non_interactive: bool,
    pub verbose: bool,
    pub max_tokens: Option<usize>,
    /// How many seconds a request may take; thirty where none is given.
    pub timeout_secs: Option<u64>,
}

/// The mathematical value of a [`Config`].
pub struct ConfigView {
    pub system_prompt: Option<Seq<char>>,
    pub model: Option<Seq<char>>,
    pub mcp_config_path: Option<Seq<char>>,
    pub allowed_tools: Option<Seq<Seq<char>>>,
    pub stream_format: StreamFormat,
    pub non_interactive: bool,
    pub verbose: bool,
    pub max_tokens: Option<usize>,
    pub timeout_secs: Option<u64>,
}

/// The view of an optional string.
pub open spec fn opt_text(s: Option<String>) -> Option<Seq<char>> {
    match s {
        Some(s) => Some(s@),
        None => None,
    }
}

impl View for Config {
    type V = ConfigView;

    open spec fn view(&self) -> ConfigView {
        ConfigView {
            system_prompt: opt_text(self.system_prompt),
            model: opt_text(self.model),
            mcp_config_path: opt_text(self.mcp_config_path),
            allowed_tools: match self.allowed_tools {
                Some(tools) => Some(texts(tools@)),
                None => None,
            },
            stream_format: self.stream_format,
            non_interactive: self.non_interactive,
            verbose: self.verbose,
            max_tokens: self.max_tokens,
            timeout_secs: self.timeout_secs,
        }
    }
}

/// The timeout of a configuration that names none.
pub const DEFAULT_TIMEOUT_SECS: u64 = 30;

/// The settings that a client starts from: plain text, non-interactive,
/// quiet, thirty seconds, and nothing else set.
pub open spec fn default_config() -> ConfigView {
    ConfigView {
        system_prompt: None,
        model: None,
        mcp_config_path: None,
        allowed_tools: None,
        stream_format: StreamFormat::Text,
        non_interactive: true,
        verbose: false,
        max_tokens: None,
        timeout_secs: Some(DEFAULT_TIMEOUT_SECS),
    }
}

impl Default for Config {
    fn default() -> (r: Self)
        ensures
            r@ == default_config(),
    {
        Config {
            system_prompt: None,
            model: None,
            mcp_config_path: None,
            allowed_tools: None,
            stream_format: StreamFormat::Text,
            non_interactive: true,
            verbose: false,
            max_tokens: None,
            timeout_secs: Some(DEFAULT_TIMEOUT_SECS),
        }
    }
}

impl ConfigView {
    /// The seconds that a request may take.
    pub open spec fn timeout(self) -> u64 {
        match self.timeout_secs {
            Some(secs) => secs,
            None => DEFAULT_TIMEOUT_SECS,
        }
    }
}

impl Config {
    /// Starts a builder from the default settings.
    pub fn builder() -> (r: ConfigBuilder)
        ensures
            r@ == default_config(),
    {
        ConfigBuilder::new()
    }

    /// The seconds that a request may take.
    pub fn timeout(&self) -> (r: u64)
        ensures
            r == self@.timeout(),
    {
        match self.timeout_secs {
            Some(secs) => secs,
            None => DEFAULT_TIMEOUT_SECS,
        }
    }
}

/// Builds a [`Config`] one setting at a time. Its view is the view of the
/// configuration that `build` would hand out.
pub struct ConfigBuilder {
    config: Config,
}

impl View for ConfigBuilder {
    type V = ConfigView;

    closed spec fn view(&self) -> ConfigView {
        self.config@
    }
}

impl ConfigBuilder {
    pub fn new() -> (r: Self)
        ensures
            r@ == default_config(),
    {
        ConfigBuilder { config: Config::default() }
    }

    pub fn system_prompt(self, prompt: &str) -> (r: Self)
        ensures
            r@ == (ConfigView { system_prompt: Some(prompt@), ..self@ }),
    {
        let mut config = self.config;
        config.system_prompt = Some(prompt.to_owned());
        ConfigBuilder { config }
    }

    pub fn model(self, model: &str) -> (r: Self)
        ensures
            r@ == (ConfigView { model: Some(model@), ..self@ }),
    {
        let mut config = self.config;
        config.model = Some(model.to_owned());
        ConfigBuilder { config }
    }

    pub fn mcp_config(self, path: &str) -> (r: Self)
        ensures
            r@ == (ConfigView { mcp_config_path: Some(path@), ..self@ }),
    {
        let mut config = self.config;
        config.mcp_config_path = Some(path.to_owned());
        ConfigBuilder { config }
    }

    pub fn allowed_tools(self, tools: Vec<String>) -> (r: Self)
        ensures
            r@ == (ConfigView { allowed_tools: Some(texts(tools@)), ..self@ }),
    {
        let mut config = self.config;
        config.allowed_tools = Some(tools);
        ConfigBuilder { config }
    }

    pub fn stream_format(self, format: StreamFormat) -> (r: Self)
        ensures
            r@ == (ConfigView { stream_format: format, ..self@ }),
    {
        let mut config = self.config;
        config.stream_format = format;
        ConfigBuilder { config }
    }

    pub fn non_interactive(self, non_interactive: bool) -> (r: Self)
        ensures
            r@ == (ConfigView { non_interactive: non_interactive, ..self@ }),
    {
        let mut config = self.config;
        config.non_interactive = non_interactive;
        ConfigBuilder { config }
    }

    pub fn max_tokens(self, max_tokens: usize) -> (r: Self)
        ensures
            r@ == (ConfigView { max_tokens: Some(max_tokens), ..self@ }),
    {
        let mut config = self.config;
        config.max_tokens = Some(max_tokens);
        ConfigBuilder { config }
    }

    pub fn timeout_secs(self, timeout_secs: u64) -> (r: Self)
        ensures
            r@ == (ConfigView { timeout_secs: Some(timeout_secs), ..self@ }),
    {
        let mut config = self.config;
        config.timeout_secs = Some(timeout_secs);
        ConfigBuilder { config }
    }

    pub fn build(self) -> (r: Config)
        ensures
            r@ == self@,
    {
        self.config
    }
}

} // verus!
