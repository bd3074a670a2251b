//! The client: a configuration that is shared and never changed, and what
//! follows from it for one request. Running the binary is the caller's part;
//! the client says with what, and what the outcome means.

use std::sync::Arc;
use vstd::prelude::*;
use crate::config::{default_config, Config, ConfigView, StreamFormat};
use crate::error::{Error, ErrorView};
use crate::message::Timestamp;
use crate::parser::{parse_response, response_of, response_result};
use crate::process::{text_result, ProcessRunner, StateView};
use crate::command::command_args;
use crate::session::SessionId;
use crate::stream::{outcome_item, MessageStream};
use crate::text::texts;
use crate::types::{ClaudeResponse, ResponseView};

verus! {

/// What a finished run means under a format: the response that its output
/// stands for, or the failure of the run itself. A failed run gives no
/// response, whatever output it left.
pub open spec fn completed(format: StreamFormat, outcome: Result<Seq<char>, ErrorView>) -> Result<
    ResponseView,
    ErrorView,
> {
    match outcome {
        Ok(raw) => response_of(format, raw),
        Err(e) => Err(e),
    }
}

/// The text of what a finished run means.
pub open spec fn completed_text(format: StreamFormat, outcome: Result<Seq<char>, ErrorView>)
    -> Result<Seq<char>, ErrorView> {
    match completed(format, outcome) {
        Ok(response) => Ok(response.content),
        Err(e) => Err(e),
    }
}

/// A client of the assistant. Clones share one configuration.
#[derive(Clone)]
pub struct Client {
    config: Arc<Config>,
}

impl View for Client {
    type V = ConfigView;

    closed spec fn view(&self) -> ConfigView {
        (*self.config)@
    }
}

impl Client {
    pub fn new(config: Config) -> (r: Self)
        ensures
            r@ == config@,
    {
        Client { config: Arc::new(config) }
    }

    pub fn builder() -> (r: ClientBuilder)
        ensures
            r@ == default_config(),
    {
        ClientBuilder::new()
    }

    /// The configuration of the client.
    pub fn config(&self) -> (r: &Config)
        ensures
            r@ == self@,
    {
        &self.config
    }

    /// A copy of the client that shares its configuration.
    pub fn share(&self) -> (r: Client)
        ensures
            r@ == self@,
    {
        Client { config: Arc::clone(&self.config) }
    }

    /// Starts a request for `query`.
    pub fn query(&self, query: &str) -> (r: QueryBuilder)
        ensures
            r.spec_config() == self@,
            r.spec_query() == query@,
            r.spec_session() is None,
            r.spec_format() is None,
    {
        QueryBuilder::new(self.share(), query.to_owned())
    }

    /// The run of the binary for `query`, not yet started.
    pub fn runner(&self, query: &str) -> (r: ProcessRunner)
        ensures
            r.spec_args() == command_args(self@, query@),
            r.spec_timeout_secs() == self@.timeout(),
            r.spec_state() == StateView::NotStarted,
    {
        ProcessRunner::new(&self.config, query)
    }

    /// The full response for the outcome of a run, read in the configured
    /// format.
    pub fn complete_full(&self, outcome: Result<String, Error>) -> (r: Result<
        ClaudeResponse,
        Error,
    >)
        ensures
            response_result(r) == completed(self@.stream_format, text_result(outcome)),
    {
        match outcome {
            Ok(raw) => parse_response(self.config.stream_format, raw.as_str()),
            Err(e) => Err(e),
        }
    }

    /// The text of the response for the outcome of a run.
    pub fn complete(&self, outcome: Result<String, Error>) -> (r: Result<String, Error>)
        ensures
            text_result(r) == completed_text(self@.stream_format, text_result(outcome)),
    {
        match self.complete_full(outcome) {
            Ok(response) => Ok(response.content),
            Err(e) => Err(e),
        }
    }
}

/// Builds a client one setting at a time. Its view is the view of the
/// configuration that the client will have.
pub struct ClientBuilder {
    config: Config,
}

impl View for ClientBuilder {
    type V = ConfigView;

    closed spec fn view(&self) -> ConfigView {
        self.config@
    }
}

impl ClientBuilder {
    pub fn new() -> (r: Self)
        ensures
            r@ == default_config(),
    {
        ClientBuilder { config: Config::default() }
    }

    pub fn config(self, config: Config) -> (r: Self)
        ensures
            r@ == config@,
    {
        ClientBuilder { config }
    }

    pub fn system_prompt(self, prompt: &str) -> (r: Self)
        ensures
            r@ == (ConfigView { system_prompt: Some(prompt@), ..self@ }),
    {
        let mut config = self.config;
        config.system_prompt = Some(prompt.to_owned());
        ClientBuilder { config }
    }

    pub fn model(self, model: &str) -> (r: Self)
        ensures
            r@ == (ConfigView { model: Some(model@), ..self@ }),
    {
        let mut config = self.config;
        config.model = Some(model.to_owned());
        ClientBuilder { config }
    }

    pub fn allowed_tools(self, tools: Vec<String>) -> (r: Self)
        ensures
            r@ == (ConfigView { allowed_tools: Some(texts(tools@)), ..self@ }),
    {
        let mut config = self.config;
        config.allowed_tools = Some(tools);
        ClientBuilder { config }
    }

    pub fn stream_format(self, format: StreamFormat) -> (r: Self)
        ensures
            r@ == (ConfigView { stream_format: format, ..self@ }),
    {
        let mut config = self.config;
        config.stream_format = format;
        ClientBuilder { config }
    }

    pub fn verbose(self, verbose: bool) -> (r: Self)
        ensures
            r@ == (ConfigView { verbose: verbose, ..self@ }),
    {
        let mut config = self.config;
        config.verbose = verbose;
        ClientBuilder { config }
    }

    pub fn timeout_secs(self, timeout_secs: u64) -> (r: Self)
        ensures
            r@ == (ConfigView { timeout_secs: Some(timeout_secs), ..self@ }),
    {
        let mut config = self.config;
        config.timeout_secs = Some(timeout_secs);
        ClientBuilder { config }
    }

    pub fn build(self) -> (r: Client)
        ensures
            r@ == self@,
    {
        Client::new(self.config)
    }
}

/// One request in the making.
pub struct QueryBuilder {
    client: Client,
    query: String,
    session_id: Option<SessionId>,
    format: Option<StreamFormat>,
}

impl QueryBuilder {
    /// The configuration of the client that the request belongs to.
    pub closed spec fn spec_config(&self) -> ConfigView {
        self.client@
    }

    /// The text of the query.
    pub closed spec fn spec_query(&self) -> Seq<char> {
        self.query@
    }

    /// The session that the request is filed under, where one is set.
    pub closed spec fn spec_session(&self) -> Option<Seq<char>> {
        match self.session_id {
            Some(id) => Some(id@),
            None => None,
        }
    }

    /// The format that the request asks its stream to be read in, where one
    /// is set.
    pub closed spec fn spec_format(&self) -> Option<StreamFormat> {
        self.format
    }

    /// The format of the request's stream: its own where one is set, and the
    /// client's otherwise.
    pub open spec fn spec_stream_format(&self) -> StreamFormat {
        match self.spec_format() {
            Some(f) => f,
            None => self.spec_config().stream_format,
        }
    }

    pub fn new(client: Client, query: String) -> (r: Self)
        ensures
            r.spec_config() == client@,
            r.spec_query() == query@,
            r.spec_session() is None,
            r.spec_format() is None,
    {
        QueryBuilder { client, query, session_id: None, format: None }
    }

    pub fn session(self, session_id: SessionId) -> (r: Self)
        ensures
            r.spec_session() == Some(session_id@),
            r.spec_config() == self.spec_config(),
            r.spec_query() == self.spec_query(),
            r.spec_format() == self.spec_format(),
    {
        let mut builder = self;
        builder.session_id = Some(session_id);
        builder
    }

    pub fn format(self, format: StreamFormat) -> (r: Self)
        ensures
            r.spec_format() == Some(format),
            r.spec_config() == self.spec_config(),
            r.spec_query() == self.spec_query(),
            r.spec_session() == self.spec_session(),
    {
        let mut builder = self;
        builder.format = Some(format);
        builder
    }

    /// The format of the request's stream.
    pub fn stream_format(&self) -> (r: StreamFormat)
        ensures
            r == self.spec_stream_format(),
    {
        match self.format {
            Some(f) => f,
            None => self.client.config().stream_format,
        }
    }

    /// The run of the binary for this request, not yet started.
    pub fn runner(&self) -> (r: ProcessRunner)
        ensures
            r.spec_args() == command_args(self.spec_config(), self.spec_query()),
            r.spec_timeout_secs() == self.spec_config().timeout(),
            r.spec_state() == StateView::NotStarted,
    {
        self.client.runner(self.query.as_str())
    }

    /// The full response for the outcome of the request's run.
    pub fn complete_full(self, outcome: Result<String, Error>) -> (r: Result<ClaudeResponse, Error>)
        ensures
            response_result(r) == completed(
                self.spec_config().stream_format,
                text_result(outcome),
            ),
    {
        self.client.complete_full(outcome)
    }

    /// The text of the response for the outcome of the request's run.
    pub fn complete(self, outcome: Result<String, Error>) -> (r: Result<String, Error>)
        ensures
            text_result(r) == completed_text(
                self.spec_config().stream_format,
                text_result(outcome),
            ),
    {
        self.client.complete(outcome)
    }

    /// The stream for the outcome of the request's run: the text of the
    /// whole response as one `Assistant` message made at `now`, or the
    /// failure.
    pub fn stream(self, outcome: Result<String, Error>, now: Timestamp) -> (r: MessageStream)
        ensures
            r.remaining() == seq![
                outcome_item(
                    completed_text(self.spec_config().stream_format, text_result(outcome)),
                    now,
                ),
            ],
    {
        let format = self.stream_format();
        let answer = self.client.complete(outcome);
        MessageStream::from_outcome(answer, now, format)
    }
}

} // verus!
