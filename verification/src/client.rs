//! The client: which call to make for a history, and what the answer to a
//! call means. The network work itself is the transport's; the client hands
//! it a `Call` and takes back an `Exchange`.

use std::time::Duration;

use vstd::prelude::*;

use crate::api::{Models, GENERATE_CONTENT, STREAM_GENERATE_CONTENT};
use crate::context::{compile, Context, Push, Request, RequestView};
use crate::errors::{blocked, GemError, GemErrorView, Schema};
use crate::json::{parse_json, parsed_json, json_tree, JsonTree};
use crate::response::{first_text, GenerateContentResponse, ResponseView};
use crate::settings::{Settings, SettingsView};
use crate::types::{Blob, FileData, PartView, Role, TurnView};
use crate::wire::{api_error_of, decode_api_error, decode_response, response_of};

verus! {

/// The detail of a parsing failure where the body is well-formed JSON of
/// another shape than the schema.
pub const SCHEMA_MISMATCH: &'static str = "the body does not match the schema";

/// The name of the query parameter that carries the API key.
pub const KEY_PARAMETER: &'static str = "key";

/// The content type of a request body.
pub const CONTENT_TYPE: &'static str = "application/json";

/// The status that marks a call as answered with success.
pub const STATUS_OK: u16 = 200;

/// The two endpoints of the service.
#[derive(Debug, Clone, Copy, PartialEq, Eq, Structural)]
pub enum Endpoint {
    /// One response for one request.
    Generate,
    /// One request, answered by an array of responses that arrives in pieces.
    Stream,
}

impl Endpoint {
    /// The URL of this endpoint for a model: the base, the model's wire name,
    /// a colon and the method.
    pub open spec fn url(self, model: Models) -> Seq<char> {
        match self {
            Endpoint::Generate => GENERATE_CONTENT@ + model.wire_name() + ":generateContent"@,
            Endpoint::Stream => STREAM_GENERATE_CONTENT@ + model.wire_name()
                + ":streamGenerateContent"@,
        }
    }
}

/// One HTTP POST for the transport to make. The key goes out as the query
/// parameter `KEY_PARAMETER`, the body as JSON of type `CONTENT_TYPE`.
#[derive(Debug, PartialEq, Eq)]
pub struct Call {
    pub endpoint: Endpoint,
    pub url: String,
    pub api_key: String,
    pub body: Request,
}

/// What a call holds.
pub struct CallView {
    pub endpoint: Endpoint,
    pub url: Seq<char>,
    pub api_key: Seq<char>,
    pub body: RequestView,
}

impl View for Call {
    type V = CallView;

    open spec fn view(&self) -> CallView {
        CallView {
            endpoint: self.endpoint,
            url: self.url@,
            api_key: self.api_key@,
            body: self.body@,
        }
    }
}

/// What the transport reports of one call.
#[derive(Debug, PartialEq, Eq)]
pub enum Exchange {
    /// The request could not be sent.
    Unsent(String),
    /// A response came with this status, but its body could not be read.
    Unread { status: u16, detail: String },
    /// A response came with this status and this body.
    Answered { status: u16, body: Vec<u8> },
}

/// What an exchange holds.
pub enum ExchangeView {
    Unsent(Seq<char>),
    Unread { status: u16, detail: Seq<char> },
    Answered { status: u16, body: Seq<u8> },
}

impl View for Exchange {
    type V = ExchangeView;

    open spec fn view(&self) -> ExchangeView {
        match self {
            Exchange::Unsent(detail) => ExchangeView::Unsent(detail@),
            Exchange::Unread { status, detail } => ExchangeView::Unread {
                status: *status,
                detail: detail@,
            },
            Exchange::Answered { status, body } => ExchangeView::Answered {
                status: *status,
                body: body@,
            },
        }
    }
}

/// What a call's result holds.
pub open spec fn outcome_view(outcome: Result<GenerateContentResponse, GemError>) -> Result<
    ResponseView,
    GemErrorView,
> {
    match outcome {
        Ok(response) => Ok(response@),
        Err(error) => Err(error@),
    }
}

/// A response that decoded: itself where it is usable, else the error that
/// says why it is not.
pub open spec fn validated(response: ResponseView) -> Result<ResponseView, GemErrorView> {
    match response.verdict() {
        None => Ok(response),
        Some(kind) => Err(blocked(kind)),
    }
}

/// What a body means, given its status and what the JSON parser made of it.
///
/// Status 200 calls for the success schema, any other status for the error
/// schema. A body that is no JSON, or JSON of another shape, is a parsing
/// failure that names the schema. A well-formed error body is the provider's
/// error. A well-formed success body is validated.
pub open spec fn reading(status: u16, parsed: Result<JsonTree, Seq<char>>) -> Result<
    ResponseView,
    GemErrorView,
> {
    if status == STATUS_OK {
        match parsed {
            Err(detail) => Err(GemErrorView::ParsingFailure { schema: Schema::Success, detail }),
            Ok(tree) => match response_of(tree) {
                None => Err(
                    GemErrorView::ParsingFailure {
                        schema: Schema::Success,
                        detail: SCHEMA_MISMATCH@,
                    },
                ),
                Some(response) => validated(response),
            },
        }
    } else {
        match parsed {
            Err(detail) => Err(
                GemErrorView::ParsingFailure { schema: Schema::ProviderError, detail },
            ),
            Ok(tree) => match api_error_of(tree) {
                None => Err(
                    GemErrorView::ParsingFailure {
                        schema: Schema::ProviderError,
                        detail: SCHEMA_MISMATCH@,
                    },
                ),
                Some(error) => Err(GemErrorView::ProviderError(error)),
            },
        }
    }
}

/// What an exchange means for the caller.
pub open spec fn conclusion(exchange: ExchangeView) -> Result<ResponseView, GemErrorView> {
    match exchange {
        ExchangeView::Unsent(detail) => Err(GemErrorView::ConnectionFailure(detail)),
        ExchangeView::Unread { status, detail } => Err(
            GemErrorView::ResponseBodyUnreadable { status, detail },
        ),
        ExchangeView::Answered { status, body } => reading(status, parsed_json(body)),
    }
}

/// What a parse outcome holds.
pub open spec fn parsed_view(parsed: Result<serde_json::Value, String>) -> Result<
    JsonTree,
    Seq<char>,
> {
    match parsed {
        Ok(value) => Ok(json_tree(value)),
        Err(detail) => Err(detail@),
    }
}

/// Validates a decoded response: hands it on where it is usable, else gives
/// the error that says why it is not.
pub fn usable(response: GenerateContentResponse) -> (outcome: Result<
    GenerateContentResponse,
    GemError,
>)
    ensures
        outcome_view(outcome) == validated(response@),
        response@.candidates.len() == 0 ==> outcome_view(outcome) == Err::<
            ResponseView,
            GemErrorView,
        >(GemErrorView::EmptyResponse),
        response@.candidates.len() > 0 && response@.has_content() ==> outcome_view(outcome) == Ok::<
            ResponseView,
            GemErrorView,
        >(response@),
        response@.candidates.len() > 0 && !response@.has_content() ==> outcome_view(outcome)
            == Err::<ResponseView, GemErrorView>(
            match response@.block_reason() {
                Some(reason) => GemErrorView::PromptFeedbackBlocked(reason),
                None => GemErrorView::AllCandidatesBlocked,
            },
        ),
{
    match response.validate() {
        Ok(_) => Ok(response),
        Err(kind) => Err(GemError::from_block(kind)),
    }
}

/// Reads a body, given its status and what the JSON parser made of it.
pub fn read_body(status: u16, parsed: Result<serde_json::Value, String>) -> (outcome: Result<
    GenerateContentResponse,
    GemError,
>)
    ensures
        outcome_view(outcome) == reading(status, parsed_view(parsed)),
{
    let schema = if status == STATUS_OK {
        Schema::Success
    } else {
        Schema::ProviderError
    };
    let value = match parsed {
        Ok(value) => value,
        Err(detail) => {
            return Err(GemError::ParsingFailure { schema, detail });
        },
    };
    if status == STATUS_OK {
        match decode_response(&value) {
            Some(response) => usable(response),
            None => Err(GemError::ParsingFailure { schema, detail: SCHEMA_MISMATCH.to_owned() }),
        }
    } else {
        match decode_api_error(&value) {
            Some(error) => Err(GemError::ProviderError(error)),
            None => Err(GemError::ParsingFailure { schema, detail: SCHEMA_MISMATCH.to_owned() }),
        }
    }
}

/// How long a `Duration` is, in nanoseconds.
pub uninterp spec fn duration_nanos(duration: Duration) -> nat;

/// `Duration::from_secs`: a duration of that many whole seconds.
pub assume_specification[ Duration::from_secs ](secs: u64) -> (duration: Duration)
    ensures
        duration_nanos(duration) == secs * NANOS_PER_SECOND,
;

/// The settings of a connection: the key, the model, and the total and the
/// connect timeout of each call. The transport builds its HTTP client from
/// these.
#[derive(Debug, PartialEq, Eq)]
pub struct Client {
    api_key: String,
    model: Models,
    timeout: Duration,
    connect_timeout: Duration,
}

/// What a client holds.
pub struct ClientView {
    pub api_key: Seq<char>,
    pub model: Models,
    pub timeout: Duration,
    pub connect_timeout: Duration,
}

impl View for Client {
    type V = ClientView;

    closed spec fn view(&self) -> ClientView {
        ClientView {
            api_key: self.api_key@,
            model: self.model,
            timeout: self.timeout,
            connect_timeout: self.connect_timeout,
        }
    }
}

impl ClientView {
    /// The call that a client makes to an endpoint for a history and the
    /// settings of the call.
    pub open spec fn call(self, endpoint: Endpoint, history: Seq<TurnView>, settings: SettingsView) -> CallView {
        CallView {
            endpoint,
            url: endpoint.url(self.model),
            api_key: self.api_key,
            body: compile(history, settings),
        }
    }
}

impl Client {
    /// A client for a model, with the total and the connect timeout of each
    /// call.
    pub fn new(
        api_key: String,
        model: Models,
        timeout: Duration,
        connect_timeout: Duration,
    ) -> (client: Client)
        ensures
            client@ == (ClientView { api_key: api_key@, model, timeout, connect_timeout }),
    {
        Client { api_key, model, timeout, connect_timeout }
    }

    pub fn api_key(&self) -> (key: &String)
        ensures
            key@ == self@.api_key,
    {
        &self.api_key
    }

    pub fn model(&self) -> (model: Models)
        ensures
            model == self@.model,
    {
        self.model
    }

    /// The total timeout of a call.
    pub fn timeout(&self) -> (timeout: Duration)
        ensures
            timeout == self@.timeout,
    {
        self.timeout
    }

    /// The timeout for connecting.
    pub fn connect_timeout(&self) -> (timeout: Duration)
        ensures
            timeout == self@.connect_timeout,
    {
        self.connect_timeout
    }

    /// The URL of an endpoint for this client's model.
    pub fn url(&self, endpoint: Endpoint) -> (url: String)
        ensures
            url@ == endpoint.url(self@.model),
    {
        match endpoint {
            Endpoint::Generate => {
                let mut url = GENERATE_CONTENT.to_owned();
                url.append(self.model.as_str());
                url.append(":generateContent");
                url
            },
            Endpoint::Stream => {
                let mut url = STREAM_GENERATE_CONTENT.to_owned();
                url.append(self.model.as_str());
                url.append(":streamGenerateContent");
                url
            },
        }
    }

    fn call(&self, endpoint: Endpoint, context: &Context, settings: &Settings) -> (call: Call)
        ensures
            call@ == self@.call(endpoint, context@, settings@),
    {
        Call {
            endpoint,
            url: self.url(endpoint),
            api_key: self.api_key.clone(),
            body: context.build(settings),
        }
    }

    /// The call that asks for one response to the history.
    pub fn send_context(&self, context: &Context, settings: &Settings) -> (call: Call)
        ensures
            call@ == self@.call(Endpoint::Generate, context@, settings@),
    {
        self.call(Endpoint::Generate, context, settings)
    }

    /// The call that asks for a streamed answer to the history.
    pub fn send_context_stream(&self, context: &Context, settings: &Settings) -> (call: Call)
        ensures
            call@ == self@.call(Endpoint::Stream, context@, settings@),
    {
        self.call(Endpoint::Stream, context, settings)
    }

    /// Decides what an exchange means: the usable response, or the error.
    pub fn conclude(exchange: Exchange) -> (outcome: Result<GenerateContentResponse, GemError>)
        ensures
            outcome_view(outcome) == conclusion(exchange@),
    {
        match exchange {
            Exchange::Unsent(detail) => Err(GemError::ConnectionFailure(detail)),
            Exchange::Unread { status, detail } => Err(
                GemError::ResponseBodyUnreadable { status, detail },
            ),
            Exchange::Answered { status, body } => read_body(status, parse_json(body.as_slice())),
        }
    }
}

/// The timeout that a session has where none is set, in seconds.
pub const DEFAULT_TIMEOUT: u64 = 30;

/// The nanoseconds of one second.
pub const NANOS_PER_SECOND: u64 = 1000000000;

/// What the first candidate of a usable response says.
pub enum Reply {
    /// The first candidate has no content.
    Nothing,
    /// The first candidate has content, and this is its text.
    Text(Seq<char>),
    /// The first candidate has content, and none of it is text.
    Textless,
}

/// What the first candidate of a response says.
pub open spec fn reply_of(response: ResponseView) -> Reply {
    if response.candidates.len() == 0 {
        Reply::Nothing
    } else {
        match response.candidates.first().content {
            None => Reply::Nothing,
            Some(parts) => match first_text(parts) {
                Some(text) => Reply::Text(text),
                None => Reply::Textless,
            },
        }
    }
}

/// The turn by which a session records the model's reply.
pub open spec fn reply_turn(text: Seq<char>) -> TurnView {
    TurnView { role: Role::Model, parts: seq![PartView::Text(text)] }
}

/// The history after a call and the result that the caller gets, given the
/// history before it and what the call came to.
///
/// A failed call leaves the history as it is. A usable response whose first
/// candidate has text appends that text as the model's turn. One whose first
/// candidate has content without text is reported as an empty response, and
/// nothing is appended.
pub open spec fn settle(history: Seq<TurnView>, outcome: Result<ResponseView, GemErrorView>) -> (
    Seq<TurnView>,
    Result<ResponseView, GemErrorView>,
) {
    match outcome {
        Err(error) => (history, Err(error)),
        Ok(response) => match reply_of(response) {
            Reply::Nothing => (history, Ok(response)),
            Reply::Text(text) => (history.push(reply_turn(text)), Ok(response)),
            Reply::Textless => (history, Err(GemErrorView::EmptyResponse)),
        },
    }
}

/// A conversation with one model: the client and the history.
#[derive(Debug, PartialEq, Eq)]
pub struct GemSession {
    client: Client,
    context: Context,
}

/// What a session holds.
pub struct SessionView {
    pub client: ClientView,
    pub history: Seq<TurnView>,
}

impl SessionView {
    /// Whether this is the session of a key with nothing else set: both
    /// timeouts are 30 seconds, the model is the default one, and the
    /// history is empty.
    pub open spec fn is_initial(self, api_key: Seq<char>) -> bool {
        &&& self.client.api_key == api_key
        &&& self.client.model == Models::Gemini15Pro
        &&& duration_nanos(self.client.timeout) == DEFAULT_TIMEOUT * NANOS_PER_SECOND
        &&& duration_nanos(self.client.connect_timeout) == DEFAULT_TIMEOUT * NANOS_PER_SECOND
        &&& self.history == Seq::<TurnView>::empty()
    }
}

impl View for GemSession {
    type V = SessionView;

    closed spec fn view(&self) -> SessionView {
        SessionView { client: self.client@, history: self.context@ }
    }
}

/// The settings from which a session is built.
#[derive(Debug, PartialEq, Eq)]
pub struct Config {
    timeout: Duration,
    connect_timeout: Duration,
    model: Models,
    context: Context,
}

/// What a configuration holds.
pub struct ConfigView {
    pub timeout: Duration,
    pub connect_timeout: Duration,
    pub model: Models,
    pub history: Seq<TurnView>,
}

impl View for Config {
    type V = ConfigView;

    closed spec fn view(&self) -> ConfigView {
        ConfigView {
            timeout: self.timeout,
            connect_timeout: self.connect_timeout,
            model: self.model,
            history: self.context@,
        }
    }
}

impl ConfigView {
    /// Whether nothing is set: both timeouts are 30 seconds, the model is
    /// the default one, and the history is empty.
    pub open spec fn is_initial(self) -> bool {
        &&& duration_nanos(self.timeout) == DEFAULT_TIMEOUT * NANOS_PER_SECOND
        &&& duration_nanos(self.connect_timeout) == DEFAULT_TIMEOUT * NANOS_PER_SECOND
        &&& self.model == Models::Gemini15Pro
        &&& self.history == Seq::<TurnView>::empty()
    }

    /// The session that a key and this configuration give.
    pub open spec fn session(self, api_key: Seq<char>) -> SessionView {
        SessionView {
            client: ClientView {
                api_key,
                model: self.model,
                timeout: self.timeout,
                connect_timeout: self.connect_timeout,
            },
            history: self.history,
        }
    }
}

/// Builds a session step by step.
#[derive(Debug, PartialEq, Eq)]
pub struct GemSessionBuilder(Config);

impl View for GemSessionBuilder {
    type V = ConfigView;

    closed spec fn view(&self) -> ConfigView {
        self.0@
    }
}

impl GemSessionBuilder {
    /// A builder with nothing set.
    pub fn new() -> (builder: GemSessionBuilder)
        ensures
            builder@.is_initial(),
    {
        GemSessionBuilder(
            Config {
                timeout: Duration::from_secs(DEFAULT_TIMEOUT),
                connect_timeout: Duration::from_secs(DEFAULT_TIMEOUT),
                model: Models::default(),
                context: Context::new(),
            },
        )
    }

    /// The session of a key with nothing else set.
    pub fn default(api_key: String) -> (session: GemSession)
        ensures
            session@.is_initial(api_key@),
    {
        GemSession {
            client: Client::new(
                api_key,
                Models::default(),
                Duration::from_secs(DEFAULT_TIMEOUT),
                Duration::from_secs(DEFAULT_TIMEOUT),
            ),
            context: Context::new(),
        }
    }

    /// Sets the total timeout of a call.
    pub fn timeout(self, timeout: Duration) -> (builder: GemSessionBuilder)
        ensures
            builder@ == (ConfigView { timeout, ..self@ }),
    {
        let mut builder = self;
        builder.0.timeout = timeout;
        builder
    }

    /// Sets the model.
    pub fn model(self, model: Models) -> (builder: GemSessionBuilder)
        ensures
            builder@ == (ConfigView { model, ..self@ }),
    {
        let mut builder = self;
        builder.0.model = model;
        builder
    }

    /// Sets the timeout for connecting.
    pub fn connect_timeout(self, connect_timeout: Duration) -> (builder: GemSessionBuilder)
        ensures
            builder@ == (ConfigView { connect_timeout, ..self@ }),
    {
        let mut builder = self;
        builder.0.connect_timeout = connect_timeout;
        builder
    }

    /// Sets the history that the session starts with.
    pub fn context(self, context: Context) -> (builder: GemSessionBuilder)
        ensures
            builder@ == (ConfigView { history: context@, ..self@ }),
    {
        let mut builder = self;
        builder.0.context = context;
        builder
    }

    /// The session of a key with what has been set.
    pub fn build(self, api_key: String) -> (session: GemSession)
        ensures
            session@ == self@.session(api_key@),
    {
        GemSession::build(api_key, self.0)
    }
}

impl GemSession {
    pub(crate) fn build(api_key: String, config: Config) -> (session: GemSession)
        ensures
            session@ == config@.session(api_key@),
    {
        GemSession {
            client: Client::new(api_key, config.model, config.timeout, config.connect_timeout),
            context: config.context,
        }
    }

    /// The session of a key with nothing else set.
    pub fn new(api_key: String) -> (session: GemSession)
        ensures
            session@.is_initial(api_key@),
    {
        GemSessionBuilder::default(api_key)
    }

    /// A builder with nothing set.
    #[allow(non_snake_case)]
    pub fn Builder() -> (builder: GemSessionBuilder)
        ensures
            builder@.is_initial(),
    {
        GemSessionBuilder::new()
    }

    pub fn client(&self) -> (client: &Client)
        ensures
            client@ == self@.client,
    {
        &self.client
    }

    pub fn context(&self) -> (context: &Context)
        ensures
            context@ == self@.history,
    {
        &self.context
    }

    /// Appends the user's text and gives the call that sends the history.
    pub fn send_message(&mut self, message: &str, settings: &Settings) -> (call: Call)
        ensures
            final(self)@.client == old(self)@.client,
            final(self)@.history == old(self)@.history.push(
                (Push::Text { role: None, text: message@ }).turn(),
            ),
            call@ == final(self)@.client.call(Endpoint::Generate, final(self)@.history, settings@),
    {
        self.context.push_text(None, message.to_owned());
        self.client.send_context(&self.context, settings)
    }

    /// Appends the user's file reference and gives the call that sends the
    /// history.
    pub fn send_file(&mut self, file_data: FileData, settings: &Settings) -> (call: Call)
        ensures
            final(self)@.client == old(self)@.client,
            final(self)@.history == old(self)@.history.push(
                (Push::File { role: None, file: file_data@ }).turn(),
            ),
            call@ == final(self)@.client.call(Endpoint::Generate, final(self)@.history, settings@),
    {
        self.context.push_file_reference(None, file_data);
        self.client.send_context(&self.context, settings)
    }

    /// Appends the user's blob and gives the call that sends the history.
    pub fn send_blob(&mut self, blob: Blob, settings: &Settings) -> (call: Call)
        ensures
            final(self)@.client == old(self)@.client,
            final(self)@.history == old(self)@.history.push(
                (Push::Blob { role: None, blob: blob@ }).turn(),
            ),
            call@ == final(self)@.client.call(Endpoint::Generate, final(self)@.history, settings@),
    {
        self.context.push_blob(None, blob);
        self.client.send_context(&self.context, settings)
    }

    /// Appends one turn with the user's text and file reference and gives
    /// the call that sends the history.
    pub fn send_message_with_file(
        &mut self,
        message: &str,
        file_data: FileData,
        settings: &Settings,
    ) -> (call: Call)
        ensures
            final(self)@.client == old(self)@.client,
            final(self)@.history == old(self)@.history.push(
                (Push::TextWithFile { role: None, text: message@, file: file_data@ }).turn(),
            ),
            call@ == final(self)@.client.call(Endpoint::Generate, final(self)@.history, settings@),
    {
        self.context.push_text_with_file(None, message, file_data);
        self.client.send_context(&self.context, settings)
    }

    /// Appends one turn with the user's text and blob and gives the call
    /// that sends the history.
    pub fn send_message_with_blob(&mut self, message: &str, blob: Blob, settings: &Settings) -> (call:
        Call)
        ensures
            final(self)@.client == old(self)@.client,
            final(self)@.history == old(self)@.history.push(
                (Push::TextWithBlob { role: None, text: message@, blob: blob@ }).turn(),
            ),
            call@ == final(self)@.client.call(Endpoint::Generate, final(self)@.history, settings@),
    {
        self.context.push_text_with_blob(None, message, blob);
        self.client.send_context(&self.context, settings)
    }

    /// Appends the user's text and gives the call that asks for a streamed
    /// answer to the history.
    pub fn send_message_stream(&mut self, message: &str, settings: &Settings) -> (call: Call)
        ensures
            final(self)@.client == old(self)@.client,
            final(self)@.history == old(self)@.history.push(
                (Push::Text { role: None, text: message@ }).turn(),
            ),
            call@ == final(self)@.client.call(Endpoint::Stream, final(self)@.history, settings@),
    {
        self.context.push_text(None, message.to_owned());
        self.client.send_context_stream(&self.context, settings)
    }

    /// Appends the user's file reference and gives the call that asks for a
    /// streamed answer to the history.
    pub fn send_file_stream(&mut self, file_data: FileData, settings: &Settings) -> (call: Call)
        ensures
            final(self)@.client == old(self)@.client,
            final(self)@.history == old(self)@.history.push(
                (Push::File { role: None, file: file_data@ }).turn(),
            ),
            call@ == final(self)@.client.call(Endpoint::Stream, final(self)@.history, settings@),
    {
        self.context.push_file_reference(None, file_data);
        self.client.send_context_stream(&self.context, settings)
    }

    /// Appends the user's blob and gives the call that asks for a streamed
    /// answer to the history.
    pub fn send_blob_stream(&mut self, blob: Blob, settings: &Settings) -> (call: Call)
        ensures
            final(self)@.client == old(self)@.client,
            final(self)@.history == old(self)@.history.push(
                (Push::Blob { role: None, blob: blob@ }).turn(),
            ),
            call@ == final(self)@.client.call(Endpoint::Stream, final(self)@.history, settings@),
    {
        self.context.push_blob(None, blob);
        self.client.send_context_stream(&self.context, settings)
    }

    /// Appends one turn with the user's text and file reference and gives
    /// the call that asks for a streamed answer to the history.
    pub fn send_message_with_file_stream(
        &mut self,
        message: &str,
        file_data: FileData,
        settings: &Settings,
    ) -> (call: Call)
        ensures
            final(self)@.client == old(self)@.client,
            final(self)@.history == old(self)@.history.push(
                (Push::TextWithFile { role: None, text: message@, file: file_data@ }).turn(),
            ),
            call@ == final(self)@.client.call(Endpoint::Stream, final(self)@.history, settings@),
    {
        self.context.push_text_with_file(None, message, file_data);
        self.client.send_context_stream(&self.context, settings)
    }

    /// Appends one turn with the user's text and blob and gives the call
    /// that asks for a streamed answer to the history.
    pub fn send_message_with_blob_stream(
        &mut self,
        message: &str,
        blob: Blob,
        settings: &Settings,
    ) -> (call: Call)
        ensures
            final(self)@.client == old(self)@.client,
            final(self)@.history == old(self)@.history.push(
                (Push::TextWithBlob { role: None, text: message@, blob: blob@ }).turn(),
            ),
            call@ == final(self)@.client.call(Endpoint::Stream, final(self)@.history, settings@),
    {
        self.context.push_text_with_blob(None, message, blob);
        self.client.send_context_stream(&self.context, settings)
    }

    /// Takes what a call came to and records the model's reply: the history
    /// grows by the reply's text where the call gave a usable response whose
    /// first candidate has text, and stays as it is otherwise.
    pub fn record(&mut self, outcome: Result<GenerateContentResponse, GemError>) -> (recorded: Result<
        GenerateContentResponse,
        GemError,
    >)
        ensures
            final(self)@.client == old(self)@.client,
            (final(self)@.history, outcome_view(recorded)) == settle(
                old(self)@.history,
                outcome_view(outcome),
            ),
            recorded is Err ==> final(self)@.history == old(self)@.history,
    {
        let response = match outcome {
            Ok(response) => response,
            Err(error) => {
                return Err(error);
            },
        };
        if response.candidates.len() > 0 {
            match &response.candidates[0].content {
                Some(content) => match content.get_text() {
                    Some(text) => {
                        self.context.push_text(Some(Role::Model), text.clone());
                    },
                    None => {
                        return Err(GemError::EmptyResponse);
                    },
                },
                None => {},
            }
        }
        Ok(response)
    }

    /// Takes the transport's report of the call that a `send_*` operation
    /// asked for: decides what it means, records the model's reply, and
    /// returns the usable response or the error.
    pub fn receive(&mut self, exchange: Exchange) -> (outcome: Result<
        GenerateContentResponse,
        GemError,
    >)
        ensures
            final(self)@.client == old(self)@.client,
            (final(self)@.history, outcome_view(outcome)) == settle(
                old(self)@.history,
                conclusion(exchange@),
            ),
            outcome is Err ==> final(self)@.history == old(self)@.history,
    {
        self.record(Client::conclude(exchange))
    }
}

} // verus!
