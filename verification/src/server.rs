//! The server builder: the configuration under construction and what is
//! derived from it at start-up.

use crate::server_config::{default_config, ServerConfig, ServerConfigView};
use crate::tool::{CallResult, CustomTool, ToolError};
use crate::tool_box::{
    first_of_each_name, is_routed, names, request_entries, same_arguments_route_alike, CallRequest,
    RouteError, ToolBox, ToolDescriptor, ToolRegistry, ToolSet,
};
use std::marker::PhantomData;
use std::time::Duration;
use vstd::prelude::*;

verus! {

/// Collects the configuration of a server before it is started.
#[derive(Debug)]
pub struct ServerBuilder {
    config: ServerConfig,
}

impl View for ServerBuilder {
    type V = ServerConfigView;

    closed spec fn view(&self) -> ServerConfigView {
        self.config@
    }
}

impl Clone for ServerBuilder {
    fn clone(&self) -> (builder: Self)
        ensures
            builder@ == self@,
    {
        ServerBuilder { config: self.config.clone() }
    }
}

impl Default for ServerBuilder {
    fn default() -> (builder: Self)
        ensures
            builder@ == default_config(),
    {
        ServerBuilder { config: ServerConfig::default() }
    }
}

impl ServerBuilder {
    /// A builder that holds the default configuration.
    pub fn new() -> (builder: Self)
        ensures
            builder@ == default_config(),
    {
        ServerBuilder { config: ServerConfig::default() }
    }

    /// The builder with the name replaced.
    pub fn with_name(self, name: &str) -> (builder: Self)
        ensures
            builder@ == (ServerConfigView { name: name@, ..self@ }),
    {
        let mut builder = self;
        builder.config.name = name.to_owned();
        builder
    }

    /// The builder with the instructions replaced.
    pub fn with_instructions(self, instructions: &str) -> (builder: Self)
        ensures
            builder@ == (ServerConfigView { instructions: instructions@, ..self@ }),
    {
        let mut builder = self;
        builder.config.instructions = instructions.to_owned();
        builder
    }

    /// The builder with the version replaced.
    pub fn with_version(self, version: &str) -> (builder: Self)
        ensures
            builder@ == (ServerConfigView { version: version@, ..self@ }),
    {
        let mut builder = self;
        builder.config.version = version.to_owned();
        builder
    }

    /// The builder with the title replaced.
    pub fn with_title(self, title: &str) -> (builder: Self)
        ensures
            builder@ == (ServerConfigView { title: title@, ..self@ }),
    {
        let mut builder = self;
        builder.config.title = title.to_owned();
        builder
    }

    /// The builder with the timeout of requests replaced.
    pub fn with_timeout(self, timeout: Duration) -> (builder: Self)
        ensures
            builder@ == (ServerConfigView { timeout: timeout, ..self@ }),
    {
        let mut builder = self;
        builder.config.timeout = timeout;
        builder
    }

    /// Replaces the name.
    pub fn set_name(&mut self, name: &str)
        ensures
            final(self)@ == (ServerConfigView { name: name@, ..old(self)@ }),
    {
        self.config.name = name.to_owned();
    }

    /// Replaces the instructions.
    pub fn set_instructions(&mut self, instructions: &str)
        ensures
            final(self)@ == (ServerConfigView { instructions: instructions@, ..old(self)@ }),
    {
        self.config.instructions = instructions.to_owned();
    }

    /// Replaces the version.
    pub fn set_version(&mut self, version: &str)
        ensures
            final(self)@ == (ServerConfigView { version: version@, ..old(self)@ }),
    {
        self.config.version = version.to_owned();
    }

    /// Replaces the title.
    pub fn set_title(&mut self, title: &str)
        ensures
            final(self)@ == (ServerConfigView { title: title@, ..old(self)@ }),
    {
        self.config.title = title.to_owned();
    }

    /// Replaces the timeout of requests.
    pub fn set_timeout(&mut self, timeout: Duration)
        ensures
            final(self)@ == (ServerConfigView { timeout: timeout, ..old(self)@ }),
    {
        self.config.timeout = timeout;
    }

    /// The name that the server announces.
    pub fn name(&self) -> (name: &str)
        ensures
            name@ == self@.name,
    {
        self.config.name.as_str()
    }

    /// The title that the server announces; empty where it has none.
    pub fn title(&self) -> (title: &str)
        ensures
            title@ == self@.title,
    {
        self.config.title.as_str()
    }

    /// The version that the server announces.
    pub fn version(&self) -> (version: &str)
        ensures
            version@ == self@.version,
    {
        self.config.version.as_str()
    }

    /// The instructions that the server hands to its clients.
    pub fn instructions(&self) -> (instructions: &str)
        ensures
            instructions@ == self@.instructions,
    {
        self.config.instructions.as_str()
    }

    /// How long a request may take.
    pub fn timeout(&self) -> (timeout: Duration)
        ensures
            timeout == self@.timeout,
    {
        self.config.timeout
    }

    /// What the server announces at the handshake, given whether any tool is
    /// declared.
    pub fn server_details(self, has_tools: bool) -> (details: ServerDetails)
        ensures
            details@ == server_details_of(self@, has_tools),
    {
        let title = if self.config.title.as_str().is_empty() {
            None
        } else {
            Some(self.config.title)
        };
        ServerDetails {
            name: self.config.name,
            version: self.config.version,
            title,
            instructions: Some(self.config.instructions),
            tools_capability: has_tools,
            protocol_version: latest_protocol_version(),
        }
    }

    /// What the server announces at the handshake for the tool box `T`: the
    /// tools capability is present if and only if `T` declares a tool.
    pub fn get_server_details<T: ToolSet>(self) -> (details: ServerDetails)
        ensures
            exists|declared: Vec<ToolDescriptor>|
                {
                    &&& #[trigger] call_ensures(T::get_tools, (), declared)
                    &&& details@ == server_details_of(self@, declared@.len() > 0)
                },
    {
        let declared = T::get_tools();
        self.server_details(declared.len() > 0)
    }
}

/// The protocol revision that servers announce.
pub const PROTOCOL_VERSION: &'static str = "2025-06-18";

/// `rust_mcp_sdk::schema::LATEST_PROTOCOL_VERSION`, the newest protocol
/// revision that the SDK speaks: the constant [`PROTOCOL_VERSION`].
#[verifier::external_body]
fn latest_protocol_version() -> (version: String)
    ensures
        version@ == PROTOCOL_VERSION@,
{
    rust_mcp_sdk::schema::LATEST_PROTOCOL_VERSION.to_string()
}

/// What a server announces about itself at the handshake.
#[derive(Debug)]
pub struct ServerDetails {
    pub name: String,
    pub version: String,
    /// Absent where the configured title is empty.
    pub title: Option<String>,
    pub instructions: Option<String>,
    /// Whether the server offers tools.
    pub tools_capability: bool,
    pub protocol_version: String,
}

/// The mathematical content of [`ServerDetails`].
pub struct ServerDetailsView {
    pub name: Seq<char>,
    pub version: Seq<char>,
    pub title: Option<Seq<char>>,
    pub instructions: Option<Seq<char>>,
    pub tools_capability: bool,
    pub protocol_version: Seq<char>,
}

impl View for ServerDetails {
    type V = ServerDetailsView;

    open spec fn view(&self) -> ServerDetailsView {
        ServerDetailsView {
            name: self.name@,
            version: self.version@,
            title: match self.title {
                Some(title) => Some(title@),
                None => None,
            },
            instructions: match self.instructions {
                Some(instructions) => Some(instructions@),
                None => None,
            },
            tools_capability: self.tools_capability,
            protocol_version: self.protocol_version@,
        }
    }
}

/// The handshake payload of a server with the given configuration: its name
/// and version, its title unless that is empty, its instructions, the tools
/// capability as given, and the protocol revision [`PROTOCOL_VERSION`].
pub open spec fn server_details_of(config: ServerConfigView, has_tools: bool) -> ServerDetailsView {
    ServerDetailsView {
        name: config.name,
        version: config.version,
        title: if config.title.len() == 0 {
            None
        } else {
            Some(config.title)
        },
        instructions: Some(config.instructions),
        tools_capability: has_tools,
        protocol_version: PROTOCOL_VERSION@,
    }
}

/// Why a call was not answered with a result.
#[derive(Debug)]
pub enum CallError<E> {
    /// The session does not permit the operation; the refusal is that of the
    /// capability check.
    Capability { refusal: E },
    /// The request names a tool that is not declared.
    UnknownTool { name: String },
    /// The arguments do not fit the tool.
    InvalidParameters { error: ToolError },
    /// The tool reported a failure, or its output could not be serialised.
    Tool { error: ToolError },
}

/// The call error that stands for a routing error.
pub open spec fn route_failure<E>(error: RouteError) -> CallError<E> {
    match error {
        RouteError::UnknownTool { name } => CallError::UnknownTool { name },
        RouteError::InvalidParameters { error } => CallError::InvalidParameters { error },
    }
}

/// What the handler answers when the tool answered `answer`.
pub open spec fn answered<E>(answer: Result<CallResult, ToolError>) -> Result<
    CallResult,
    CallError<E>,
> {
    match answer {
        Ok(result) => Ok(result),
        Err(error) => Err(CallError::Tool { error }),
    }
}

/// `result` is an answer to a call that was routed to `routed`: the routing
/// error, or the normalised answer of the tool that the tool box handed out.
pub open spec fn is_dispatched<T: ToolBox, E>(
    routed: Result<T, RouteError>,
    result: Result<CallResult, CallError<E>>,
) -> bool {
    match routed {
        Err(error) => result == Err::<CallResult, CallError<E>>(route_failure(error)),
        Ok(tool) => exists|custom: CustomTool, answer: Result<CallResult, ToolError>|
            {
                &&& call_ensures(T::get_tool, (&tool,), custom)
                &&& #[trigger] custom.answers(answer)
                &&& result == answered::<E>(answer)
            },
    }
}

/// What the handler answers for a request that routing answered with
/// `routed`, before any tool is called.
pub open spec fn admitted<T, E>(routed: Result<T, RouteError>) -> Result<T, CallError<E>> {
    match routed {
        Ok(tool) => Ok(tool),
        Err(error) => Err(route_failure(error)),
    }
}

/// `result` is an answer to admitting the call `request` over `catalog`,
/// given the outcome of the capability check: the refusal where the check
/// failed, and nothing else is done then; otherwise what routing gives.
pub open spec fn is_admitted<T: ToolSet, E>(
    catalog: Seq<ToolDescriptor>,
    capability: Result<(), E>,
    request: CallRequest,
    result: Result<T, CallError<E>>,
) -> bool {
    match capability {
        Err(refusal) => result == Err::<T, CallError<E>>(CallError::Capability { refusal }),
        Ok(_) => exists|routed: Result<T, RouteError>|
            {
                &&& #[trigger] is_routed(catalog, request, routed)
                &&& result == admitted::<T, E>(routed)
            },
    }
}

/// `result` is an answer to the call `request` over `catalog`, given the
/// outcome of the capability check: the refusal where the check failed, and
/// nothing else is done then; otherwise what routing and the tool give.
pub open spec fn is_call_answer<T: ToolBox, E>(
    catalog: Seq<ToolDescriptor>,
    capability: Result<(), E>,
    request: CallRequest,
    result: Result<CallResult, CallError<E>>,
) -> bool {
    match capability {
        Err(refusal) => result == Err::<CallResult, CallError<E>>(
            CallError::Capability { refusal },
        ),
        Ok(_) => exists|routed: Result<T, RouteError>|
            {
                &&& #[trigger] is_routed(catalog, request, routed)
                &&& is_dispatched(routed, result)
            },
    }
}

/// Turns the answer of a tool into the answer of the handler.
pub fn tool_answer<E>(answer: Result<CallResult, ToolError>) -> (result: Result<
    CallResult,
    CallError<E>,
>)
    ensures
        result == answered::<E>(answer),
{
    match answer {
        Ok(result) => Ok(result),
        Err(error) => Err(CallError::Tool { error }),
    }
}

/// Answers the requests to list the tools and to call one, for the tool box
/// `T`.
pub struct Handler<T> {
    registry: ToolRegistry,
    _phantom: PhantomData<T>,
}

impl<T: ToolSet> Handler<T> {
    /// The catalog that the handler answers from.
    pub closed spec fn catalog(&self) -> Seq<ToolDescriptor> {
        self.registry@
    }

    /// A handler over the tools that `T` declares.
    pub fn new() -> (handler: Self)
        ensures
            exists|declared: Vec<ToolDescriptor>|
                {
                    &&& #[trigger] call_ensures(T::get_tools, (), declared)
                    &&& handler.catalog() == first_of_each_name(declared@)
                },
    {
        let declared = T::get_tools();
        Handler { registry: ToolRegistry::new(declared), _phantom: PhantomData }
    }

    /// Answers a request to list the tools: the refusal of the capability
    /// check where it failed, else the catalog as it is.
    pub fn handle_list_tools_request<E>(&self, capability: Result<(), E>) -> (result: Result<
        Vec<ToolDescriptor>,
        E,
    >)
        ensures
            match capability {
                Err(refusal) => result == Err::<Vec<ToolDescriptor>, E>(refusal),
                Ok(_) => result matches Ok(tools) && tools@ == self.catalog(),
            },
            names(self.catalog()).no_duplicates(),
    {
        let catalog = self.registry.catalog();
        match capability {
            Err(refusal) => Err(refusal),
            Ok(_) => {
                let tools = catalog.clone();
                proof {
                    assert(tools@ =~= catalog@);
                }
                Ok(tools)
            },
        }
    }

    /// Admits a request to call a tool: checks the capability first, then
    /// routes the request to the tool it names. The tool is not called.
    pub fn admit_call_tool_request<E>(&self, capability: Result<(), E>, request: CallRequest) -> (result:
        Result<T, CallError<E>>)
        ensures
            is_admitted::<T, E>(self.catalog(), capability, request, result),
            capability is Ok && !names(self.catalog()).contains(request.name@) ==> result == Err::<
                T,
                CallError<E>,
            >(CallError::UnknownTool { name: request.name }),
    {
        match capability {
            Err(refusal) => Err(CallError::Capability { refusal }),
            Ok(_) => {
                let routed: Result<T, RouteError> = self.registry.route(request);
                match routed {
                    Ok(tool) => Ok(tool),
                    Err(RouteError::UnknownTool { name }) => Err(CallError::UnknownTool { name }),
                    Err(RouteError::InvalidParameters { error }) => Err(
                        CallError::InvalidParameters { error },
                    ),
                }
            },
        }
    }
}

impl<T: ToolBox> Handler<T> {
    /// Answers a request to call a tool: checks the capability first, then
    /// routes the request and calls the tool it names.
    pub fn handle_call_tool_request<E>(
        &self,
        capability: Result<(), E>,
        request: CallRequest,
    ) -> (result: Result<CallResult, CallError<E>>)
        ensures
            is_call_answer::<T, E>(self.catalog(), capability, request, result),
            capability is Ok && !names(self.catalog()).contains(request.name@) ==> result == Err::<
                CallResult,
                CallError<E>,
            >(CallError::UnknownTool { name: request.name }),
    {
        match self.admit_call_tool_request(capability, request) {
            Err(error) => {
                proof {
                    if capability is Ok {
                        let routed = choose|routed: Result<T, RouteError>|
                            #[trigger] is_routed(self.catalog(), request, routed) && Err::<
                                T,
                                CallError<E>,
                            >(error) == admitted::<T, E>(routed);
                        assert(is_dispatched::<T, E>(routed, Err(error)));
                    }
                }
                Err(error)
            },
            Ok(tool) => {
                let custom = tool.get_tool();
                let answer = custom.call();
                let result = tool_answer(answer);
                proof {
                    assert(call_ensures(T::get_tool, (&tool,), custom));
                    assert(custom.answers(answer));
                    assert(is_dispatched::<T, E>(Ok(tool), result));
                    assert(is_routed(self.catalog(), request, Ok::<T, RouteError>(tool)));
                }
                result
            },
        }
    }
}

/// A call that leaves its arguments out is answered as one that carries an
/// empty object; more generally, two calls of the same tool whose arguments
/// hold the same entries are answered alike.
pub proof fn same_arguments_are_answered_alike<T: ToolBox, E>(
    catalog: Seq<ToolDescriptor>,
    capability: Result<(), E>,
    one: CallRequest,
    other: CallRequest,
    result: Result<CallResult, CallError<E>>,
)
    requires
        one.name == other.name,
        request_entries(one) == request_entries(other),
    ensures
        is_call_answer::<T, E>(catalog, capability, one, result) <==> is_call_answer::<T, E>(
            catalog,
            capability,
            other,
            result,
        ),
{
    assert forall|routed: Result<T, RouteError>|
        is_routed(catalog, one, routed) <==> is_routed(catalog, other, routed) by {
        same_arguments_route_alike(catalog, one, other, routed);
    }
}

/// A call of a name that the catalog does not hold is answered with the
/// unknown-tool error, whatever its arguments, once the capability check has
/// passed.
pub proof fn undeclared_name_is_unknown_tool<T: ToolBox, E>(
    catalog: Seq<ToolDescriptor>,
    request: CallRequest,
    result: Result<CallResult, CallError<E>>,
)
    requires
        !names(catalog).contains(request.name@),
    ensures
        is_call_answer::<T, E>(catalog, Ok(()), request, result) <==> result == Err::<
            CallResult,
            CallError<E>,
        >(CallError::UnknownTool { name: request.name }),
{
    let unknown = Err::<T, RouteError>(RouteError::UnknownTool { name: request.name });
    assert(is_routed(catalog, request, unknown));
    assert(is_dispatched::<T, E>(
        unknown,
        Err::<CallResult, CallError<E>>(CallError::UnknownTool { name: request.name }),
    ));
}

} // verus!
