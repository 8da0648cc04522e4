//! The invocation dispatcher: the only path from the UI surface into host
//! functionality.

use vstd::prelude::*;
use vstd::string::*;
use crate::commands::{
    handler_failure,
    link_outcome,
    needs_platform,
    open_external_outcome,
    result_view,
    run_handler,
    settle,
};
use crate::error::{ErrorInfo, ErrorKind, ErrorView};
use crate::registry::{unknown, CommandRegistry, Handler};
use crate::value::{Value, ValueView};

verus! {

/// A request from the UI surface. `id` is the correlation id by which the
/// caller matches the response to it.
#[derive(Debug, PartialEq, Eq)]
pub struct InvocationRequest {
    pub id: u64,
    pub command: String,
    pub arguments: Value,
}

pub ghost struct RequestView {
    pub id: u64,
    pub command: Seq<char>,
    pub arguments: ValueView,
}

impl View for InvocationRequest {
    type V = RequestView;

    open spec fn view(&self) -> RequestView {
        RequestView { id: self.id, command: self.command@, arguments: self.arguments@ }
    }
}

impl InvocationRequest {
    pub fn new(id: u64, command: &str, arguments: Value) -> (r: InvocationRequest)
        ensures
            r@ == (RequestView { id, command: command@, arguments: arguments@ }),
    {
        InvocationRequest { id, command: String::from_str(command), arguments }
    }
}

/// Whether a response carries a payload or an error.
#[derive(Clone, Copy, Debug, PartialEq, Eq, Structural)]
pub enum Status {
    /// Written `"ok"` on the channel.
    Success,
    /// Written `"error"` on the channel.
    Failure,
}

/// The one response to a request: the request's id, and a payload or an error.
#[derive(Debug, PartialEq, Eq)]
pub struct InvocationResponse {
    pub id: u64,
    pub outcome: Result<Value, ErrorInfo>,
}

pub ghost struct ResponseView {
    pub id: u64,
    pub outcome: Result<ValueView, ErrorView>,
}

impl View for InvocationResponse {
    type V = ResponseView;

    open spec fn view(&self) -> ResponseView {
        ResponseView { id: self.id, outcome: result_view(self.outcome) }
    }
}

impl InvocationResponse {
    pub fn status(&self) -> (s: Status)
        ensures
            s == (if self@.outcome is Ok {
                Status::Success
            } else {
                Status::Failure
            }),
    {
        match &self.outcome {
            Ok(_) => Status::Success,
            Err(_) => Status::Failure,
        }
    }

    /// The status as it is written on the invocation channel.
    pub fn status_name(&self) -> (s: &'static str)
        ensures
            s@ == (if self@.outcome is Ok {
                "ok"@
            } else {
                "error"@
            }),
    {
        match &self.outcome {
            Ok(_) => "ok",
            Err(_) => "error",
        }
    }

    pub fn payload(&self) -> (p: Option<&Value>)
        ensures
            match self@.outcome {
                Ok(v) => p.is_some() && p.unwrap()@ == v,
                Err(_) => p.is_none(),
            },
    {
        match &self.outcome {
            Ok(v) => Some(v),
            Err(_) => None,
        }
    }

    pub fn error(&self) -> (e: Option<&ErrorInfo>)
        ensures
            match self@.outcome {
                Ok(_) => e.is_none(),
                Err(info) => e.is_some() && e.unwrap()@ == info,
            },
    {
        match &self.outcome {
            Ok(_) => None,
            Err(info) => Some(info),
        }
    }
}

/// What follows from a request: the response, or work for the platform whose
/// answer settles the request later.
#[derive(Debug, PartialEq, Eq)]
pub enum Step {
    /// The request is settled.
    Reply(InvocationResponse),
    /// The host must hand `url` to the platform's opener, off the event loop,
    /// and report back under `id`.
    OpenLink { id: u64, url: String },
}

pub ghost enum StepView {
    Reply(ResponseView),
    OpenLink { id: u64, url: Seq<char> },
}

impl View for Step {
    type V = StepView;

    open spec fn view(&self) -> StepView {
        match self {
            Step::Reply(response) => StepView::Reply(response@),
            Step::OpenLink { id, url } => StepView::OpenLink { id: *id, url: url@ },
        }
    }
}

/// The record of one dispatch: the handler that was run for it, if any, and
/// what follows.
#[derive(Debug, PartialEq, Eq)]
pub struct Dispatched {
    pub handler: Option<Handler>,
    pub step: Step,
}

/// The handler that a request reaches: none when its command is not bound.
pub open spec fn handler_for(commands: Map<Seq<char>, Handler>, request: RequestView) -> Option<
    Handler,
> {
    if commands.contains_key(request.command) {
        Some(commands[request.command])
    } else {
        None
    }
}

/// What a request leads to, given the bound commands and the version.
pub open spec fn outcome_of(
    commands: Map<Seq<char>, Handler>,
    version: Seq<char>,
    request: RequestView,
) -> StepView {
    match handler_for(commands, request) {
        None => StepView::Reply(
            ResponseView { id: request.id, outcome: Err(unknown(request.command)) },
        ),
        Some(handler) => match request.arguments {
            ValueView::Text(url) if handler == Handler::OpenExternal => StepView::OpenLink {
                id: request.id,
                url,
            },
            _ => StepView::Reply(
                ResponseView {
                    id: request.id,
                    outcome: settle(handler, request.arguments, version),
                },
            ),
        },
    }
}

/// The response that settles a link request once the platform has answered.
pub open spec fn link_reply(id: u64, launched: bool) -> ResponseView {
    ResponseView { id, outcome: link_outcome(launched) }
}

/// The response to a request that shutdown cut off.
pub open spec fn shutdown_reply(id: u64) -> ResponseView {
    ResponseView {
        id,
        outcome: Err(
            ErrorView { kind: ErrorKind::ShutdownInProgress, message: "shutdown in progress"@ },
        ),
    }
}

/// A request that names no bound command is answered with an
/// `UnknownCommand` error under its own id, and no handler runs for it.
pub proof fn lemma_unknown_command_fails_closed(
    commands: Map<Seq<char>, Handler>,
    version: Seq<char>,
    request: RequestView,
)
    requires
        !commands.contains_key(request.command),
    ensures
        handler_for(commands, request) is None,
        outcome_of(commands, version, request) == StepView::Reply(
            ResponseView { id: request.id, outcome: Err(unknown(request.command)) },
        ),
{
}

/// A request to a command bound to the echo handler is answered with its own
/// arguments as the payload, whatever they are.
pub proof fn lemma_echo_round_trip(
    commands: Map<Seq<char>, Handler>,
    version: Seq<char>,
    request: RequestView,
)
    requires
        handler_for(commands, request) == Some(Handler::Echo),
    ensures
        outcome_of(commands, version, request) == StepView::Reply(
            ResponseView { id: request.id, outcome: Ok(request.arguments) },
        ),
{
}

/// Every version query is answered with the same payload: the answer depends
/// neither on the arguments nor on how many queries came before.
pub proof fn lemma_version_query_is_stable(
    commands: Map<Seq<char>, Handler>,
    version: Seq<char>,
    first: RequestView,
    second: RequestView,
)
    requires
        handler_for(commands, first) == Some(Handler::AppVersion),
        handler_for(commands, second) == Some(Handler::AppVersion),
    ensures
        outcome_of(commands, version, first) == StepView::Reply(
            ResponseView { id: first.id, outcome: Ok(ValueView::Text(version)) },
        ),
        outcome_of(commands, version, second) == StepView::Reply(
            ResponseView { id: second.id, outcome: Ok(ValueView::Text(version)) },
        ),
{
}

/// Every request is answered under its own id, or waits for the platform
/// under that id: no request is dropped and none is answered for another.
pub proof fn lemma_one_outcome_per_request(
    commands: Map<Seq<char>, Handler>,
    version: Seq<char>,
    request: RequestView,
)
    ensures
        match outcome_of(commands, version, request) {
            StepView::Reply(response) => response.id == request.id,
            StepView::OpenLink { id, url } => id == request.id && handler_for(commands, request)
                == Some(Handler::OpenExternal) && request.arguments == ValueView::Text(url),
        },
        outcome_of(commands, version, request) is OpenLink <==> (handler_for(commands, request)
            matches Some(handler) && needs_platform(handler, request.arguments)),
{
}

/// The dispatcher. It owns the registry, which nothing changes once the
/// dispatcher exists.
pub struct Dispatcher {
    registry: CommandRegistry,
    version: String,
}

impl Dispatcher {
    pub closed spec fn wf(&self) -> bool {
        self.registry.wf()
    }

    /// The bound commands.
    pub closed spec fn commands(&self) -> Map<Seq<char>, Handler> {
        self.registry@
    }

    /// The version that the version query answers with.
    pub closed spec fn version(&self) -> Seq<char> {
        self.version@
    }

    pub fn new(registry: CommandRegistry, version: &str) -> (d: Dispatcher)
        requires
            registry.wf(),
        ensures
            d.wf(),
            d.commands() == registry@,
            d.version() == version@,
    {
        Dispatcher { registry, version: String::from_str(version) }
    }

    /// Resolves the request's command and runs its handler once. An unknown
    /// command is answered with an error and no handler runs.
    pub fn dispatch(&self, request: &InvocationRequest) -> (d: Dispatched)
        requires
            self.wf(),
        ensures
            d.handler == handler_for(self.commands(), request@),
            d.step@ == outcome_of(self.commands(), self.version(), request@),
    {
        match self.registry.resolve(request.command.as_str()) {
            Err(e) => Dispatched {
                handler: None,
                step: Step::Reply(InvocationResponse { id: request.id, outcome: Err(e) }),
            },
            Ok(handler) => {
                let step = match (
                    run_handler(handler, &request.arguments, self.version.as_str()),
                    request.arguments.as_text(),
                ) {
                    (Some(outcome), _) => Step::Reply(
                        InvocationResponse { id: request.id, outcome },
                    ),
                    (None, Some(url)) => Step::OpenLink { id: request.id, url: url.clone() },
                    (None, None) => Step::Reply(
                        InvocationResponse {
                            id: request.id,
                            outcome: Err(handler_failure("open_external expects a URL")),
                        },
                    ),
                };
                Dispatched { handler: Some(handler), step }
            },
        }
    }

    /// Settles a link request with the platform's answer.
    pub fn complete_link(id: u64, launched: bool) -> (r: InvocationResponse)
        ensures
            r@ == link_reply(id, launched),
    {
        InvocationResponse { id, outcome: open_external_outcome(launched) }
    }

    /// Answers a request that shutdown cut off.
    pub fn refuse(id: u64) -> (r: InvocationResponse)
        ensures
            r@ == shutdown_reply(id),
    {
        InvocationResponse {
            id,
            outcome: Err(ErrorInfo::new(ErrorKind::ShutdownInProgress, "shutdown in progress")),
        }
    }

    pub fn get_app_version(&self) -> (v: String)
        ensures
            v@ == self.version(),
    {
        self.version.clone()
    }
}

} // verus!
