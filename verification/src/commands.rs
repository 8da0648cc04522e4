//! The commands that this shell exposes to the UI surface.

use vstd::prelude::*;
use vstd::string::*;
use crate::error::{ErrorInfo, ErrorKind, ErrorView};
use crate::registry::Handler;
use crate::value::{Value, ValueView};

verus! {

/// The greeting for `name`.
pub open spec fn greeting(name: Seq<char>) -> Seq<char> {
    "Hello, "@ + name + "! You've been greeted from Rust!"@
}

/// A failure of a command's own operation, with its message.
pub open spec fn failure(message: Seq<char>) -> ErrorView {
    ErrorView { kind: ErrorKind::HandlerFailure, message }
}

/// What the link opener answers once the platform has said whether the link
/// was launched: the unit payload, or a reported failure. A launch that fails
/// is reported to the caller, never raised.
pub open spec fn link_outcome(launched: bool) -> Result<ValueView, ErrorView> {
    if launched {
        Ok(ValueView::Unit)
    } else {
        Err(failure("the link could not be opened"@))
    }
}

/// The result of a handler that settles at once. `OpenExternal` settles at
/// once only when its argument is no URL text; with a text it waits for the
/// platform, and this function says nothing of it.
pub open spec fn settle(handler: Handler, arguments: ValueView, version: Seq<char>) -> Result<
    ValueView,
    ErrorView,
> {
    match handler {
        Handler::Greet => match arguments {
            ValueView::Text(name) => Ok(ValueView::Text(greeting(name))),
            _ => Err(failure("greet expects a name"@)),
        },
        Handler::AppVersion => Ok(ValueView::Text(version)),
        Handler::Echo => Ok(arguments),
        Handler::OpenExternal => Err(failure("open_external expects a URL"@)),
    }
}

/// True when running `handler` on `arguments` needs the platform's opener.
pub open spec fn needs_platform(handler: Handler, arguments: ValueView) -> bool {
    handler == Handler::OpenExternal && arguments is Text
}

pub fn greet(name: &str) -> (s: String)
    ensures
        s@ == greeting(name@),
{
    String::from_str("Hello, ").concat(name).concat("! You've been greeted from Rust!")
}

pub fn handler_failure(message: &str) -> (e: ErrorInfo)
    ensures
        e@ == failure(message@),
{
    ErrorInfo::new(ErrorKind::HandlerFailure, message)
}

/// Turns the platform's answer to a launch into the command's result.
pub fn open_external_outcome(launched: bool) -> (r: Result<Value, ErrorInfo>)
    ensures
        r is Ok <==> launched,
        result_view(r) == link_outcome(launched),
{
    if launched {
        Ok(Value::Unit)
    } else {
        Err(handler_failure("the link could not be opened"))
    }
}

/// The mathematical content of a command's result.
pub open spec fn result_view(r: Result<Value, ErrorInfo>) -> Result<ValueView, ErrorView> {
    match r {
        Ok(v) => Ok(v@),
        Err(e) => Err(e@),
    }
}

/// Runs `handler` on `arguments`, unless that needs the platform's opener:
/// then nothing is run here and the result is `None`.
pub fn run_handler(handler: Handler, arguments: &Value, version: &str) -> (r: Option<
    Result<Value, ErrorInfo>,
>)
    ensures
        r is None <==> needs_platform(handler, arguments@),
        r matches Some(outcome) ==> result_view(outcome) == settle(handler, arguments@, version@),
{
    match handler {
        Handler::Greet => match arguments.as_text() {
            Some(name) => Some(Ok(Value::Text(greet(name.as_str())))),
            None => Some(Err(handler_failure("greet expects a name"))),
        },
        Handler::AppVersion => Some(Ok(Value::text(version))),
        Handler::Echo => Some(Ok(arguments.clone())),
        Handler::OpenExternal => match arguments.as_text() {
            Some(_) => None,
            None => Some(Err(handler_failure("open_external expects a URL"))),
        },
    }
}

} // verus!
