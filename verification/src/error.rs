//! The error taxonomy shared by every component of the bridge.

use vstd::prelude::*;
use vstd::string::*;

verus! {

/// What went wrong, as a closed set of kinds.
#[derive(Clone, Copy, Debug, PartialEq, Eq, Structural)]
pub enum ErrorKind {
    /// A request names a command that the registry does not hold.
    UnknownCommand,
    /// A command name was registered twice.
    DuplicateCommand,
    /// A registered command's own operation could not complete.
    HandlerFailure,
    /// The platform could not allocate the main window.
    WindowCreation,
    /// A geometry constraint could not be applied.
    Constraint,
    /// The request arrived, or was still in flight, when shutdown cut it off.
    ShutdownInProgress,
}

impl ErrorKind {
    /// The name under which this kind travels on the invocation channel.
    pub open spec fn wire_name(self) -> Seq<char> {
        match self {
            ErrorKind::UnknownCommand => "UnknownCommandError"@,
            ErrorKind::DuplicateCommand => "DuplicateCommandError"@,
            ErrorKind::HandlerFailure => "HandlerFailure"@,
            ErrorKind::WindowCreation => "WindowCreationError"@,
            ErrorKind::Constraint => "ConstraintError"@,
            ErrorKind::ShutdownInProgress => "ShutdownInProgress"@,
        }
    }

    /// True for the kinds that must stop startup; the others are answered to
    /// the caller and the process goes on.
    pub open spec fn is_fatal(self) -> bool {
        self == ErrorKind::DuplicateCommand || self == ErrorKind::WindowCreation
    }

    pub fn name(self) -> (s: String)
        ensures
            s@ == self.wire_name(),
    {
        match self {
            ErrorKind::UnknownCommand => String::from_str("UnknownCommandError"),
            ErrorKind::DuplicateCommand => String::from_str("DuplicateCommandError"),
            ErrorKind::HandlerFailure => String::from_str("HandlerFailure"),
            ErrorKind::WindowCreation => String::from_str("WindowCreationError"),
            ErrorKind::Constraint => String::from_str("ConstraintError"),
            ErrorKind::ShutdownInProgress => String::from_str("ShutdownInProgress"),
        }
    }

    pub fn fatal(self) -> (b: bool)
        ensures
            b == self.is_fatal(),
    {
        match self {
            ErrorKind::DuplicateCommand => true,
            ErrorKind::WindowCreation => true,
            _ => false,
        }
    }
}

/// The mathematical content of an [`ErrorInfo`].
pub ghost struct ErrorView {
    pub kind: ErrorKind,
    pub message: Seq<char>,
}

/// A structured error: its kind and a message for the caller.
#[derive(Debug, PartialEq, Eq)]
pub struct ErrorInfo {
    pub kind: ErrorKind,
    pub message: String,
}

impl View for ErrorInfo {
    type V = ErrorView;

    open spec fn view(&self) -> ErrorView {
        ErrorView { kind: self.kind, message: self.message@ }
    }
}

impl Clone for ErrorInfo {
    fn clone(&self) -> (copy: Self)
        ensures
            copy@ == self@,
    {
        ErrorInfo { kind: self.kind, message: self.message.clone() }
    }
}

impl ErrorInfo {
    pub fn new(kind: ErrorKind, message: &str) -> (e: ErrorInfo)
        ensures
            e@ == (ErrorView { kind, message: message@ }),
    {
        ErrorInfo { kind, message: String::from_str(message) }
    }
}

} // verus!
