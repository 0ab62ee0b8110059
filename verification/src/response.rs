//! Responses produced by the bridge, one per invocation.
//!
//! A response is either a success carrying a value, or a structured error
//! carrying a kind and a message. Per-invocation errors are always returned
//! as data; they never escape the bridge as a panic.

use vstd::prelude::*;
use vstd::string::StringExecFns;
use crate::value::{Value, ValueModel};

verus! {

/// The kind of a per-invocation error.
#[derive(Clone, Copy, Debug, PartialEq, Eq, Structural)]
pub enum ErrorKind {
    /// The invocation named a command absent from the registry.
    UnknownCommand,
    /// The arguments did not match the handler's expected parameters.
    BadArguments,
    /// The handler itself failed; its failure is caught and wrapped.
    HandlerFailed,
}

/// The wire label of an error kind.
pub open spec fn spec_label(k: ErrorKind) -> Seq<char> {
    match k {
        ErrorKind::UnknownCommand => "UnknownCommandError"@,
        ErrorKind::BadArguments => "ArgumentError"@,
        ErrorKind::HandlerFailed => "HandlerError"@,
    }
}

impl ErrorKind {
    /// The label under which this kind is reported to the external caller.
    pub fn label(&self) -> (r: String)
        ensures
            r@ == spec_label(*self),
    {
        match self {
            ErrorKind::UnknownCommand => String::from_str("UnknownCommandError"),
            ErrorKind::BadArguments => String::from_str("ArgumentError"),
            ErrorKind::HandlerFailed => String::from_str("HandlerError"),
        }
    }
}

/// Mathematical model of a response.
pub enum ResponseModel {
    Success(ValueModel),
    Failure(ErrorKind, Seq<char>),
}

/// The outcome of one invocation: a value on success, or an error kind with
/// a human-readable message.
#[derive(Debug)]
pub enum Response {
    Success(Value),
    Failure(ErrorKind, String),
}

impl View for Response {
    type V = ResponseModel;

    open spec fn view(&self) -> ResponseModel {
        match self {
            Response::Success(v) => ResponseModel::Success(v@),
            Response::Failure(k, m) => ResponseModel::Failure(*k, m@),
        }
    }
}

impl Response {
    /// A success response carrying `v`.
    pub fn ok(v: Value) -> (r: Response)
        ensures
            r@ == ResponseModel::Success(v@),
    {
        Response::Success(v)
    }

    /// An error response of kind `kind` with message `message`.
    pub fn error(kind: ErrorKind, message: String) -> (r: Response)
        ensures
            r@ == ResponseModel::Failure(kind, message@),
    {
        Response::Failure(kind, message)
    }
}

/// Message reported when an invocation names an unregistered command.
pub open spec fn unknown_command_message(name: Seq<char>) -> Seq<char> {
    "no such command: "@ + name
}

/// Message reported when the arguments do not match a handler's parameters.
pub open spec fn bad_arguments_message(name: Seq<char>) -> Seq<char> {
    "invalid arguments for command: "@ + name
}

/// Message reported when a handler's own computation fails.
pub open spec fn handler_failed_message(name: Seq<char>) -> Seq<char> {
    "handler failed for command: "@ + name
}

pub(crate) fn build_unknown_command_message(name: &String) -> (r: String)
    ensures
        r@ == unknown_command_message(name@),
{
    let mut m = String::from_str("no such command: ");
    m.append(name.as_str());
    m
}

pub(crate) fn build_bad_arguments_message(name: &String) -> (r: String)
    ensures
        r@ == bad_arguments_message(name@),
{
    let mut m = String::from_str("invalid arguments for command: ");
    m.append(name.as_str());
    m
}

pub(crate) fn build_handler_failed_message(name: &String) -> (r: String)
    ensures
        r@ == handler_failed_message(name@),
{
    let mut m = String::from_str("handler failed for command: ");
    m.append(name.as_str());
    m
}

} // verus!
