//! The command bridge: a registry of named handlers, built while the bridge
//! is configuring, frozen by `start`, and consulted by `invoke` to dispatch
//! each request to the matching handler.

use vstd::prelude::*;
use crate::response::{
    bad_arguments_message, build_bad_arguments_message, build_handler_failed_message,
    build_unknown_command_message, handler_failed_message, unknown_command_message, ErrorKind,
    Response, ResponseModel,
};
use crate::value::{Value, ValueModel};
use vstd::string::StringExecFns;

verus! {

/// A command handler owned by the registry. Each variant is one handler
/// implementation; dispatch selects it by registered name.
#[derive(Clone, Copy, Debug, PartialEq, Eq, Structural)]
pub enum Handler {
    /// Takes no arguments and returns the fixed greeting text.
    Greet,
    /// Takes two integer arguments and returns their sum.
    Sum,
}

/// The fixed text returned by the greeting handler.
pub open spec fn greeting_text() -> Seq<char> {
    "Hello from Rust!"@
}

/// Whether `args` match the parameters `h` expects, and `h`'s own
/// computation succeeds on them.
pub open spec fn args_accepted(h: Handler, args: Seq<ValueModel>) -> bool {
    match h {
        Handler::Greet => args.len() == 0,
        Handler::Sum => args.len() == 2 && args[0] is Int && args[1] is Int
            && i64::MIN <= args[0]->Int_0 + args[1]->Int_0 <= i64::MAX,
    }
}

/// Whether `args` match the parameters `h` expects, leaving open whether
/// the handler's own computation succeeds.
pub open spec fn args_well_typed(h: Handler, args: Seq<ValueModel>) -> bool {
    match h {
        Handler::Greet => args.len() == 0,
        Handler::Sum => args.len() == 2 && args[0] is Int && args[1] is Int,
    }
}

/// The value `h` produces on arguments it accepts.
pub open spec fn handler_value(h: Handler, args: Seq<ValueModel>) -> ValueModel {
    match h {
        Handler::Greet => ValueModel::Text(greeting_text()),
        Handler::Sum => ValueModel::Int(args[0]->Int_0 + args[1]->Int_0),
    }
}

/// The response produced by dispatching `args` of the invocation named
/// `name` to handler `h`: the handler's value on accepted arguments, an
/// argument error on ill-typed ones, and a wrapped handler error where the
/// handler itself fails (for `Sum`, on overflow).
pub open spec fn dispatch(h: Handler, name: Seq<char>, args: Seq<ValueModel>) -> ResponseModel {
    if !args_well_typed(h, args) {
        ResponseModel::Failure(ErrorKind::BadArguments, bad_arguments_message(name))
    } else if !args_accepted(h, args) {
        ResponseModel::Failure(ErrorKind::HandlerFailed, handler_failed_message(name))
    } else {
        ResponseModel::Success(handler_value(h, args))
    }
}

/// One request to execute a named command with arguments, consumed by a
/// single call of `invoke`.
#[derive(Debug)]
pub struct Invocation {
    pub name: String,
    pub args: Vec<Value>,
}

/// Mathematical model of an invocation.
pub struct InvocationModel {
    pub name: Seq<char>,
    pub args: Seq<ValueModel>,
}

impl View for Invocation {
    type V = InvocationModel;

    open spec fn view(&self) -> InvocationModel {
        InvocationModel {
            name: self.name@,
            args: Seq::new(self.args@.len(), |i: int| self.args@[i]@),
        }
    }
}

/// An error returned by `register`: the bridge is past configuration, or
/// the name is already taken.
#[derive(Clone, Copy, Debug, PartialEq, Eq, Structural)]
pub enum ConfigError {
    /// The name is already registered.
    DuplicateName,
    /// `start` has already frozen the registry.
    AlreadyServing,
}

/// A fatal startup failure: the host runtime backing the bridge could not
/// initialize. Produced by the embedder and passed through `start`.
#[derive(Debug)]
pub struct StartupError {
    pub message: String,
}

/// One registry entry: a command name bound to its handler.
struct RegistryEntry {
    name: String,
    handler: Handler,
}

/// Mathematical model of one registry entry.
pub struct EntryModel {
    pub name: Seq<char>,
    pub handler: Handler,
}

/// Mathematical model of a bridge: the registry entries in registration
/// order, and whether `start` has been called.
pub struct BridgeModel {
    pub entries: Seq<EntryModel>,
    pub serving: bool,
}

impl BridgeModel {
    /// The registry holds no two entries under the same name.
    pub open spec fn wf(self) -> bool {
        forall|i: int, j: int|
            0 <= i < j < self.entries.len() ==> self.entries[i].name != self.entries[j].name
    }

    /// Whether some entry is registered under `name`.
    pub open spec fn contains_name(self, name: Seq<char>) -> bool {
        exists|i: int| 0 <= i < self.entries.len() && self.entries[i].name == name
    }

    /// The handler registered under `name` (meaningful when
    /// `contains_name(name)` holds; unique by `wf`).
    pub open spec fn handler_of(self, name: Seq<char>) -> Handler {
        let i = choose|i: int| 0 <= i < self.entries.len() && self.entries[i].name == name;
        self.entries[i].handler
    }

    /// The outcome of registering `name`: rejected once serving, rejected
    /// as a duplicate while configuring, accepted otherwise.
    pub open spec fn register_outcome(self, name: Seq<char>) -> Result<(), ConfigError> {
        if self.serving {
            Err(ConfigError::AlreadyServing)
        } else if self.contains_name(name) {
            Err(ConfigError::DuplicateName)
        } else {
            Ok(())
        }
    }

    /// The response the bridge produces for `inv`: an unknown-command
    /// error when the name is absent, and the named handler's dispatch
    /// result otherwise.
    pub open spec fn response_to(self, inv: InvocationModel) -> ResponseModel {
        if !self.contains_name(inv.name) {
            ResponseModel::Failure(ErrorKind::UnknownCommand, unknown_command_message(inv.name))
        } else {
            dispatch(self.handler_of(inv.name), inv.name, inv.args)
        }
    }
}

/// The command bridge: registry plus serving flag.
pub struct Bridge {
    entries: Vec<RegistryEntry>,
    serving: bool,
}

impl View for Bridge {
    type V = BridgeModel;

    closed spec fn view(&self) -> BridgeModel {
        BridgeModel {
            entries: Seq::new(
                self.entries@.len(),
                |i: int| EntryModel { name: self.entries@[i].name@, handler: self.entries@[i].handler },
            ),
            serving: self.serving,
        }
    }
}

impl Bridge {
    /// A fresh bridge: empty registry, still configuring.
    pub fn new() -> (r: Bridge)
        ensures
            r@.wf(),
            r@.entries =~= Seq::<EntryModel>::empty(),
            !r@.serving,
    {
        Bridge { entries: Vec::new(), serving: false }
    }

    /// Adds `handler` to the registry under `name` while the bridge is
    /// configuring. Rejected with `AlreadyServing` once `start` has run,
    /// and with `DuplicateName` when `name` is already registered; a
    /// rejected call leaves the bridge unchanged.
    pub fn register(&mut self, name: String, handler: Handler) -> (r: Result<(), ConfigError>)
        requires
            old(self)@.wf(),
        ensures
            final(self)@.wf(),
            r == old(self)@.register_outcome(name@),
            r is Ok ==> final(self)@ == (BridgeModel {
                entries: old(self)@.entries.push(EntryModel { name: name@, handler }),
                serving: old(self)@.serving,
            }),
            r is Err ==> final(self)@ == old(self)@,
    {
        if self.serving {
            return Err(ConfigError::AlreadyServing);
        }
        if self.lookup(&name).is_some() {
            return Err(ConfigError::DuplicateName);
        }
        self.entries.push(RegistryEntry { name, handler });
        proof {
            assert(final(self)@.entries =~= old(self)@.entries.push(
                EntryModel { name: name@, handler },
            ));
            assert(final(self)@ == (BridgeModel {
                entries: old(self)@.entries.push(EntryModel { name: name@, handler }),
                serving: old(self)@.serving,
            }));
            assert forall|i: int, j: int|
                0 <= i < j < final(self)@.entries.len() implies final(self)@.entries[i].name
                != final(self)@.entries[j].name by {
                if j == final(self)@.entries.len() - 1 {
                    assert(!old(self)@.contains_name(name@));
                    assert(old(self)@.entries[i].name != name@);
                }
            }
        }
        Ok(())
    }

    /// Freezes the registry and moves the bridge to serving. `host` is the
    /// outcome of initializing the host runtime, which the embedder attempts
    /// alongside this call: on a host failure the bridge stays as it was and
    /// the failure is passed back to the caller, which treats it as fatal.
    pub fn start(&mut self, host: Result<(), StartupError>) -> (r: Result<(), StartupError>)
        ensures
            host is Ok ==> r is Ok && final(self)@ == (BridgeModel {
                entries: old(self)@.entries,
                serving: true,
            }),
            host is Err ==> r == host && final(self)@ == old(self)@,
    {
        match host {
            Ok(()) => {
                self.serving = true;
                Ok(())
            },
            Err(e) => Err(e),
        }
    }

    /// Whether `start` has frozen the registry.
    pub fn is_serving(&self) -> (r: bool)
        ensures
            r == self@.serving,
    {
        self.serving
    }

    /// Dispatches one invocation: looks `inv.name` up in the registry and
    /// runs the matching handler on `inv.args`. Every failure — unknown
    /// name, ill-typed arguments, or a failing handler — is returned as a
    /// structured error response, never as a panic. Dispatch reads the
    /// registry as it stands; the embedder routes invocations to the
    /// bridge once `start` has frozen it.
    pub fn invoke(&self, inv: &Invocation) -> (r: Response)
        requires
            self@.wf(),
        ensures
            r@ == self@.response_to(inv@),
    {
        match self.lookup(&inv.name) {
            None => Response::error(
                ErrorKind::UnknownCommand,
                build_unknown_command_message(&inv.name),
            ),
            Some(h) => run_handler(h, inv),
        }
    }

    /// Linear scan of the registry for `name`.
    fn lookup(&self, name: &String) -> (r: Option<Handler>)
        requires
            self@.wf(),
        ensures
            r is Some <==> self@.contains_name(name@),
            r is Some ==> r->0 == self@.handler_of(name@),
    {
        let n = self.entries.len();
        let mut i: usize = 0;
        while i < n
            invariant
                self@.wf(),
                n == self.entries.len(),
                i <= n,
                forall|j: int| 0 <= j < i ==> self@.entries[j].name != name@,
            decreases n - i,
        {
            if self.entries[i].name == *name {
                proof {
                    let w = choose|k: int|
                        0 <= k < self@.entries.len() && self@.entries[k].name == name@;
                    assert(self@.entries[i as int].name == name@);
                    assert(w == i as int);
                }
                return Some(self.entries[i].handler);
            }
            i += 1;
        }
        proof {
            assert(forall|j: int| 0 <= j < self@.entries.len()
                ==> self@.entries[j].name != name@);
        }
        None
    }
}

/// Runs handler `h` on the arguments of `inv`, producing its dispatch
/// response: the handler's value, or a structured argument or handler
/// error.
fn run_handler(h: Handler, inv: &Invocation) -> (r: Response)
    ensures
        r@ == dispatch(h, inv@.name, inv@.args),
{
    match h {
        Handler::Greet => {
            if inv.args.len() == 0 {
                Response::ok(Value::Text(String::from_str("Hello from Rust!")))
            } else {
                Response::error(ErrorKind::BadArguments, build_bad_arguments_message(&inv.name))
            }
        },
        Handler::Sum => {
            if inv.args.len() == 2 {
                match (&inv.args[0], &inv.args[1]) {
                    (Value::Int(a), Value::Int(b)) => {
                        match a.checked_add(*b) {
                            Some(s) => Response::ok(Value::Int(s)),
                            None => Response::error(
                                ErrorKind::HandlerFailed,
                                build_handler_failed_message(&inv.name),
                            ),
                        }
                    },
                    _ => Response::error(
                        ErrorKind::BadArguments,
                        build_bad_arguments_message(&inv.name),
                    ),
                }
            } else {
                Response::error(ErrorKind::BadArguments, build_bad_arguments_message(&inv.name))
            }
        },
    }
}

} // verus!
