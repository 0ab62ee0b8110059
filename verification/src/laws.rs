//! Laws of the command bridge, stated over the bridge model that the
//! executable functions' contracts speak of.

use vstd::prelude::*;
use crate::bridge::{
    args_accepted, handler_value, BridgeModel, ConfigError, EntryModel, Handler, InvocationModel,
};
use crate::response::{unknown_command_message, ErrorKind, ResponseModel};

verus! {

/// Invoking a registered command with arguments its handler accepts yields
/// a success response carrying the handler's value.
pub proof fn lemma_registered_command_succeeds(m: BridgeModel, inv: InvocationModel)
    requires
        m.wf(),
        m.contains_name(inv.name),
        args_accepted(m.handler_of(inv.name), inv.args),
    ensures
        m.response_to(inv) == ResponseModel::Success(handler_value(m.handler_of(inv.name), inv.args)),
{
}

/// Invoking a name absent from the registry yields an unknown-command
/// error naming the command, whatever the arguments.
pub proof fn lemma_unknown_command_fails(m: BridgeModel, inv: InvocationModel)
    requires
        !m.contains_name(inv.name),
    ensures
        m.response_to(inv) == ResponseModel::Failure(
            ErrorKind::UnknownCommand,
            unknown_command_message(inv.name),
        ),
{
}

/// A name that `register` accepted is rejected as a duplicate when
/// registered again before `start`: `pre` is the registry before the
/// accepted call, `mid` the registry it leaves behind.
pub proof fn lemma_duplicate_register_rejected(
    pre: BridgeModel,
    mid: BridgeModel,
    name: Seq<char>,
    handler: Handler,
)
    requires
        pre.wf(),
        pre.register_outcome(name) is Ok,
        mid == (BridgeModel { entries: pre.entries.push(EntryModel { name, handler }), serving: pre.serving }),
    ensures
        mid.wf(),
        mid.register_outcome(name) == Err::<(), ConfigError>(ConfigError::DuplicateName),
{
    assert(mid.entries[pre.entries.len() as int].name == name);
    assert(mid.contains_name(name));
    assert forall|i: int, j: int|
        0 <= i < j < mid.entries.len() implies mid.entries[i].name != mid.entries[j].name by {
        if j == mid.entries.len() - 1 {
            assert(!pre.contains_name(name));
            assert(pre.entries[i].name != name);
        }
    }
}

/// Once the bridge is serving, `register` rejects every name with a
/// configuration error; by `register`'s own contract a rejected call
/// leaves the registry unchanged.
pub proof fn lemma_register_while_serving_rejected(m: BridgeModel, name: Seq<char>)
    requires
        m.serving,
    ensures
        m.register_outcome(name) == Err::<(), ConfigError>(ConfigError::AlreadyServing),
{
}

/// Invocation is deterministic: two identical invocations of the same
/// bridge produce identical responses, and `invoke` leaves the bridge
/// untouched, so repeating a pure handler's invocation repeats its
/// response.
pub proof fn lemma_invoke_idempotent(m: BridgeModel, first: InvocationModel, second: InvocationModel)
    requires
        first == second,
    ensures
        m.response_to(first) == m.response_to(second),
{
}

} // verus!
