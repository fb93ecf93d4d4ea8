//! The scoped request context: the ambient binding of the current
//! [`RequestId`] to one logical task.
//!
//! Each logical task — one in-flight request or one in-flight RPC call — owns
//! exactly one [`ScopedContext`] value for its lifetime; the context-holding
//! machinery shares no mutable state between tasks, which is what keeps
//! concurrently handled requests from ever observing each other's identifier.
//! Within one task, bindings nest: [`ScopedContext::establish`] makes an
//! identifier the ambient value, an inner `establish` shadows it for the
//! duration of the inner scope only, and [`ScopedContext::exit`] reverts to
//! whatever was ambient before.

use vstd::prelude::*;
use crate::request_id::RequestId;

verus! {

/// Reading the scoped request context where none was established. This is a
/// programming error and always fatal to the operation attempting the read.
#[derive(Clone, Copy, PartialEq, Eq, Structural, Debug)]
pub enum ContextError {
    NoContext,
}

/// The stack of identifier bindings of one logical task, innermost last.
pub struct ScopedContext {
    stack: Vec<RequestId>,
}

impl View for ScopedContext {
    type V = Seq<u128>;

    closed spec fn view(&self) -> Seq<u128> {
        self.stack@.map_values(|id: RequestId| id@)
    }
}

/// The identifier ambient at a context: the innermost established binding.
pub open spec fn ambient_id(bindings: Seq<u128>) -> Option<u128> {
    if bindings.len() == 0 {
        None
    } else {
        Some(bindings.last())
    }
}

impl ScopedContext {
    /// A task's context before any binding is established.
    pub fn new() -> (r: ScopedContext)
        ensures
            r@ =~= Seq::<u128>::empty(),
    {
        ScopedContext { stack: Vec::new() }
    }

    /// Make `id` the ambient identifier until the matching [`Self::exit`];
    /// an inner binding shadows the outer one for its duration only.
    pub fn establish(&mut self, id: RequestId)
        ensures
            final(self)@ =~= old(self)@.push(id@),
    {
        self.stack.push(id);
    }

    /// Leave the innermost binding; the previously ambient identifier, if
    /// any, becomes ambient again.
    pub fn exit(&mut self)
        requires
            old(self)@.len() > 0,
        ensures
            final(self)@ =~= old(self)@.drop_last(),
    {
        self.stack.pop();
    }

    /// Read the ambient identifier; fails if and only if no binding is
    /// established.
    pub fn current(&self) -> (r: Result<RequestId, ContextError>)
        ensures
            match r {
                Ok(id) => ambient_id(self@) == Some(id@),
                Err(e) => ambient_id(self@) is None && e == ContextError::NoContext,
            },
    {
        if self.stack.len() > 0 {
            Ok(self.stack[self.stack.len() - 1])
        } else {
            Err(ContextError::NoContext)
        }
    }

    /// Whether any binding is established.
    pub fn is_established(&self) -> (r: bool)
        ensures
            r == (ambient_id(self@) is Some),
    {
        self.stack.len() > 0
    }
}

/// Law: bindings nest. Establishing an inner binding and leaving it restores
/// the bindings exactly as they were, so the previously ambient identifier
/// becomes ambient again.
pub proof fn lemma_establish_then_exit_reverts(bindings: Seq<u128>, id: u128)
    ensures
        bindings.push(id).drop_last() =~= bindings,
        ambient_id(bindings.push(id)) == Some(id),
{
}

/// Law: contexts are isolated. Two tasks hold two distinct context values;
/// when each has established its own identifier and the identifiers differ,
/// neither task's read can ever yield the other task's identifier, however
/// the two executions interleave.
pub proof fn lemma_context_isolation(a: Seq<u128>, b: Seq<u128>, id_a: u128, id_b: u128)
    requires
        ambient_id(a) == Some(id_a),
        ambient_id(b) == Some(id_b),
        id_a != id_b,
    ensures
        ambient_id(a) != Some(id_b),
        ambient_id(b) != Some(id_a),
{
}

} // verus!
