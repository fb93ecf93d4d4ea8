//! The outbound RPC context injector.

use vstd::prelude::*;
use vstd::string::*;
use crate::carrier::{HeaderCarrier, keys_eq_ci, lookup};
use crate::relay::request_id_key;
use crate::request_id::{canonical_value, is_canonical};
use crate::scope::{ambient_id, ContextError, ScopedContext};

verus! {

/// Whether a carrier hands the identifier `v` to the receiving side: the
/// fixed key is present and its value is a canonical rendering of `v`.
pub open spec fn carries_identifier(entries: Seq<(Seq<char>, Seq<char>)>, v: u128) -> bool {
    &&& lookup(entries, request_id_key()) is Some
    &&& is_canonical(lookup(entries, request_id_key())->Some_0)
    &&& canonical_value(lookup(entries, request_id_key())->Some_0) == v as int
}

/// The interceptor invoked once per outgoing RPC call, before the call is
/// dispatched: it copies the ambient request identifier into the call's
/// metadata. It must only be reachable from code executing within an
/// established request scope; finding no ambient identifier is a programming
/// error, reported as [`ContextError::NoContext`] and never papered over with
/// a fabricated identifier.
#[derive(Clone, Copy, Debug)]
pub struct RelayInterceptor;

impl RelayInterceptor {
    /// Write the ambient identifier into the outgoing call's metadata under
    /// the fixed key. Nothing but the metadata is touched; entries under
    /// other keys keep their values.
    pub fn call(&self, ctx: &ScopedContext, metadata: &mut HeaderCarrier) -> (r: Result<
        (),
        ContextError,
    >)
        ensures
            r is Ok <==> ambient_id(ctx@) is Some,
            r is Ok ==> carries_identifier(final(metadata)@, ambient_id(ctx@)->Some_0),
            r is Ok ==> forall|k: Seq<char>|
                !keys_eq_ci(request_id_key(), k) ==> lookup(final(metadata)@, k) == lookup(
                    old(metadata)@,
                    k,
                ),
            r is Err ==> final(metadata)@ == old(metadata)@ && r == Err::<(), ContextError>(
                ContextError::NoContext,
            ),
    {
        match ctx.current() {
            Ok(id) => {
                let text = id.to_canonical();
                metadata.set(String::from_str("request_id"), text);
                Ok(())
            },
            Err(e) => Err(e),
        }
    }
}

} // verus!
