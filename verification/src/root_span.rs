//! The root span of one inbound request, as handed to request handlers.

use vstd::prelude::*;
use crate::span::{Span, SpanView};

verus! {

/// The top-level span created for an inbound request by the instrumentation
/// middleware. Handlers receive it to record completion attributes or to
/// parent further spans under it.
pub struct RootSpan {
    span: Span,
}

impl View for RootSpan {
    type V = SpanView;

    closed spec fn view(&self) -> SpanView {
        self.span@
    }
}

impl RootSpan {
    /// Wrap the span built by the root span builder.
    pub fn new(span: Span) -> (r: RootSpan)
        ensures
            r@ == span@,
    {
        RootSpan { span }
    }

    /// The wrapped span.
    pub fn span(&self) -> (r: &Span)
        ensures
            r@ == self@,
    {
        &self.span
    }

    /// The wrapped span, for recording completion attributes onto it.
    pub fn span_mut(&mut self) -> (r: &mut Span)
        ensures
            r@ == old(self)@,
            final(self)@ == final(r)@,
    {
        &mut self.span
    }

    /// Give up the wrapper and return the span itself.
    pub fn into_inner(self) -> (r: Span)
        ensures
            r@ == self@,
    {
        self.span
    }
}

} // verus!
