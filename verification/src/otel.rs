//! The distributed trace context bridge, on its verifiable side.
//!
//! The wire encoding of a distributed trace context is an external concern:
//! the surrounding process extracts a parent context from a header-like
//! carrier with whatever propagation format it is configured for, and hands
//! this module the parent's 128-bit trace identifier as a plain value. This
//! module renders that identifier as the canonical lowercase hexadecimal
//! string and records it on the span's trace-identifier attribute. Without a
//! configured bridge the attribute simply stays empty.

use vstd::prelude::*;
use crate::request_id::{hex_char_of, lemma_nibble_in_range, string_push};
use crate::span::{Span, SpanView, can_record_trace_id, is_trace_id_hex};

verus! {

/// Render a 128-bit trace identifier as 32 lowercase hexadecimal digits, most
/// significant first.
pub fn format_trace_id(trace_id: u128) -> (r: String)
    ensures
        is_trace_id_hex(r@, trace_id),
{
    let mut r = String::new();
    let mut j: usize = 0;
    while j < 32
        invariant
            j <= 32,
            r@.len() == j,
            forall|t: int|
                0 <= t < j ==> r@[t] == crate::request_id::hex_char(
                    #[trigger] crate::request_id::nibble(trace_id, t),
                ),
        decreases 32 - j,
    {
        let sh: u128 = ((31 - j) as u128) * 4;
        let d: u128 = (trace_id >> sh) & 0xf;
        proof {
            lemma_nibble_in_range(trace_id, sh);
        }
        string_push(&mut r, hex_char_of(d as u8));
        j = j + 1;
    }
    r
}

/// Record the parent trace identifier extracted by the configured propagation
/// format onto the span's trace-identifier attribute, in canonical lowercase
/// hexadecimal form; allowed exactly once.
pub fn apply_trace_parent(span: &mut Span, trace_id: u128)
    requires
        can_record_trace_id(old(span)@),
    ensures
        final(span)@.trace_id is Some,
        is_trace_id_hex(final(span)@.trace_id->Some_0, trace_id),
        final(span)@ == (SpanView { trace_id: final(span)@.trace_id, ..old(span)@ }),
{
    let text = format_trace_id(trace_id);
    span.record_trace_id(text);
}

} // verus!
