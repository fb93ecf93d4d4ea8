//! The span value object: a named record of one unit of work with a fixed
//! attribute schema.
//!
//! Every attribute a span can ever carry is declared at construction. The
//! request-level attributes are valued eagerly; the completion attributes
//! (numeric status code and tracing-status classification) and the distributed
//! trace identifier start empty and can each be recorded at most once — a
//! record method requires the attribute to still be empty. Attributes outside
//! the schema do not exist, so recording one is impossible by construction.

use vstd::prelude::*;
use crate::request_id::{hex_char, nibble};

verus! {

/// The binary tracing-layer classification of a request's outcome.
#[derive(Clone, Copy, PartialEq, Eq, Structural, Debug)]
pub enum TracingStatus {
    Success,
    Error,
}

/// The mathematical content of a [`Span`]: its name and every attribute of
/// the fixed schema.
pub struct SpanView {
    pub name: Seq<char>,
    pub http_method: Seq<char>,
    pub http_route: Seq<char>,
    pub http_flavor: Seq<char>,
    pub http_scheme: Seq<char>,
    pub http_host: Seq<char>,
    pub http_client_ip: Seq<char>,
    pub http_user_agent: Seq<char>,
    pub http_target: Seq<char>,
    pub otel_kind: Seq<char>,
    pub request_id: Seq<char>,
    pub http_status_code: Option<u16>,
    pub otel_status_code: Option<TracingStatus>,
    pub trace_id: Option<Seq<char>>,
}

/// A root span: one unit of work, its fixed attribute schema declared at
/// creation, the completion attributes left empty until recorded.
pub struct Span {
    name: String,
    http_method: String,
    http_route: String,
    http_flavor: String,
    http_scheme: String,
    http_host: String,
    http_client_ip: String,
    http_user_agent: String,
    http_target: String,
    otel_kind: String,
    request_id: String,
    http_status_code: Option<u16>,
    otel_status_code: Option<TracingStatus>,
    trace_id: Option<String>,
}

impl View for Span {
    type V = SpanView;

    closed spec fn view(&self) -> SpanView {
        SpanView {
            name: self.name@,
            http_method: self.http_method@,
            http_route: self.http_route@,
            http_flavor: self.http_flavor@,
            http_scheme: self.http_scheme@,
            http_host: self.http_host@,
            http_client_ip: self.http_client_ip@,
            http_user_agent: self.http_user_agent@,
            http_target: self.http_target@,
            otel_kind: self.otel_kind@,
            request_id: self.request_id@,
            http_status_code: self.http_status_code,
            otel_status_code: self.otel_status_code,
            trace_id: match self.trace_id {
                Some(ref t) => Some(t@),
                None => None,
            },
        }
    }
}

/// Whether the completion attribute for the numeric status code may still be
/// recorded: it is declared empty at creation and filled at most once.
pub open spec fn can_record_status(v: SpanView) -> bool {
    v.http_status_code is None
}

/// Whether the tracing-status classification may still be recorded.
pub open spec fn can_record_classification(v: SpanView) -> bool {
    v.otel_status_code is None
}

/// Whether the distributed trace identifier may still be recorded.
pub open spec fn can_record_trace_id(v: SpanView) -> bool {
    v.trace_id is None
}

impl Span {
    /// Declare a span with the fixed attribute schema: the request attributes
    /// valued eagerly, the completion attributes and the trace identifier
    /// declared empty.
    pub fn new(
        name: String,
        http_method: String,
        http_route: String,
        http_flavor: String,
        http_scheme: String,
        http_host: String,
        http_client_ip: String,
        http_user_agent: String,
        http_target: String,
        otel_kind: String,
        request_id: String,
    ) -> (span: Span)
        ensures
            span@ == (SpanView {
                name: name@,
                http_method: http_method@,
                http_route: http_route@,
                http_flavor: http_flavor@,
                http_scheme: http_scheme@,
                http_host: http_host@,
                http_client_ip: http_client_ip@,
                http_user_agent: http_user_agent@,
                http_target: http_target@,
                otel_kind: otel_kind@,
                request_id: request_id@,
                http_status_code: None,
                otel_status_code: None,
                trace_id: None,
            }),
    {
        Span {
            name,
            http_method,
            http_route,
            http_flavor,
            http_scheme,
            http_host,
            http_client_ip,
            http_user_agent,
            http_target,
            otel_kind,
            request_id,
            http_status_code: None,
            otel_status_code: None,
            trace_id: None,
        }
    }

    /// Record the numeric status code of the final outcome; allowed exactly
    /// once, after which the attribute is no longer empty.
    pub fn record_status_code(&mut self, code: u16)
        requires
            can_record_status(old(self)@),
        ensures
            final(self)@ == (SpanView { http_status_code: Some(code), ..old(self)@ }),
    {
        self.http_status_code = Some(code);
    }

    /// Record the tracing-status classification of the final outcome; allowed
    /// exactly once.
    pub fn record_tracing_status(&mut self, status: TracingStatus)
        requires
            can_record_classification(old(self)@),
        ensures
            final(self)@ == (SpanView { otel_status_code: Some(status), ..old(self)@ }),
    {
        self.otel_status_code = Some(status);
    }

    /// Record the distributed trace identifier handed over by the trace
    /// context bridge; allowed exactly once.
    pub fn record_trace_id(&mut self, trace_id: String)
        requires
            can_record_trace_id(old(self)@),
        ensures
            final(self)@ == (SpanView { trace_id: Some(trace_id@), ..old(self)@ }),
    {
        self.trace_id = Some(trace_id);
    }

    /// The span's name.
    pub fn name(&self) -> (r: &String)
        ensures
            r@ == self@.name,
    {
        &self.name
    }

    /// The transport method attribute.
    pub fn http_method(&self) -> (r: &String)
        ensures
            r@ == self@.http_method,
    {
        &self.http_method
    }

    /// The route attribute.
    pub fn http_route(&self) -> (r: &String)
        ensures
            r@ == self@.http_route,
    {
        &self.http_route
    }

    /// The protocol flavor attribute.
    pub fn http_flavor(&self) -> (r: &String)
        ensures
            r@ == self@.http_flavor,
    {
        &self.http_flavor
    }

    /// The scheme attribute.
    pub fn http_scheme(&self) -> (r: &String)
        ensures
            r@ == self@.http_scheme,
    {
        &self.http_scheme
    }

    /// The host attribute.
    pub fn http_host(&self) -> (r: &String)
        ensures
            r@ == self@.http_host,
    {
        &self.http_host
    }

    /// The client IP attribute.
    pub fn http_client_ip(&self) -> (r: &String)
        ensures
            r@ == self@.http_client_ip,
    {
        &self.http_client_ip
    }

    /// The user-agent attribute.
    pub fn http_user_agent(&self) -> (r: &String)
        ensures
            r@ == self@.http_user_agent,
    {
        &self.http_user_agent
    }

    /// The target attribute.
    pub fn http_target(&self) -> (r: &String)
        ensures
            r@ == self@.http_target,
    {
        &self.http_target
    }

    /// The server/kind marker attribute.
    pub fn otel_kind(&self) -> (r: &String)
        ensures
            r@ == self@.otel_kind,
    {
        &self.otel_kind
    }

    /// The request identifier attribute, in canonical form.
    pub fn request_id(&self) -> (r: &String)
        ensures
            r@ == self@.request_id,
    {
        &self.request_id
    }

    /// The recorded trace identifier, if the bridge recorded one.
    pub fn trace_id(&self) -> (r: Option<&String>)
        ensures
            match r {
                Some(t) => self@.trace_id == Some(t@),
                None => self@.trace_id is None,
            },
    {
        match &self.trace_id {
            Some(t) => Some(t),
            None => None,
        }
    }

    /// The recorded status code, if recording has happened.
    pub fn status_code(&self) -> (r: Option<u16>)
        ensures
            r == self@.http_status_code,
    {
        self.http_status_code
    }

    /// The recorded tracing-status classification, if recording has happened.
    pub fn tracing_status(&self) -> (r: Option<TracingStatus>)
        ensures
            r == self@.otel_status_code,
    {
        self.otel_status_code
    }
}

/// Law: a completion attribute is recorded at most once — once the status
/// code holds a value, recording it again is impossible.
pub proof fn lemma_status_recorded_at_most_once(v: SpanView)
    ensures
        v.http_status_code is Some ==> !can_record_status(v),
        v.otel_status_code is Some ==> !can_record_classification(v),
{
}

/// The canonical lowercase-hexadecimal rendering of a 128-bit trace
/// identifier: exactly 32 hex digits, most significant first.
pub open spec fn is_trace_id_hex(s: Seq<char>, v: u128) -> bool {
    &&& s.len() == 32
    &&& forall|j: int| 0 <= j < 32 ==> s[j] == hex_char(#[trigger] nibble(v, j))
}

} // verus!
