//! What a run prints of each span.

use crate::text::lower_hex;
use vstd::prelude::*;
use vstd::string::*;

verus! {

/// The identifiers of a span, as plain numbers.
#[derive(Clone, Copy, Debug, PartialEq, Eq, Structural)]
pub struct SpanIds {
    /// The trace the span belongs to.
    pub trace_id: u128,
    /// The span itself.
    pub span_id: u64,
}

/// The line that reports a span.
pub open spec fn span_line_text(ids: SpanIds) -> Seq<char> {
    "Created span with traceid "@ + lower_hex(ids.trace_id as nat, 32) + " and spanid "@
        + lower_hex(ids.span_id as nat, 16)
}

/// The text of a trace identifier as `opentelemetry::trace::TraceId` displays
/// it. Believed of that crate: `Display` writes the 128-bit value in lower-case
/// hexadecimal, zero-padded to 32 digits.
#[verifier::external_body]
fn trace_id_text(trace_id: u128) -> (text: String)
    ensures
        text@ == lower_hex(trace_id as nat, 32),
{
    opentelemetry::trace::TraceId::from(trace_id).to_string()
}

/// The text of a span identifier as `opentelemetry::trace::SpanId` displays
/// it. Believed of that crate: `Display` writes the 64-bit value in lower-case
/// hexadecimal, zero-padded to 16 digits.
#[verifier::external_body]
fn span_id_text(span_id: u64) -> (text: String)
    ensures
        text@ == lower_hex(span_id as nat, 16),
{
    opentelemetry::trace::SpanId::from(span_id).to_string()
}

/// The line that reports a span: its trace and span identifiers, each as the
/// tracing library displays it.
pub fn span_line(ids: SpanIds) -> (line: String)
    ensures
        line@ == span_line_text(ids),
{
    let mut line = String::from_str("Created span with traceid ");
    let trace = trace_id_text(ids.trace_id);
    line.append(trace.as_str());
    line.append(" and spanid ");
    let span = span_id_text(ids.span_id);
    line.append(span.as_str());
    line
}

} // verus!
