//! The settings of one run and the default-port policy.

use vstd::prelude::*;
use vstd::string::*;

verus! {

/// Where finished spans are sent.
#[derive(Clone, Copy, Debug, PartialEq, Eq, Structural)]
pub enum Exporter {
    /// Human-readable text on standard output.
    Stdout,
    /// A Jaeger agent, over UDP.
    Jaeger,
    /// An OTLP collector, over gRPC.
    Otlp,
}

/// The port a Jaeger agent listens on unless told otherwise.
pub const JAEGER_AGENT_PORT: u16 = 6831;

/// The port an OTLP collector accepts gRPC on unless told otherwise.
pub const OTLP_GRPC_PORT: u16 = 4317;

impl Exporter {
    /// The port assumed for this exporter when the user names none.
    pub open spec fn spec_default_port(self) -> Option<u16> {
        match self {
            Exporter::Stdout => None,
            Exporter::Jaeger => Some(JAEGER_AGENT_PORT),
            Exporter::Otlp => Some(OTLP_GRPC_PORT),
        }
    }

    /// Whether spans leave the process, so that a port is needed.
    pub open spec fn needs_port(self) -> bool {
        self != Exporter::Stdout
    }

    /// The port assumed for this exporter when the user names none: 6831 for
    /// Jaeger, 4317 for OTLP, none for standard output.
    pub fn default_port(self) -> (port: Option<u16>)
        ensures
            port == self.spec_default_port(),
            port is Some <==> self.needs_port(),
    {
        match self {
            Exporter::Stdout => None,
            Exporter::Jaeger => Some(JAEGER_AGENT_PORT),
            Exporter::Otlp => Some(OTLP_GRPC_PORT),
        }
    }
}

/// The port a run uses: the one the user gave, else the exporter's default.
pub open spec fn resolved_port(port: Option<u16>, exporter: Exporter) -> Option<u16> {
    match port {
        Some(p) => Some(p),
        None => exporter.spec_default_port(),
    }
}

/// The settings of one run.
#[derive(Debug)]
pub struct Args {
    /// Exporter type.
    pub exporter: Exporter,
    /// Scheme of the OTLP endpoint.
    pub scheme: String,
    /// Host to export to.
    pub host: String,
    /// Port to export to; absent until resolved, and for standard output.
    pub port: Option<u16>,
    /// Value of the `service.name` resource attribute.
    pub service_name: String,
    /// Instrumentation name of the tracer.
    pub tracer_name: String,
    /// Name given to every span.
    pub span_name: String,
    /// Number of child spans under the root.
    pub number: usize,
}

impl Args {
    /// A port is present wherever the exporter needs one.
    pub open spec fn resolved(&self) -> bool {
        self.exporter.needs_port() ==> self.port is Some
    }

    /// Whether a port is present wherever the exporter needs one.
    pub fn is_resolved(&self) -> (ok: bool)
        ensures
            ok == self.resolved(),
    {
        match self.exporter {
            Exporter::Stdout => true,
            Exporter::Jaeger | Exporter::Otlp => self.port.is_some(),
        }
    }

    /// Fills in the exporter's default port where the user gave none, and
    /// changes nothing else.
    pub fn resolve(&mut self)
        ensures
            final(self).port == resolved_port(old(self).port, old(self).exporter),
            old(self).port is Some ==> final(self).port == old(self).port,
            old(self).port is None ==> final(self).port == old(self).exporter.spec_default_port(),
            final(self).resolved(),
            *final(self) == (Args { port: final(self).port, ..*old(self) }),
    {
        if self.port.is_none() {
            self.port = self.exporter.default_port();
        }
    }
}

impl Default for Args {
    /// The settings of a run whose command line is empty.
    fn default() -> (args: Args)
        ensures
            args.exporter == Exporter::Stdout,
            args.scheme@ == "http"@,
            args.host@ == "127.0.0.1"@,
            args.port is None,
            args.service_name@ == "trace-debug"@,
            args.tracer_name@ == "trace-debug"@,
            args.span_name@ == "debug-span"@,
            args.number == 0,
    {
        Args {
            exporter: Exporter::Stdout,
            scheme: String::from_str("http"),
            host: String::from_str("127.0.0.1"),
            port: None,
            service_name: String::from_str("trace-debug"),
            tracer_name: String::from_str("trace-debug"),
            span_name: String::from_str("debug-span"),
            number: 0,
        }
    }
}

} // verus!
