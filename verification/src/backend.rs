//! From resolved settings to the backend a run installs.

use crate::config::{Args, Exporter};
use crate::text::{decimal_text, push_decimal};
use vstd::prelude::*;
use vstd::string::*;

verus! {

/// One resource attribute: static metadata attached to every span of a run.
#[derive(Debug)]
pub struct Attribute {
    pub key: String,
    pub value: String,
}

/// How finished spans leave the process.
#[derive(Debug)]
pub enum Transport {
    /// Printed to standard output as each span ends.
    Console,
    /// Sent to a Jaeger agent at `host:port` as each span ends.
    JaegerAgent { host: String, port: u16 },
    /// Sent to an OTLP collector at `endpoint` as each span ends.
    Otlp { endpoint: String },
}

/// What to install for a run: the transport, and the one attribute that
/// makes up the resource of every backend.
#[derive(Debug)]
pub struct BackendPlan {
    pub transport: Transport,
    pub service: Attribute,
}

/// The address of an OTLP collector: `scheme://host:port`.
pub open spec fn endpoint_text(scheme: Seq<char>, host: Seq<char>, port: u16) -> Seq<char> {
    scheme + "://"@ + host + ":"@ + decimal_text(port as nat)
}

/// The attribute that names a service: `service.name`, with the name as its
/// value.
pub open spec fn is_service_attribute(attribute: Attribute, service_name: Seq<char>) -> bool {
    &&& attribute.key@ == "service.name"@
    &&& attribute.value@ == service_name
}

/// Whether a transport is the one that resolved settings ask for.
pub open spec fn is_transport_of(transport: Transport, args: &Args) -> bool {
    match args.exporter {
        Exporter::Stdout => transport is Console,
        Exporter::Jaeger => {
            &&& transport matches Transport::JaegerAgent { host, port }
            &&& host@ == args.host@
            &&& args.port == Some(port)
        },
        Exporter::Otlp => {
            &&& transport matches Transport::Otlp { endpoint }
            &&& args.port matches Some(port)
            &&& endpoint@ == endpoint_text(args.scheme@, args.host@, port)
        },
    }
}

/// Builds the address of an OTLP collector, `scheme://host:port`.
pub fn otlp_endpoint(scheme: &str, host: &str, port: u16) -> (endpoint: String)
    ensures
        endpoint@ == endpoint_text(scheme@, host@, port),
{
    let mut endpoint = String::from_str(scheme);
    endpoint.append("://");
    endpoint.append(host);
    endpoint.append(":");
    push_decimal(&mut endpoint, port);
    endpoint
}

/// Builds the attribute that names a service.
pub fn service_attribute(service_name: &str) -> (attribute: Attribute)
    ensures
        is_service_attribute(attribute, service_name@),
{
    Attribute { key: String::from_str("service.name"), value: String::from_str(service_name) }
}

/// Chooses the backend for resolved settings. Standard output needs no
/// address; a Jaeger agent is addressed by host and port; an OTLP collector by
/// `scheme://host:port`. Each reports the same resource: `service.name` alone.
pub fn select_backend(args: &Args) -> (plan: BackendPlan)
    requires
        args.resolved(),
    ensures
        is_transport_of(plan.transport, args),
        is_service_attribute(plan.service, args.service_name@),
{
    let transport = match args.exporter {
        Exporter::Stdout => Transport::Console,
        Exporter::Jaeger => Transport::JaegerAgent {
            host: args.host.clone(),
            port: args.port.unwrap(),
        },
        Exporter::Otlp => Transport::Otlp {
            endpoint: otlp_endpoint(args.scheme.as_str(), args.host.as_str(), args.port.unwrap()),
        },
    };
    BackendPlan { transport, service: service_attribute(args.service_name.as_str()) }
}

} // verus!
