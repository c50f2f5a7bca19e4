//! The outside end of the provider: exporter, resource and tracer provider, each built by one
//! call into the OpenTelemetry crates.

use opentelemetry::trace::TraceError;
use opentelemetry_otlp::{SpanExporter, WithExportConfig};
use opentelemetry_sdk::trace::SdkTracerProvider;
use opentelemetry_sdk::Resource;
use tokio::runtime::Handle;
use vstd::prelude::*;

use crate::ordmap::has_key;

verus! {

/// `opentelemetry::trace::TraceError`: why an exporter could not be built.
#[verifier::external_type_specification]
#[verifier::external_body]
pub struct ExTraceError(TraceError);

/// `opentelemetry_otlp::SpanExporter`, carried from its builder to the provider.
#[verifier::external_type_specification]
#[verifier::external_body]
pub struct ExSpanExporter(SpanExporter);

/// `opentelemetry_sdk::trace::SdkTracerProvider`, carried to whoever sends spans through it.
#[verifier::external_type_specification]
#[verifier::external_body]
pub struct ExTracerProvider(SdkTracerProvider);

/// `opentelemetry_sdk::Resource`: a set of attributes by key. See [`resource_contents`].
#[verifier::external_type_specification]
#[verifier::external_body]
pub struct ExResource(Resource);

/// `tokio::runtime::Handle`, carried from where it is found to where the exporter is built.
#[verifier::external_type_specification]
#[verifier::external_body]
pub struct ExHandle(Handle);

/// The attributes that a resource holds, each value as text.
pub uninterp spec fn resource_contents(resource: Resource) -> Map<Seq<char>, Seq<char>>;

/// The attributes that a provider puts on every span, each value as text.
pub uninterp spec fn provider_resource(provider: SdkTracerProvider) -> Map<Seq<char>, Seq<char>>;

/// The value of the last pair of `s` whose key is `k`.
pub open spec fn last_value<A, B>(s: Seq<(A, B)>, k: A) -> B
    decreases s.len(),
{
    if s.len() == 0 {
        arbitrary()
    } else if s.last().0 == k {
        s.last().1
    } else {
        last_value(s.drop_last(), k)
    }
}

/// `resource` holds every attribute of `attributes`; of several with one key, the last.
pub open spec fn holds_all(
    resource: Map<Seq<char>, Seq<char>>,
    attributes: Seq<(Seq<char>, Seq<char>)>,
) -> bool {
    forall|k: Seq<char>| #[trigger]
        has_key(attributes, k) ==> resource.contains_pair(k, last_value(attributes, k))
}

/// The texts of a vector of string pairs.
pub open spec fn text_pairs(pairs: Seq<(String, String)>) -> Seq<(Seq<char>, Seq<char>)> {
    pairs.map_values(|pair: (String, String)| (pair.0@, pair.1@))
}

/// `Resource::builder().with_attributes(..).build()`: a resource that holds the attributes
/// given, the last of several with one key. It also holds what the SDK detects in its
/// environment under other keys, of which nothing is said.
#[verifier::external_body]
pub(crate) fn build_resource(attributes: Vec<(String, String)>) -> (resource: Resource)
    ensures
        holds_all(resource_contents(resource), text_pairs(attributes@)),
{
    let pairs = attributes.into_iter().map(|(key, value)| opentelemetry::KeyValue::new(key, value));
    Resource::builder().with_attributes(pairs).build()
}

/// `resource` is what came of building one from that list of attributes.
pub closed spec fn came_of_attributes(
    attributes: Seq<(Seq<char>, Seq<char>)>,
    resource: Resource,
) -> bool {
    exists|given: Vec<(String, String)>|
        text_pairs(given@) == attributes && #[trigger] call_ensures(
            build_resource,
            (given,),
            resource,
        )
}

/// Where a resource came of a list of attributes, [`build_resource`] was called with that very
/// list, and returned it.
proof fn attributes_are_handed_over(
    attributes: Seq<(Seq<char>, Seq<char>)>,
    resource: Resource,
)
    requires
        came_of_attributes(attributes, resource),
    ensures
        exists|given: Vec<(String, String)>|
            text_pairs(given@) == attributes && #[trigger] call_ensures(
                build_resource,
                (given,),
                resource,
            ),
{
}

/// Calls `build`, and hands on what came of it.
fn ask_with<F: Fn(Vec<(String, String)>) -> Resource>(
    build: F,
    attributes: Vec<(String, String)>,
) -> (resource: Resource)
    requires
        call_requires(build, (attributes,)),
    ensures
        call_ensures(build, (attributes,), resource),
{
    build(attributes)
}

/// Asks for a resource with the attributes given.
pub(crate) fn ask_for_resource(attributes: Vec<(String, String)>) -> (resource: Resource)
    ensures
        came_of_attributes(text_pairs(attributes@), resource),
        holds_all(resource_contents(resource), text_pairs(attributes@)),
{
    let ghost list = text_pairs(attributes@);
    let resource = ask_with(build_resource, attributes);
    proof {
        attributes_are_handed_over(list, resource);
    }
    resource
}

/// An exporter, with what it was asked for.
pub struct OtlpExporter {
    exporter: SpanExporter,
    endpoint: String,
    timeout_ms: u64,
}

impl OtlpExporter {
    /// The endpoint and the timeout in milliseconds that the exporter was asked for.
    pub closed spec fn asked(self) -> (Seq<char>, u64) {
        (self.endpoint@, self.timeout_ms)
    }
}

/// `SpanExporter::builder().with_tonic()..build()`: a gRPC exporter for the endpoint and the
/// timeout given. Whether it can be built, and whether the process environment overrides the
/// two, is not said. The runtime is entered for the call, which panics outside of one.
#[verifier::external_body]
pub(crate) fn build_exporter(runtime: &Handle, endpoint: String, timeout_ms: u64) -> (built: Result<
    OtlpExporter,
    TraceError,
>)
    ensures
        built matches Ok(exporter) ==> exporter.asked() == (endpoint@, timeout_ms),
{
    let _entered = runtime.enter();
    let exporter = SpanExporter::builder()
        .with_tonic()
        .with_endpoint(endpoint.clone())
        .with_timeout(std::time::Duration::from_millis(timeout_ms))
        .build()?;
    Ok(OtlpExporter { exporter, endpoint, timeout_ms })
}

/// `built` is what came of asking for an exporter in that runtime, for that endpoint and with
/// that timeout.
pub closed spec fn came_of_asking(
    runtime: Handle,
    endpoint: Seq<char>,
    timeout_ms: u64,
    built: Result<OtlpExporter, TraceError>,
) -> bool {
    exists|given: String|
        given@ == endpoint && #[trigger] call_ensures(
            build_exporter,
            (&runtime, given, timeout_ms),
            built,
        )
}

/// Where something came of asking for an exporter, [`build_exporter`] was called with that very
/// runtime, endpoint and timeout, and returned it.
proof fn asking_is_a_call(
    runtime: Handle,
    endpoint: Seq<char>,
    timeout_ms: u64,
    built: Result<OtlpExporter, TraceError>,
)
    requires
        came_of_asking(runtime, endpoint, timeout_ms, built),
    ensures
        exists|given: String|
            given@ == endpoint && #[trigger] call_ensures(
                build_exporter,
                (&runtime, given, timeout_ms),
                built,
            ),
{
}

/// Calls `build`, and hands on what came of it.
fn ask<F: Fn(&Handle, String, u64) -> Result<OtlpExporter, TraceError>>(
    build: F,
    runtime: &Handle,
    endpoint: String,
    timeout_ms: u64,
) -> (built: Result<OtlpExporter, TraceError>)
    requires
        call_requires(build, (runtime, endpoint, timeout_ms)),
    ensures
        call_ensures(build, (runtime, endpoint, timeout_ms), built),
{
    build(runtime, endpoint, timeout_ms)
}

/// Asks for an exporter for the endpoint and the timeout given.
pub(crate) fn ask_for_exporter(runtime: &Handle, endpoint: String, timeout_ms: u64) -> (built: Result<
    OtlpExporter,
    TraceError,
>)
    ensures
        came_of_asking(*runtime, endpoint@, timeout_ms, built),
        built matches Ok(exporter) ==> exporter.asked() == (endpoint@, timeout_ms),
{
    let built = ask(build_exporter, runtime, endpoint, timeout_ms);
    proof {
        asking_is_a_call(*runtime, endpoint@, timeout_ms, built);
    }
    built
}

/// A running tracer provider, with what it was built from.
pub struct TracePipeline {
    provider: SdkTracerProvider,
    endpoint: String,
    timeout_ms: u64,
    resource: Resource,
}

/// What a [`TracePipeline`] consists of.
pub struct PipelineView {
    pub provider: SdkTracerProvider,
    pub endpoint: Seq<char>,
    pub timeout_ms: u64,
    pub resource: Map<Seq<char>, Seq<char>>,
}

impl View for TracePipeline {
    type V = PipelineView;

    closed spec fn view(&self) -> PipelineView {
        PipelineView {
            provider: self.provider,
            endpoint: self.endpoint@,
            timeout_ms: self.timeout_ms,
            resource: resource_contents(self.resource),
        }
    }
}

impl TracePipeline {
    /// The tracer provider.
    pub fn provider(&self) -> (provider: &SdkTracerProvider)
        ensures
            *provider == self@.provider,
    {
        &self.provider
    }

    /// The endpoint that the exporter was asked for.
    pub fn endpoint(&self) -> (endpoint: &str)
        ensures
            endpoint@ == self@.endpoint,
    {
        self.endpoint.as_str()
    }

    /// The timeout that the exporter was asked for.
    pub fn timeout_ms(&self) -> (timeout_ms: u64)
        ensures
            timeout_ms == self@.timeout_ms,
    {
        self.timeout_ms
    }

    /// The attributes that are put on every span.
    pub fn resource(&self) -> (resource: &Resource)
        ensures
            resource_contents(*resource) == self@.resource,
    {
        &self.resource
    }
}

/// `SdkTracerProvider::builder().with_batch_exporter(..).with_resource(..).build()`: a provider
/// that exports in batches through the exporter and stamps the resource on every span.
#[verifier::external_body]
pub(crate) fn start_provider(exporter: OtlpExporter, resource: Resource) -> (pipeline: TracePipeline)
    ensures
        (pipeline@.endpoint, pipeline@.timeout_ms) == exporter.asked(),
        pipeline@.resource == resource_contents(resource),
        provider_resource(pipeline@.provider) == resource_contents(resource),
{
    let OtlpExporter { exporter, endpoint, timeout_ms } = exporter;
    let provider = SdkTracerProvider::builder()
        .with_batch_exporter(exporter)
        .with_resource(resource.clone())
        .build();
    TracePipeline { provider, endpoint, timeout_ms, resource }
}

/// A resource that holds all of a list holds each of its pairs but those that a later pair with
/// the same key replaces.
pub proof fn last_pair_of_a_key_is_held(
    resource: Map<Seq<char>, Seq<char>>,
    attributes: Seq<(Seq<char>, Seq<char>)>,
    i: int,
)
    requires
        holds_all(resource, attributes),
        0 <= i < attributes.len(),
        forall|j: int| i < j < attributes.len() ==> (#[trigger] attributes[j]).0 != attributes[i].0,
    ensures
        resource.contains_pair(attributes[i].0, attributes[i].1),
{
    assert(attributes[i].0 == attributes[i].0);
    assert(has_key(attributes, attributes[i].0));
    last_value_is_the_last(attributes, i);
}

/// The last value of a key is that of the pair after which the key does not come again.
proof fn last_value_is_the_last<A, B>(s: Seq<(A, B)>, i: int)
    requires
        0 <= i < s.len(),
        forall|j: int| i < j < s.len() ==> (#[trigger] s[j]).0 != s[i].0,
    ensures
        last_value(s, s[i].0) == s[i].1,
    decreases s.len(),
{
    if i < s.len() - 1 {
        assert(s.last() == s[s.len() - 1]);
        assert forall|j: int| i < j < s.drop_last().len() implies (#[trigger] s.drop_last()[j]).0
            != s.drop_last()[i].0 by {
            assert(s.drop_last()[j] == s[j]);
        }
        last_value_is_the_last(s.drop_last(), i);
    }
}

/// The texts of a list of string pairs are those of its pairs, one for one.
pub proof fn texts_are_those_of_the_pairs(pairs: Seq<(String, String)>, i: int)
    requires
        0 <= i < pairs.len(),
    ensures
        text_pairs(pairs).len() == pairs.len(),
        text_pairs(pairs)[i].0 == pairs[i].0@,
        text_pairs(pairs)[i].1 == pairs[i].1@,
{
}

/// `pipeline` is what came of starting a provider with that exporter and that resource.
pub closed spec fn came_of_starting(
    exporter: OtlpExporter,
    resource: Resource,
    pipeline: TracePipeline,
) -> bool {
    call_ensures(start_provider, (exporter, resource), pipeline)
}

/// Where a pipeline came of an exporter and a resource, [`start_provider`] was called with those
/// two, and returned it.
proof fn starting_is_a_call(exporter: OtlpExporter, resource: Resource, pipeline: TracePipeline)
    requires
        came_of_starting(exporter, resource, pipeline),
    ensures
        call_ensures(start_provider, (exporter, resource), pipeline),
{
}

/// Calls `start`, and hands on what came of it.
fn start_with<F: Fn(OtlpExporter, Resource) -> TracePipeline>(
    start: F,
    exporter: OtlpExporter,
    resource: Resource,
) -> (pipeline: TracePipeline)
    requires
        call_requires(start, (exporter, resource)),
    ensures
        call_ensures(start, (exporter, resource), pipeline),
{
    start(exporter, resource)
}

/// Starts a provider with the exporter and the resource given.
pub(crate) fn start_pipeline(exporter: OtlpExporter, resource: Resource) -> (pipeline:
    TracePipeline)
    ensures
        came_of_starting(exporter, resource, pipeline),
        (pipeline@.endpoint, pipeline@.timeout_ms) == exporter.asked(),
        pipeline@.resource == resource_contents(resource),
        provider_resource(pipeline@.provider) == resource_contents(resource),
{
    let pipeline = start_with(start_provider, exporter, resource);
    proof {
        starting_is_a_call(exporter, resource, pipeline);
    }
    pipeline
}

/// The model of a pipeline says of each field what the field holds.
proof fn pipeline_is_seen_whole(pipeline: TracePipeline)
    ensures
        pipeline@.provider == pipeline.provider,
        pipeline@.endpoint == pipeline.endpoint@,
        pipeline@.timeout_ms == pipeline.timeout_ms,
        pipeline@.resource == resource_contents(pipeline.resource),
{
}

/// What an exporter was asked for is what it keeps of the request.
proof fn exporter_keeps_the_request(exporter: OtlpExporter)
    ensures
        exporter.asked().0 == exporter.endpoint@,
        exporter.asked().1 == exporter.timeout_ms,
{
}

} // verus!
