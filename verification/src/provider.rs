//! The tracer provider: what it is built from, and building it.

use opentelemetry::trace::TraceError;
use opentelemetry_sdk::Resource;
use tokio::runtime::Handle;
use vstd::prelude::*;
use vstd::string::to_string_from_display_ensures;

use crate::config::{ConfigView, OtlpSinkConfig};
use crate::pipeline::{ask_for_exporter, ask_for_resource, came_of_asking, came_of_attributes};
use crate::pipeline::{came_of_starting, holds_all, provider_resource, start_pipeline, text_pairs};
use crate::pipeline::{OtlpExporter, PipelineView, TracePipeline};

verus! {

/// The key of the service's name.
pub const SERVICE_NAME_KEY: &'static str = "service.name";

/// The key of the service's version.
pub const SERVICE_VERSION_KEY: &'static str = "service.version";

/// The attributes that the configuration asks to be put on every span: the service's name,
/// its version where there is one, then those that the operator declares, in key order.
pub open spec fn configured_attributes(config: ConfigView) -> Seq<(Seq<char>, Seq<char>)> {
    let name = seq![(SERVICE_NAME_KEY@, config.service_name)];
    let version = match config.service_version {
        Some(version) => seq![(SERVICE_VERSION_KEY@, version)],
        None => Seq::empty(),
    };
    name + version + config.resource_attributes
}

/// Lists the configured resource attributes.
pub fn resource_attributes(config: &OtlpSinkConfig) -> (list: Vec<(String, String)>)
    ensures
        text_pairs(list@) == configured_attributes(config@),
{
    let mut list: Vec<(String, String)> = Vec::new();
    list.push((SERVICE_NAME_KEY.to_owned(), config.service_name.clone()));
    if let Some(version) = &config.service_version {
        list.push((SERVICE_VERSION_KEY.to_owned(), version.clone()));
    }
    let ghost fixed = text_pairs(list@);
    let ghost declared = config.resource_attributes.pairs();
    let count = config.resource_attributes.len();
    let mut at: usize = 0;
    assert(fixed + declared.take(0) =~= fixed);
    while at < count
        invariant
            at <= count,
            count == declared.len(),
            declared == config.resource_attributes.pairs(),
            text_pairs(list@) == fixed + declared.take(at as int),
        decreases count - at,
    {
        let (key, value) = config.resource_attributes.entry(at);
        let ghost listed = list@;
        list.push((key.clone(), value.clone()));
        proof {
            assert(text_pairs(list@) =~= text_pairs(listed).push(declared[at as int]));
            assert(declared.take(at + 1) =~= declared.take(at as int).push(declared[at as int]));
        }
        at = at + 1;
    }
    assert(declared.take(count as int) =~= declared);
    assert(text_pairs(list@) =~= configured_attributes(config@));
    list
}

/// The pipeline is one that the configuration describes: its exporter was asked for the
/// configured endpoint and timeout, and its provider stamps the configured attributes.
pub open spec fn built_from(pipeline: PipelineView, config: ConfigView) -> bool {
    &&& pipeline.endpoint == config.url
    &&& pipeline.timeout_ms == config.batch_export_timeout_ms
    &&& holds_all(pipeline.resource, configured_attributes(config))
    &&& holds_all(provider_resource(pipeline.provider), configured_attributes(config))
}

/// What a failed build is reported with, ahead of the exporter's own words.
pub const BUILD_FAILURE_PREFIX: &'static str = "OTLP exporter build failed: ";

/// `message` reports `error`: the prefix, then the words in which the error displays itself.
pub open spec fn reports(message: Seq<char>, error: TraceError) -> bool {
    exists|text: String| #[trigger]
        to_string_from_display_ensures(&error, text) && message == BUILD_FAILURE_PREFIX@ + text@
}

/// `message` reports some failure of the exporter.
pub open spec fn is_build_failure(message: Seq<char>) -> bool {
    exists|error: TraceError| reports(message, error)
}

/// `settled` is what the build of a provider comes to, given what the build of its exporter
/// came to.
pub open spec fn settles(
    config: ConfigView,
    built: Result<OtlpExporter, TraceError>,
    settled: Result<TracePipeline, String>,
) -> bool {
    match built {
        Ok(exporter) => {
            &&& settled matches Ok(pipeline)
            &&& (pipeline@.endpoint, pipeline@.timeout_ms) == exporter.asked()
            &&& holds_all(pipeline@.resource, configured_attributes(config))
            &&& holds_all(provider_resource(pipeline@.provider), configured_attributes(config))
        },
        Err(error) => {
            &&& settled matches Err(message)
            &&& reports(message@, error)
        },
    }
}

/// `built` can be what came of asking for the configured exporter.
pub open spec fn answers(config: ConfigView, built: Result<OtlpExporter, TraceError>) -> bool {
    built matches Ok(exporter) ==> exporter.asked() == (
        config.url,
        config.batch_export_timeout_ms,
    )
}

/// Where a provider was started, it was with that exporter and with a resource built from the
/// configured attributes and no others.
pub open spec fn starts_as_configured(
    config: ConfigView,
    built: Result<OtlpExporter, TraceError>,
    settled: Result<TracePipeline, String>,
) -> bool {
    settled matches Ok(pipeline) ==> exists|resource: Resource| #[trigger]
        came_of_attributes(configured_attributes(config), resource) && built is Ok
            && came_of_starting(built->Ok_0, resource, pipeline)
}

/// `settled` is what building the configured provider in that runtime came to: what follows
/// from asking for an exporter for the configured endpoint and timeout.
pub open spec fn came_of_building(
    config: ConfigView,
    runtime: Handle,
    settled: Result<TracePipeline, String>,
) -> bool {
    exists|built: Result<OtlpExporter, TraceError>| #[trigger]
        came_of_asking(runtime, config.url, config.batch_export_timeout_ms, built) && answers(
            config,
            built,
        ) && settles(config, built, settled) && starts_as_configured(config, built, settled)
}

/// Goes on from the exporter, or from the failure to build one: starts a provider with the
/// configured attributes, or reports the error.
pub fn settle_provider(config: &OtlpSinkConfig, built: Result<OtlpExporter, TraceError>) -> (settled:
    Result<TracePipeline, String>)
    ensures
        settles(config@, built, settled),
        starts_as_configured(config@, built, settled),
{
    match built {
        Ok(exporter) => {
            let resource = ask_for_resource(resource_attributes(config));
            let ghost stamped = resource;
            let pipeline = start_pipeline(exporter, resource);
            assert(came_of_attributes(configured_attributes(config@), stamped));
            assert(came_of_starting(exporter, stamped, pipeline));
            Ok(pipeline)
        },
        Err(error) => {
            let text = error.to_string();
            let mut message: String = BUILD_FAILURE_PREFIX.to_owned();
            message.append(text.as_str());
            assert(to_string_from_display_ensures(&error, text));
            Err(message)
        },
    }
}

/// Builds the tracer provider that the configuration describes. It succeeds exactly where the
/// exporter can be built for the configured endpoint and timeout, which is for the exporter to
/// say.
pub fn build_provider(config: &OtlpSinkConfig, runtime: &Handle) -> (settled: Result<
    TracePipeline,
    String,
>)
    ensures
        exists|built: Result<OtlpExporter, TraceError>|
            answers(config@, built) && #[trigger] settles(config@, built, settled),
        came_of_building(config@, *runtime, settled),
        match settled {
            Ok(pipeline) => built_from(pipeline@, config@),
            Err(message) => is_build_failure(message@),
        },
{
    let built = ask_for_exporter(runtime, config.url.clone(), config.batch_export_timeout_ms);
    let ghost answer = built;
    let settled = settle_provider(config, built);
    assert(came_of_asking(*runtime, config@.url, config@.batch_export_timeout_ms, answer));
    assert(answers(config@, answer) && settles(config@, answer, settled));
    settled
}

/// The configured attributes are listed under their documented keys: the service's name first,
/// then its version where there is one, then the declared ones as they are listed.
pub proof fn configured_list_is_complete(config: OtlpSinkConfig, list: Seq<(String, String)>)
    requires
        text_pairs(list) == configured_attributes(config@),
    ensures
        list.len() == config.resource_attributes.pairs().len() + if config.service_version is Some {
            2int
        } else {
            1int
        },
        list[0].0@ == "service.name"@,
        list[0].1@ == config.service_name@,
        config.service_version matches Some(version) ==> list[1].0@ == "service.version"@
            && list[1].1@ == version@,
        forall|i: int|
            0 <= i < config.resource_attributes.pairs().len() ==> {
                let at = list.len() - config.resource_attributes.pairs().len() + i;
                &&& list[at].0@ == (#[trigger] config.resource_attributes.pairs()[i]).0
                &&& list[at].1@ == config.resource_attributes.pairs()[i].1
            },
{
    let all = configured_attributes(config@);
    let declared = config.resource_attributes.pairs();
    assert(list.len() == all.len());
    assert forall|i: int| 0 <= i < list.len() implies (#[trigger] list[i]).0@ == all[i].0
        && list[i].1@ == all[i].1 by {
        assert(text_pairs(list)[i] == (list[i].0@, list[i].1@));
    }
    assert forall|i: int| 0 <= i < declared.len() implies {
        let at = list.len() - declared.len() + i;
        &&& list[at].0@ == (#[trigger] declared[i]).0
        &&& list[at].1@ == declared[i].1
    } by {
        assert(all[all.len() - declared.len() + i] == declared[i]);
    }
}

/// A pipeline that the configuration describes goes to the configured endpoint, with the
/// configured timeout.
pub proof fn pipeline_goes_where_configured(pipeline: TracePipeline, config: OtlpSinkConfig)
    requires
        built_from(pipeline@, config@),
    ensures
        pipeline@.endpoint == config.url@,
        pipeline@.timeout_ms == config.batch_export_timeout_ms,
{
}

/// The exporter alone decides whether there is a provider. With one, the provider goes to the
/// endpoint and has the timeout that the exporter was asked for; without one, the report is
/// the fixed words and then those of the exporter's error.
pub proof fn exporter_decides(
    config: OtlpSinkConfig,
    built: Result<OtlpExporter, TraceError>,
    settled: Result<TracePipeline, String>,
)
    requires
        settles(config@, built, settled),
    ensures
        settled is Ok <==> built is Ok,
        built matches Ok(exporter) ==> settled matches Ok(pipeline) && pipeline@.endpoint
            == exporter.asked().0 && pipeline@.timeout_ms == exporter.asked().1,
        answers(config@, built) ==> (settled matches Ok(pipeline) ==> pipeline@.endpoint
            == config.url@ && pipeline@.timeout_ms == config.batch_export_timeout_ms),
        built matches Err(error) ==> settled matches Err(message) && exists|text: String| #[trigger]
            to_string_from_display_ensures(&error, text) && message@
                == "OTLP exporter build failed: "@ + text@,
{
}

/// Building a provider asks for an exporter in the runtime given, for the configured endpoint
/// and timeout, and succeeds exactly if that does; the provider is then started with that
/// exporter and with a resource built from the configured attributes and no others.
pub proof fn building_asks_for_what_is_configured(
    config: OtlpSinkConfig,
    runtime: Handle,
    settled: Result<TracePipeline, String>,
)
    requires
        came_of_building(config@, runtime, settled),
    ensures
        exists|built: Result<OtlpExporter, TraceError>| #[trigger]
            came_of_asking(runtime, config.url@, config.batch_export_timeout_ms, built) && (
            settled is Ok <==> built is Ok) && (settled is Ok ==> exists|resource: Resource|
                #[trigger]
                came_of_starting(built->Ok_0, resource, settled->Ok_0) && came_of_attributes(
                    configured_attributes(config@),
                    resource,
                )),
        settled matches Ok(pipeline) ==> built_from(pipeline@, config@),
        settled matches Err(message) ==> is_build_failure(message@),
{
    let built = choose|built: Result<OtlpExporter, TraceError>| #[trigger]
        came_of_asking(runtime, config@.url, config@.batch_export_timeout_ms, built) && answers(
            config@,
            built,
        ) && settles(config@, built, settled) && starts_as_configured(config@, built, settled);
    if settled is Ok {
        nothing_unconfigured_is_added(config@, built, settled);
    }
    assert(came_of_asking(runtime, config.url@, config.batch_export_timeout_ms, built));
}

/// A reported failure of the exporter is the fixed words and then those of some error.
pub proof fn failure_quotes_an_error(message: Seq<char>)
    requires
        is_build_failure(message),
    ensures
        exists|error: TraceError, text: String| #[trigger]
            to_string_from_display_ensures(&error, text) && message
                == "OTLP exporter build failed: "@ + text@,
{
}

/// A provider is started with the exporter that was built, and its resource is built from the
/// configured attributes and no others.
pub proof fn nothing_unconfigured_is_added(
    config: ConfigView,
    built: Result<OtlpExporter, TraceError>,
    settled: Result<TracePipeline, String>,
)
    requires
        starts_as_configured(config, built, settled),
        settled is Ok,
    ensures
        exists|exporter: OtlpExporter, resource: Resource| #[trigger]
            came_of_starting(exporter, resource, settled->Ok_0) && built == Ok::<
                OtlpExporter,
                TraceError,
            >(exporter) && came_of_attributes(configured_attributes(config), resource),
{
    let resource = choose|resource: Resource| #[trigger]
        came_of_attributes(configured_attributes(config), resource) && built is Ok
            && came_of_starting(built->Ok_0, resource, settled->Ok_0);
    assert(came_of_starting(built->Ok_0, resource, settled->Ok_0));
}

} // verus!
