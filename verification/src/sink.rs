//! The sink: pairs span starts with their ends and decides what becomes of them.

use opentelemetry_sdk::trace::SdkTracerProvider;
use tokio::runtime::Handle;
use vstd::prelude::*;

use crate::config::{default_config, opts_out, settle_config, strip, ConfigRefused, ConfigView};
use crate::config::{OtlpSinkConfig, REFUSAL_PREFIX};
use crate::convert::{assemble_span, epoch_plus_nanos, otel_kind, span_of, SpanRecord};
use crate::flush::{flush_plan, plan_flush, FlushPlan};
use crate::ordmap::OrdMap;
use crate::protocol::{LogRecord, MetricPoint, PluginClass, PluginManifest, SpanEnd, SpanKey};
use crate::protocol::{SpanEndView, SpanStart, SpanStartView};
use crate::pipeline::{PipelineView, TracePipeline};
use crate::provider::{build_provider, built_from, came_of_building, is_build_failure};

verus! {

/// Plugin id, by which operators name the sink in `observability.traces.sinks[].kind`.
pub const PLUGIN_ID: &'static str = "dev.mcpg.observability.otlp";

/// Version of the plugin.
pub const PLUGIN_VERSION: &'static str = "0.1.0";

/// Name of the plugin.
pub const PLUGIN_NAME: &'static str = "OpenTelemetry OTLP Exporter";

/// Version of the plugin protocol that the sink speaks.
pub const PROTOCOL_VERSION: &'static str = "1.0";

/// The crate in whose modules the plugin lives.
pub const MODULE_PATH_PREFIX: &'static str = "mcpg_plugin_observability_otlp";

/// The plugin descriptor.
pub const DESCRIPTOR_YAML: &'static str = "id: dev.mcpg.observability.otlp\n\
    name: OpenTelemetry OTLP Exporter\n\
    version: 0.1.0\n\
    class: telemetry_sink\n\
    runtime: native\n\
    license: Apache-2.0\n\
    capabilities:\n  - network_outbound\n";

/// The manifest names this plugin, a telemetry sink that lists nothing further.
pub open spec fn names_this_plugin(manifest: PluginManifest) -> bool {
    &&& manifest.id@ == PLUGIN_ID@
    &&& manifest.version@ == PLUGIN_VERSION@
    &&& manifest.name@ == PLUGIN_NAME@
    &&& manifest.plugin_class == PluginClass::TelemetrySink
    &&& manifest.protocol_version@ == PROTOCOL_VERSION@
    &&& manifest.license is None
    &&& manifest.required_capabilities@.len() == 0
    &&& manifest.tags@.len() == 0
    &&& manifest.provides@.len() == 0
    &&& manifest.provides_schemes@.len() == 0
    &&& manifest.module_path_prefix@ == MODULE_PATH_PREFIX@
    &&& manifest.backend_profile is None
}

/// Whether there is a provider, and if not, why.
#[derive(Debug)]
pub enum ProviderStatus {
    /// There is one.
    Ready,
    /// The configuration names no endpoint.
    MissingUrl,
    /// No tokio runtime was at hand.
    NoRuntime,
    /// The provider could not be built, for the reason given.
    BuildFailed(String),
}

/// What became of a span whose end arrived.
#[derive(Debug)]
pub enum SpanOutcome {
    /// The span is complete and goes to the exporter.
    Exported(SpanRecord),
    /// The end has no matching start.
    DroppedOrphan,
    /// There is no provider to export through, for the reason given.
    DroppedNoProvider(ProviderStatus),
}

impl SpanOutcome {
    /// Whether there was a provider for the span, and if not, why.
    pub open spec fn provider_status(self) -> ProviderStatus {
        match self {
            SpanOutcome::DroppedNoProvider(status) => status,
            _ => ProviderStatus::Ready,
        }
    }

    /// The `outcome` label of the span counter.
    pub open spec fn spec_label(self) -> Seq<char> {
        match self {
            SpanOutcome::Exported(_) => "exported"@,
            SpanOutcome::DroppedOrphan => "dropped_orphan"@,
            SpanOutcome::DroppedNoProvider(_) => "dropped_no_provider"@,
        }
    }

    /// The `outcome` label of the span counter.
    pub fn label(&self) -> (label: &'static str)
        ensures
            label@ == self.spec_label(),
    {
        match self {
            SpanOutcome::Exported(_) => "exported",
            SpanOutcome::DroppedOrphan => "dropped_orphan",
            SpanOutcome::DroppedNoProvider(_) => "dropped_no_provider",
        }
    }
}

/// Settles a span whose start and end have met, given whether there is a provider.
pub fn settle_span(start: &SpanStart, end: &SpanEnd, status: ProviderStatus) -> (outcome:
    SpanOutcome)
    ensures
        match status {
            ProviderStatus::Ready => {
                &&& outcome matches SpanOutcome::Exported(record)
                &&& record@ == span_of(start@, end@)
            },
            _ => outcome == SpanOutcome::DroppedNoProvider(status),
        },
{
    match status {
        ProviderStatus::Ready => SpanOutcome::Exported(assemble_span(start, end)),
        status => SpanOutcome::DroppedNoProvider(status),
    }
}

/// `Handle::try_current`: the tokio runtime that the calling thread is in, if it is in one.
#[verifier::external_body]
fn current_runtime() -> (runtime: Option<Handle>) {
    Handle::try_current().ok()
}

/// `runtime` is what the calling thread was found to be in when [`current_runtime`] was asked.
pub closed spec fn was_found(runtime: Option<Handle>) -> bool {
    call_ensures(current_runtime, (), runtime)
}

/// A runtime counts as found only where [`current_runtime`] returned it.
proof fn finding_is_a_call(runtime: Option<Handle>)
    requires
        was_found(runtime),
    ensures
        call_ensures(current_runtime, (), runtime),
{
}

/// Asks once, and hands on the answer.
fn ask<F: Fn() -> Option<Handle>>(question: F) -> (answer: Option<Handle>)
    requires
        call_requires(question, ()),
    ensures
        call_ensures(question, (), answer),
{
    question()
}

/// Pairs span starts with span ends, and holds the provider that spans are exported through.
pub struct OtlpSink {
    manifest: PluginManifest,
    config: OtlpSinkConfig,
    pipeline: Option<TracePipeline>,
    pending: OrdMap<SpanKey, SpanStart>,
}

/// The state of an [`OtlpSink`].
pub struct SinkView {
    pub manifest: PluginManifest,
    pub config: ConfigView,
    /// The provider, once there is one.
    pub pipeline: Option<PipelineView>,
    /// The starts that wait for their end, by trace id and span id.
    pub pending: Map<(Seq<char>, Seq<char>), SpanStartView>,
}

impl View for OtlpSink {
    type V = SinkView;

    closed spec fn view(&self) -> SinkView {
        SinkView {
            manifest: self.manifest,
            config: self.config@,
            pipeline: match self.pipeline {
                Some(pipeline) => Some(pipeline@),
                None => None,
            },
            pending: self.pending@,
        }
    }
}

impl SinkView {
    /// The state of a sink that has just been set up with `config`.
    pub open spec fn is_fresh(self, config: ConfigView) -> bool {
        &&& names_this_plugin(self.manifest)
        &&& self.config == config
        &&& self.pipeline is None
        &&& self.pending == Map::<(Seq<char>, Seq<char>), SpanStartView>::empty()
    }

    /// The state with another set of pending starts.
    pub open spec fn with_pending(
        self,
        pending: Map<(Seq<char>, Seq<char>), SpanStartView>,
    ) -> SinkView {
        SinkView { pending, ..self }
    }

    /// The state with another provider.
    pub open spec fn with_pipeline(self, pipeline: Option<PipelineView>) -> SinkView {
        SinkView { pipeline, ..self }
    }

    /// What looking for a provider can lead to. One that is there stays. Without one, an
    /// empty endpoint leaves the sink as it is; otherwise one that the configuration
    /// describes is put in place, or the sink is left as it is and the status says why.
    pub open spec fn after_ensuring(self, status: ProviderStatus, after: SinkView) -> bool {
        if self.pipeline is Some {
            status is Ready && after == self
        } else if self.config.url.len() == 0 {
            status is MissingUrl && after == self
        } else {
            match status {
                ProviderStatus::Ready => {
                    &&& after.pipeline is Some
                    &&& built_from(after.pipeline->0, self.config)
                    &&& after == self.with_pipeline(after.pipeline)
                },
                ProviderStatus::NoRuntime => after == self,
                ProviderStatus::BuildFailed(reason) => {
                    &&& after == self
                    &&& is_build_failure(reason@)
                },
                ProviderStatus::MissingUrl => false,
            }
        }
    }

    /// What looking for a provider comes to, where there is none and the configuration names an
    /// endpoint, given the runtime that the calling thread is in: outside of any, nothing; else
    /// what building the configured provider there came to.
    pub open spec fn ensured_in(
        self,
        runtime: Option<Handle>,
        status: ProviderStatus,
        after: SinkView,
    ) -> bool {
        self.pipeline is None && self.config.url.len() > 0 ==> match runtime {
            None => status is NoRuntime,
            Some(handle) => exists|settled: Result<TracePipeline, String>| #[trigger]
                came_of_building(self.config, handle, settled) && match settled {
                    Ok(pipeline) => status is Ready && after.pipeline == Some(pipeline@),
                    Err(reason) => status matches ProviderStatus::BuildFailed(told) && told@
                        == reason@,
                },
        }
    }

    /// What opening a span leads to: a provider is looked for, and the start waits under the
    /// span's key, in place of any other that waited there.
    pub open spec fn after_start(
        self,
        span: SpanStartView,
        status: ProviderStatus,
        after: SinkView,
    ) -> bool {
        &&& after.pending == self.pending.insert(span.key(), span)
        &&& self.after_ensuring(status, after.with_pending(self.pending))
    }

    /// What closing a span leads to. Without a matching start, nothing. With one, the start
    /// waits no longer, a provider is looked for, and if there is one the span is put together.
    pub open spec fn after_end(
        self,
        span: SpanEndView,
        outcome: SpanOutcome,
        after: SinkView,
    ) -> bool {
        if !self.pending.dom().contains(span.key()) {
            outcome is DroppedOrphan && after == self
        } else {
            let taken = self.with_pending(self.pending.remove(span.key()));
            match outcome {
                SpanOutcome::Exported(record) => {
                    &&& taken.after_ensuring(ProviderStatus::Ready, after)
                    &&& record@ == span_of(self.pending[span.key()], span)
                },
                SpanOutcome::DroppedNoProvider(status) => {
                    &&& taken.after_ensuring(status, after)
                    &&& !(status is Ready)
                },
                SpanOutcome::DroppedOrphan => false,
            }
        }
    }

    /// Every start waits under its own key, and the provider, once there is one, is one that
    /// the configuration describes.
    pub open spec fn is_consistent(self) -> bool {
        &&& forall|k: (Seq<char>, Seq<char>)| #[trigger]
            self.pending.dom().contains(k) ==> self.pending[k].key() == k
        &&& self.pipeline matches Some(pipeline) ==> built_from(pipeline, self.config)
    }
}

/// A signal that the sink receives and does not export.
#[derive(Debug)]
pub enum IgnoredSignal {
    Metric { name: String },
    Log { target: String, level: String },
}

impl OtlpSink {
    /// A sink for the operator's `config:` block, given what decoding the block came to. A
    /// block that holds no configuration yields the defaults; any other block that does not
    /// decode is refused.
    pub fn from_config_json(config_json: &str, decoded: Result<OtlpSinkConfig, String>) -> (sink:
        Result<OtlpSink, ConfigRefused>)
        ensures
            match sink {
                Ok(sink) => sink@.is_fresh(
                    if opts_out(config_json@) {
                        default_config()
                    } else {
                        decoded->Ok_0@
                    },
                ),
                Err(refused) => refused.message@ == REFUSAL_PREFIX@ + decoded->Err_0@,
            },
            sink is Err <==> !opts_out(config_json@) && decoded is Err,
            if strip(config_json@) == Seq::<char>::empty() || strip(config_json@) == "{}"@
                || strip(config_json@) == "null"@ {
                sink matches Ok(sink) && sink@.config == default_config()
            } else {
                match decoded {
                    Ok(given) => sink matches Ok(sink) && sink@.config == given@,
                    Err(reason) => sink matches Err(refused) && refused.message@
                        == REFUSAL_PREFIX@ + reason@,
                }
            },
    {
        match settle_config(config_json, decoded) {
            Ok(config) => Ok(OtlpSink::with_config(config)),
            Err(refused) => Err(refused),
        }
    }

    /// A sink with the given configuration, no provider yet and no span pending.
    pub fn with_config(config: OtlpSinkConfig) -> (sink: OtlpSink)
        ensures
            sink@.is_fresh(config@),
    {
        OtlpSink {
            manifest: PluginManifest {
                id: PLUGIN_ID.to_owned(),
                version: PLUGIN_VERSION.to_owned(),
                name: PLUGIN_NAME.to_owned(),
                plugin_class: PluginClass::TelemetrySink,
                protocol_version: PROTOCOL_VERSION.to_owned(),
                license: None,
                required_capabilities: Vec::new(),
                tags: Vec::new(),
                provides: Vec::new(),
                provides_schemes: Vec::new(),
                module_path_prefix: MODULE_PATH_PREFIX.to_owned(),
                backend_profile: None,
            },
            config,
            pipeline: None,
            pending: OrdMap::new(),
        }
    }

    /// What the sink says of itself.
    pub fn manifest(&self) -> (manifest: &PluginManifest)
        ensures
            *manifest == self@.manifest,
    {
        &self.manifest
    }

    /// The configuration.
    pub fn config(&self) -> (config: &OtlpSinkConfig)
        ensures
            config@ == self@.config,
    {
        &self.config
    }

    /// The provider with what it was built from, once there is one.
    pub fn pipeline(&self) -> (pipeline: Option<&TracePipeline>)
        ensures
            match pipeline {
                Some(p) => self@.pipeline == Some(p@),
                None => self@.pipeline is None,
            },
    {
        self.pipeline.as_ref()
    }

    /// The number of starts that wait for their end.
    pub fn pending_count(&self) -> (count: usize)
        ensures
            count == self@.pending.len(),
            self@.pending.dom().finite(),
    {
        self.pending.len()
    }

    /// Takes over what building a provider came to, unless there is one already.
    pub fn adopt_provider(&mut self, built: Result<TracePipeline, String>) -> (status:
        ProviderStatus)
        requires
            built matches Ok(pipeline) ==> built_from(pipeline@, old(self)@.config),
        ensures
            if old(self)@.pipeline is Some {
                status is Ready && final(self)@ == old(self)@
            } else {
                match built {
                    Ok(pipeline) => {
                        &&& status is Ready
                        &&& final(self)@ == old(self)@.with_pipeline(Some(pipeline@))
                    },
                    Err(reason) => {
                        &&& status matches ProviderStatus::BuildFailed(told)
                        &&& told@ == reason@
                        &&& final(self)@ == old(self)@
                    },
                }
            },
    {
        if self.pipeline.is_some() {
            return ProviderStatus::Ready;
        }
        match built {
            Ok(pipeline) => {
                self.pipeline = Some(pipeline);
                ProviderStatus::Ready
            },
            Err(reason) => ProviderStatus::BuildFailed(reason),
        }
    }

    /// Looks for a provider in the runtime given, and builds one where there is none yet.
    pub fn ensure_provider_in(&mut self, runtime: Option<Handle>) -> (status: ProviderStatus)
        ensures
            old(self)@.after_ensuring(status, final(self)@),
            old(self)@.pipeline is None && old(self)@.config.url.len() > 0 ==> (runtime is None
                <==> status is NoRuntime),
            old(self)@.ensured_in(runtime, status, final(self)@),
    {
        if self.pipeline.is_some() {
            return ProviderStatus::Ready;
        }
        if self.config.url.as_str().is_empty() {
            return ProviderStatus::MissingUrl;
        }
        match runtime {
            None => ProviderStatus::NoRuntime,
            Some(runtime) => {
                let built = build_provider(&self.config, &runtime);
                assert(came_of_building(self@.config, runtime, built));
                self.adopt_provider(built)
            },
        }
    }

    /// Looks for a provider, and builds one on first use, in the runtime that the calling thread
    /// is found to be in. Outside of any there is none for want of a runtime, whatever else the
    /// configuration says.
    pub fn ensure_provider(&mut self) -> (status: ProviderStatus)
        ensures
            old(self)@.after_ensuring(status, final(self)@),
            exists|runtime: Option<Handle>| #[trigger]
                was_found(runtime) && (old(self)@.pipeline is None && old(self)@.config.url.len()
                    > 0 ==> (runtime is None <==> status is NoRuntime)) && old(self)@.ensured_in(
                    runtime,
                    status,
                    final(self)@,
                ),
    {
        let runtime = ask(current_runtime);
        let ghost found = runtime;
        let status = self.ensure_provider_in(runtime);
        proof {
            assert(was_found(found));
            finding_is_a_call(found);
        }
        status
    }

    /// A span was opened: keeps its start until its end arrives. Looks for a provider first,
    /// so that a misconfiguration is noticed early.
    pub fn span_started(&mut self, span: &SpanStart) -> (status: ProviderStatus)
        ensures
            old(self)@.after_start(span@, status, final(self)@),
            final(self)@.pending == old(self)@.pending.insert(
                (span.trace_id@, span.span_id@),
                span@,
            ),
            exists|runtime: Option<Handle>| #[trigger]
                was_found(runtime) && (old(self)@.pipeline is None && old(self)@.config.url.len()
                    > 0 ==> (runtime is None <==> status is NoRuntime)) && old(self)@.ensured_in(
                    runtime,
                    status,
                    final(self)@,
                ),
    {
        let status = self.ensure_provider();
        let key = SpanKey { trace_id: span.trace_id.clone(), span_id: span.span_id.clone() };
        self.pending.insert(key, span.clone());
        status
    }

    /// A span was closed: takes the matching start and puts the span together, if there is a
    /// provider to export it through.
    pub fn span_ended(&mut self, span: &SpanEnd) -> (outcome: SpanOutcome)
        ensures
            old(self)@.after_end(span@, outcome, final(self)@),
            final(self)@.pending == old(self)@.pending.remove((span.trace_id@, span.span_id@)),
            outcome is DroppedOrphan <==> !old(self)@.pending.dom().contains(
                (span.trace_id@, span.span_id@),
            ),
            outcome matches SpanOutcome::Exported(record) ==> {
                let start = old(self)@.pending[(span.trace_id@, span.span_id@)];
                &&& record.name@ == start.name
                &&& record.kind == otel_kind(start.kind)
                &&& record.start_time == epoch_plus_nanos(start.start_ns)
                &&& record.end_time == epoch_plus_nanos(span.end_ns)
                &&& record.status@ == span.status@
            },
            !(outcome is DroppedOrphan) ==> exists|runtime: Option<Handle>| #[trigger]
                was_found(runtime) && (old(self)@.pipeline is None && old(self)@.config.url.len()
                    > 0 ==> (runtime is None <==> outcome == SpanOutcome::DroppedNoProvider(
                    ProviderStatus::NoRuntime,
                ))) && old(self)@.ensured_in(runtime, outcome.provider_status(), final(self)@),
    {
        let key = SpanKey { trace_id: span.trace_id.clone(), span_id: span.span_id.clone() };
        let start = match self.pending.remove(&key) {
            Some(start) => start,
            None => {
                assert(self@.pending =~= old(self)@.pending);
                return SpanOutcome::DroppedOrphan;
            },
        };
        let status = self.ensure_provider();
        settle_span(&start, span, status)
    }

    /// A metric was recorded. It is not exported; the sink stays as it is.
    pub fn metric_recorded(&self, metric: &MetricPoint) -> (ignored: IgnoredSignal)
        ensures
            ignored matches IgnoredSignal::Metric { name } && name@ == metric.name@,
    {
        IgnoredSignal::Metric { name: metric.name.clone() }
    }

    /// A log line was recorded. It is not exported; the sink stays as it is.
    pub fn log_recorded(&self, record: &LogRecord) -> (ignored: IgnoredSignal)
        ensures
            ignored matches IgnoredSignal::Log { target, level } && target@ == record.target@
                && level@ == record.level@,
    {
        IgnoredSignal::Log { target: record.target.clone(), level: record.level.clone() }
    }

    /// What a flush with the given timeout asks of the caller.
    pub fn flush(&self, timeout_ms: u64) -> (plan: FlushPlan)
        ensures
            plan == flush_plan(self@.pipeline is Some, timeout_ms),
    {
        plan_flush(self.pipeline.is_some(), timeout_ms)
    }

    /// The provider that a shutdown has to stop, if one was ever started.
    pub fn shutdown(&self) -> (provider: Option<&SdkTracerProvider>)
        ensures
            match provider {
                Some(p) => self@.pipeline is Some && *p == self@.pipeline->0.provider,
                None => self@.pipeline is None,
            },
    {
        match &self.pipeline {
            Some(pipeline) => Some(pipeline.provider()),
            None => None,
        }
    }
}

/// The manifest names the plugin by the id that operators write and by its documented name and
/// version, and claims nothing beyond being a telemetry sink.
pub proof fn manifest_is_as_documented(manifest: PluginManifest)
    requires
        names_this_plugin(manifest),
    ensures
        manifest.id@ == "dev.mcpg.observability.otlp"@,
        manifest.version@ == "0.1.0"@,
        manifest.name@ == "OpenTelemetry OTLP Exporter"@,
        manifest.plugin_class is TelemetrySink,
        manifest.protocol_version@ == "1.0"@,
        manifest.module_path_prefix@ == "mcpg_plugin_observability_otlp"@,
        manifest.license is None,
        manifest.backend_profile is None,
        manifest.required_capabilities@.len() == 0,
        manifest.tags@.len() == 0,
        manifest.provides@.len() == 0,
        manifest.provides_schemes@.len() == 0,
{
}

/// The descriptor gives the id, the name and the version that the manifest gives.
pub proof fn descriptor_agrees_with_the_manifest(manifest: PluginManifest)
    requires
        names_this_plugin(manifest),
    ensures
        DESCRIPTOR_YAML@ == "id: "@ + manifest.id@ + "\nname: "@ + manifest.name@
            + "\nversion: "@ + manifest.version@
            + "\nclass: telemetry_sink\nruntime: native\nlicense: Apache-2.0\ncapabilities:\n  - network_outbound\n"@,
{
    reveal_strlit("id: ");
    reveal_strlit("\nname: ");
    reveal_strlit("\nversion: ");
    reveal_strlit("dev.mcpg.observability.otlp");
    reveal_strlit("OpenTelemetry OTLP Exporter");
    reveal_strlit("0.1.0");
    reveal_strlit(
        "\nclass: telemetry_sink\nruntime: native\nlicense: Apache-2.0\ncapabilities:\n  - network_outbound\n",
    );
    reveal_strlit(
        "id: dev.mcpg.observability.otlp\nname: OpenTelemetry OTLP Exporter\nversion: 0.1.0\nclass: telemetry_sink\nruntime: native\nlicense: Apache-2.0\ncapabilities:\n  - network_outbound\n",
    );
}

/// The model of a sink says of each field what the field holds.
proof fn sink_is_seen_whole(sink: OtlpSink)
    ensures
        sink@.manifest == sink.manifest,
        sink@.config == sink.config@,
        sink@.pipeline is Some <==> sink.pipeline is Some,
        sink.pipeline matches Some(pipeline) ==> sink@.pipeline->0 == pipeline@,
        sink@.pending == sink.pending@,
{
}

} // verus!
