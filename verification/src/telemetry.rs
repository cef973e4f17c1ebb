//! What telemetry a configuration asks for, and whether this build can give
//! it. Installing the exporters is left to the program; here it is decided
//! which ones, and which configurations are refused.

use vstd::prelude::*;
use vstd::string::*;

verus! {

/// A way of passing the tracing context on between services.
#[derive(Clone, Copy, Debug, PartialEq, Eq, Structural)]
pub enum Propagator {
    TraceContext,
    Baggage,
    Jaeger,
    B3,
    B3Multi,
}

/// The propagators that this build knows how to set up.
#[derive(Clone, Copy, Debug, PartialEq, Eq, Structural)]
pub enum SupportedPropagator {
    TraceContext,
    Baggage,
}

/// Where traces are exported to.
#[derive(Clone, Debug, PartialEq, Eq)]
pub enum TracingExporterConfig {
    /// Export no traces.
    Disabled,
    /// Print traces to the standard output.
    Stdout,
    /// Send over OTLP, to `endpoint` if one is given.
    Otlp { endpoint: Option<String> },
}

/// Where metrics are exported to.
#[derive(Clone, Debug, PartialEq, Eq)]
pub enum MetricsExporterConfig {
    /// Export no metrics.
    Disabled,
    /// Print metrics to the standard output.
    Stdout,
    /// Send over OTLP, to `endpoint` if one is given.
    Otlp { endpoint: Option<String> },
}

/// The exporter to install.
#[derive(Clone, Debug, PartialEq, Eq)]
pub enum Exporter {
    /// Export nothing.
    Disabled,
    /// Print to the standard output.
    Stdout,
    /// Send over OTLP, to `endpoint` if one is given.
    Otlp { endpoint: Option<String> },
}

/// A configuration that this build cannot serve.
#[derive(Clone, Copy, Debug, PartialEq, Eq, Structural)]
pub enum TelemetryError {
    /// The configuration names a propagator that the build has no support for.
    UnsupportedPropagator { propagator: Propagator },
    /// Traces are to be exported via OTLP, which the build has no support for.
    TracesWithoutOtlp,
    /// Metrics are to be exported via OTLP, which the build has no support for.
    MetricsWithoutOtlp,
}

/// The propagators that can be set up.
pub open spec fn is_supported(propagator: Propagator) -> bool {
    propagator is TraceContext || propagator is Baggage
}

/// A supported propagator, as the one to set up.
pub open spec fn supported(propagator: Propagator) -> SupportedPropagator {
    if propagator is Baggage {
        SupportedPropagator::Baggage
    } else {
        SupportedPropagator::TraceContext
    }
}

/// The name of a propagator, as it is printed.
pub open spec fn propagator_name(propagator: Propagator) -> Seq<char> {
    match propagator {
        Propagator::TraceContext => "TraceContext"@,
        Propagator::Baggage => "Baggage"@,
        Propagator::Jaeger => "Jaeger"@,
        Propagator::B3 => "B3"@,
        Propagator::B3Multi => "B3Multi"@,
    }
}

impl TracingExporterConfig {
    /// The exporter for traces: the one that is configured, unless it needs
    /// OTLP and the build has no support for it.
    pub open spec fn tracer_spec(self, otlp_support: bool) -> Result<Exporter, TelemetryError> {
        match self {
            TracingExporterConfig::Disabled => Ok(Exporter::Disabled),
            TracingExporterConfig::Stdout => Ok(Exporter::Stdout),
            TracingExporterConfig::Otlp { endpoint } => if otlp_support {
                Ok(Exporter::Otlp { endpoint })
            } else {
                Err(TelemetryError::TracesWithoutOtlp)
            },
        }
    }
}

impl MetricsExporterConfig {
    /// The exporter for metrics: the one that is configured, unless it needs
    /// OTLP and the build has no support for it.
    pub open spec fn meter_spec(self, otlp_support: bool) -> Result<Exporter, TelemetryError> {
        match self {
            MetricsExporterConfig::Disabled => Ok(Exporter::Disabled),
            MetricsExporterConfig::Stdout => Ok(Exporter::Stdout),
            MetricsExporterConfig::Otlp { endpoint } => if otlp_support {
                Ok(Exporter::Otlp { endpoint })
            } else {
                Err(TelemetryError::MetricsWithoutOtlp)
            },
        }
    }
}

impl TelemetryError {
    /// What to tell the operator.
    pub open spec fn message_spec(self) -> Seq<char> {
        match self {
            TelemetryError::UnsupportedPropagator { propagator } => {
                "The service was compiled without support for the "@ + propagator_name(propagator)
                    + " propagator, but config uses it."@
            },
            TelemetryError::TracesWithoutOtlp => {
                "The service was compiled without OTLP exporter support, but config exports traces via OTLP."@
            },
            TelemetryError::MetricsWithoutOtlp => {
                "The service was compiled without OTLP exporter support, but config exports metrics via OTLP."@
            },
        }
    }

    /// What to tell the operator.
    pub fn message(&self) -> (text: String)
        ensures
            text@ == self.message_spec(),
    {
        match self {
            TelemetryError::UnsupportedPropagator { propagator } => {
                let name = match propagator {
                    Propagator::TraceContext => "TraceContext",
                    Propagator::Baggage => "Baggage",
                    Propagator::Jaeger => "Jaeger",
                    Propagator::B3 => "B3",
                    Propagator::B3Multi => "B3Multi",
                };
                let mut text = "The service was compiled without support for the ".to_owned();
                text.append(name);
                text.append(" propagator, but config uses it.");
                text
            },
            TelemetryError::TracesWithoutOtlp => {
                "The service was compiled without OTLP exporter support, but config exports traces via OTLP.".to_owned()
            },
            TelemetryError::MetricsWithoutOtlp => {
                "The service was compiled without OTLP exporter support, but config exports metrics via OTLP.".to_owned()
            },
        }
    }
}

/// Whether a propagator can be set up, and as which.
pub fn match_propagator(propagator: Propagator) -> (r: Result<SupportedPropagator, TelemetryError>)
    ensures
        r == if is_supported(propagator) {
            Ok::<SupportedPropagator, TelemetryError>(supported(propagator))
        } else {
            Err::<SupportedPropagator, TelemetryError>(
                TelemetryError::UnsupportedPropagator { propagator },
            )
        },
{
    match propagator {
        Propagator::TraceContext => Ok(SupportedPropagator::TraceContext),
        Propagator::Baggage => Ok(SupportedPropagator::Baggage),
        p => Err(TelemetryError::UnsupportedPropagator { propagator: p }),
    }
}

/// The propagators to compose, in the order of the configuration. The first
/// one that the build has no support for is refused, and with it the whole
/// list.
pub fn propagator(propagators: &[Propagator]) -> (r: Result<
    Vec<SupportedPropagator>,
    TelemetryError,
>)
    ensures
        match r {
            Ok(list) => {
                &&& list@.len() == propagators@.len()
                &&& forall|i: int|
                    0 <= i < propagators@.len() ==> is_supported(#[trigger] propagators@[i])
                        && list@[i] == supported(propagators@[i])
            },
            Err(refusal) => exists|i: int|
                {
                    &&& 0 <= i < propagators@.len()
                    &&& !is_supported(#[trigger] propagators@[i])
                    &&& refusal == (TelemetryError::UnsupportedPropagator {
                        propagator: propagators@[i],
                    })
                    &&& forall|j: int| 0 <= j < i ==> is_supported(#[trigger] propagators@[j])
                },
        },
{
    let n = propagators.len();
    let mut list: Vec<SupportedPropagator> = Vec::new();
    let mut i: usize = 0;
    while i < n
        invariant
            n == propagators@.len(),
            i <= n,
            list@.len() == i,
            forall|k: int|
                0 <= k < i ==> is_supported(#[trigger] propagators@[k]) && list@[k] == supported(
                    propagators@[k],
                ),
        decreases n - i,
    {
        match match_propagator(propagators[i]) {
            Ok(known) => {
                list.push(known);
            },
            Err(refusal) => {
                assert(!is_supported(propagators@[i as int]));
                return Err(refusal);
            },
        }
        i = i + 1;
    }
    Ok(list)
}

/// The exporter to install for traces. `otlp_support` says whether the build
/// can export via OTLP.
pub fn tracer(config: &TracingExporterConfig, otlp_support: bool) -> (r: Result<
    Exporter,
    TelemetryError,
>)
    ensures
        r == config.tracer_spec(otlp_support),
{
    match config {
        TracingExporterConfig::Disabled => Ok(Exporter::Disabled),
        TracingExporterConfig::Stdout => Ok(Exporter::Stdout),
        TracingExporterConfig::Otlp { endpoint } => {
            if otlp_support {
                Ok(Exporter::Otlp { endpoint: endpoint.clone() })
            } else {
                Err(TelemetryError::TracesWithoutOtlp)
            }
        },
    }
}

/// The exporter to install for metrics. `otlp_support` says whether the
/// build can export via OTLP.
pub fn meter(config: &MetricsExporterConfig, otlp_support: bool) -> (r: Result<
    Exporter,
    TelemetryError,
>)
    ensures
        r == config.meter_spec(otlp_support),
{
    match config {
        MetricsExporterConfig::Disabled => Ok(Exporter::Disabled),
        MetricsExporterConfig::Stdout => Ok(Exporter::Stdout),
        MetricsExporterConfig::Otlp { endpoint } => {
            if otlp_support {
                Ok(Exporter::Otlp { endpoint: endpoint.clone() })
            } else {
                Err(TelemetryError::MetricsWithoutOtlp)
            }
        },
    }
}

} // verus!
