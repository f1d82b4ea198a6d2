//! Sink adapters: the configuration of each output, and the console sink's
//! write path on the standard error stream.

use std::io::Write;
use vstd::prelude::*;

use crate::severity::SeverityLevel;

verus! {

/// How a trace collector receives span data: buffered and flushed in groups,
/// or each span exported on completion.
#[derive(Clone, Copy, Debug, PartialEq, Eq, Structural)]
pub enum DeliveryMode {
    /// Higher throughput; a bounded window of spans can be lost on a crash.
    Batched,
    /// Lower throughput; no batching loss window.
    Simple,
}

/// The kind of an output sink, with its adapter-specific parameters.
#[derive(Clone, Debug)]
pub enum SinkKind {
    /// Human-readable records on the process's standard error stream.
    /// `ansi` says whether the output target takes ANSI color escapes; it is
    /// decided once by a platform capability query, not per record.
    Console { ansi: bool },
    /// Span data forwarded to a remote trace collector.
    TraceCollector { endpoint: String, mode: DeliveryMode },
    /// Span data written to standard output for offline inspection.
    TraceStdout,
    /// Accumulated counters exposed for pull-based scraping.
    Metrics,
}

/// One entry per active output sink: its kind and its own minimum severity,
/// which stands independently of the routing rule.
#[derive(Clone, Debug)]
pub struct SinkConfig {
    pub kind: SinkKind,
    pub min: SeverityLevel,
}

impl SinkConfig {
    /// The sink takes an event exactly when the event is at or above the
    /// sink's own minimum severity.
    pub open spec fn accepts_spec(self, sev: SeverityLevel) -> bool {
        sev.meets_spec(self.min)
    }

    /// Decides whether the sink takes an event at severity `sev`.
    pub fn accepts(&self, sev: SeverityLevel) -> (r: bool)
        ensures
            r == self.accepts_spec(sev),
    {
        sev.meets(self.min)
    }

    /// A console sink configuration.
    pub fn console(ansi: bool, min: SeverityLevel) -> (s: SinkConfig)
        ensures
            s.kind == (SinkKind::Console { ansi }),
            s.min == min,
    {
        SinkConfig { kind: SinkKind::Console { ansi }, min }
    }

    /// A trace-collector sink configuration.
    pub fn trace_collector(endpoint: String, mode: DeliveryMode, min: SeverityLevel) -> (s:
        SinkConfig)
        ensures
            s.kind == (SinkKind::TraceCollector { endpoint, mode }),
            s.min == min,
    {
        SinkConfig { kind: SinkKind::TraceCollector { endpoint, mode }, min }
    }
}

/// Relies on std::io::stderr for the console sink: one record goes to the
/// process's standard error stream. A write failure is ignored: emission is
/// best effort and must never fail or block the emitting caller.
#[verifier::external_body]
pub(crate) fn console_write(ansi: bool, level_name: &str, tag: &str, message: &str) {
    if ansi {
        let _ = writeln!(
            std::io::stderr(),
            "\u{1b}[2m{}\u{1b}[0m {}: {}",
            tag,
            level_name,
            message,
        );
    } else {
        let _ = writeln!(std::io::stderr(), "{} {}: {}", tag, level_name, message);
    }
}

} // verus!
