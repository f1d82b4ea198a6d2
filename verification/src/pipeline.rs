//! The pipeline composer: the routing rule and the ordered sink list as one
//! dispatch pipeline, with the per-event delivery decision.

use vstd::prelude::*;

use crate::channel::Channel;
use crate::route::{standard_overrides, RoutingRule};
use crate::severity::SeverityLevel;
use crate::sink::{console_write, SinkConfig, SinkKind};

verus! {

/// The composed dispatch pipeline: the routing rule threaded through every
/// sink, and the sinks in construction order. Exactly one pipeline is meant
/// to be live per process; it is never mutated after composition.
#[derive(Debug)]
pub struct Pipeline {
    pub rule: RoutingRule,
    pub sinks: Vec<SinkConfig>,
}

impl Pipeline {
    /// Sink `i` receives an event on channel `c` at severity `sev` exactly
    /// when the router passes the event and the sink's own minimum takes it.
    /// An event dropped by the router reaches no sink at all.
    pub open spec fn delivers_spec(self, c: Channel, sev: SeverityLevel, i: int) -> bool {
        self.rule.passes_spec(c, sev) && self.sinks@[i].accepts_spec(sev)
    }

    /// Law: an event the router drops is delivered to no sink at all,
    /// whatever the sink's own minimum says.
    pub proof fn dropped_event_reaches_no_sink(self, c: Channel, sev: SeverityLevel, i: int)
        requires
            !self.rule.passes_spec(c, sev),
        ensures
            !self.delivers_spec(c, sev, i),
    {
    }

    /// Law: whether a sink receives an event depends only on the rule and
    /// on that sink's own configuration, never on the sink's position or on
    /// the other sinks; construction order cannot change a delivery
    /// decision.
    pub proof fn delivery_ignores_sink_order(
        self,
        other: Pipeline,
        c: Channel,
        sev: SeverityLevel,
        i: int,
        j: int,
    )
        requires
            self.rule == other.rule,
            0 <= i < self.sinks@.len(),
            0 <= j < other.sinks@.len(),
            self.sinks@[i] == other.sinks@[j],
        ensures
            self.delivers_spec(c, sev, i) == other.delivers_spec(c, sev, j),
    {
    }

    /// Composes the pipeline for a configured minimum severity: the routing
    /// rule with the standard overrides, and the sinks in the given order.
    pub fn compose(min: SeverityLevel, sinks: Vec<SinkConfig>) -> (p: Pipeline)
        ensures
            p.rule.default_min == min,
            p.rule.overrides@ == standard_overrides(),
            p.sinks@ == sinks@,
    {
        Pipeline { rule: RoutingRule::for_level(min), sinks }
    }

    /// Decides whether the router passes an event on channel `c` at
    /// severity `sev` to the sinks at all.
    pub fn decide(&self, c: Channel, sev: SeverityLevel) -> (r: bool)
        ensures
            r == self.rule.passes_spec(c, sev),
    {
        self.rule.passes(c, sev)
    }

    /// The delivery decision for each sink, in sink order: entry `i` says
    /// whether sink `i` receives the event.
    pub fn delivery_mask(&self, c: Channel, sev: SeverityLevel) -> (m: Vec<bool>)
        ensures
            m@.len() == self.sinks@.len(),
            forall|i: int| 0 <= i < m@.len() ==> m@[i] == self.delivers_spec(c, sev, i),
    {
        let passes = self.decide(c, sev);
        let mut m: Vec<bool> = Vec::new();
        let mut i: usize = 0;
        while i < self.sinks.len()
            invariant
                i <= self.sinks@.len(),
                m@.len() == i,
                passes == self.rule.passes_spec(c, sev),
                forall|j: int| 0 <= j < i ==> m@[j] == self.delivers_spec(c, sev, j),
            decreases self.sinks@.len() - i,
        {
            let takes = passes && self.sinks[i].accepts(sev);
            m.push(takes);
            i += 1;
        }
        m
    }

    /// Emits one event into the pipeline: decides delivery for every sink,
    /// writes the record to each console sink that receives it, and returns
    /// the per-sink delivery decision. Exporter and metrics sinks receive
    /// the event through the installed process-wide handle; a console write
    /// failure is never surfaced to the emitting caller.
    pub fn emit(&self, c: Channel, sev: SeverityLevel, message: &str) -> (m: Vec<bool>)
        ensures
            m@.len() == self.sinks@.len(),
            forall|i: int| 0 <= i < m@.len() ==> m@[i] == self.delivers_spec(c, sev, i),
    {
        let m = self.delivery_mask(c, sev);
        let mut i: usize = 0;
        while i < self.sinks.len()
            invariant
                m@.len() == self.sinks@.len(),
                i <= self.sinks@.len(),
                forall|j: int| 0 <= j < m@.len() ==> m@[j] == self.delivers_spec(c, sev, j),
            decreases self.sinks@.len() - i,
        {
            if m[i] {
                match &self.sinks[i].kind {
                    SinkKind::Console { ansi } => {
                        console_write(*ansi, sev.name(), c.tag(), message);
                    },
                    _ => {},
                }
            }
            i += 1;
        }
        m
    }
}

} // verus!
