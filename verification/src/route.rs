//! The target router: per-channel minimum severities with a default rule,
//! and the pass/drop decision for an emitted event.

use vstd::prelude::*;

use crate::channel::Channel;
use crate::severity::SeverityLevel;

verus! {

/// The minimum severity that each channel requires before an event passes.
/// A channel without an override falls to the default minimum. Built once at
/// pipeline construction and never changed afterwards.
#[derive(Debug)]
pub struct RoutingRule {
    /// The minimum applied when no channel-specific override matches.
    pub default_min: SeverityLevel,
    /// Channel-specific overrides, earliest entry first.
    pub overrides: Vec<(Channel, SeverityLevel)>,
}

/// The first override for channel `c`, if any.
pub open spec fn lookup_override(ov: Seq<(Channel, SeverityLevel)>, c: Channel) -> Option<
    SeverityLevel,
>
    decreases ov.len(),
{
    if ov.len() == 0 {
        None
    } else if ov[0].0 == c {
        Some(ov[0].1)
    } else {
        lookup_override(ov.drop_first(), c)
    }
}

/// The overrides that keep operator-facing announcements visible: the info
/// channel passes at info urgency and the warn channel at warn urgency,
/// whatever the configured default minimum is.
pub open spec fn standard_overrides() -> Seq<(Channel, SeverityLevel)> {
    seq![(Channel::Info, SeverityLevel::Info), (Channel::Warn, SeverityLevel::Warn)]
}

impl RoutingRule {
    /// The minimum severity that channel `c` requires under this rule.
    pub open spec fn effective_min_spec(self, c: Channel) -> SeverityLevel {
        match lookup_override(self.overrides@, c) {
            Some(m) => m,
            None => self.default_min,
        }
    }

    /// An event on channel `c` at severity `sev` passes this rule exactly
    /// when it is at or above the channel's effective minimum.
    pub open spec fn passes_spec(self, c: Channel, sev: SeverityLevel) -> bool {
        sev.meets_spec(self.effective_min_spec(c))
    }

    /// The routing rule for a configured default minimum, with the standard
    /// channel overrides.
    pub fn for_level(min: SeverityLevel) -> (r: RoutingRule)
        ensures
            r.default_min == min,
            r.overrides@ == standard_overrides(),
    {
        let mut ov: Vec<(Channel, SeverityLevel)> = Vec::new();
        ov.push((Channel::Info, SeverityLevel::Info));
        ov.push((Channel::Warn, SeverityLevel::Warn));
        proof {
            assert(ov@ =~= standard_overrides());
        }
        RoutingRule { default_min: min, overrides: ov }
    }

    /// Looks up the minimum severity that channel `c` requires.
    pub fn effective_min(&self, c: Channel) -> (m: SeverityLevel)
        ensures
            m == self.effective_min_spec(c),
    {
        let mut i: usize = 0;
        while i < self.overrides.len()
            invariant
                i <= self.overrides@.len(),
                forall|j: int| 0 <= j < i ==> (#[trigger] self.overrides@[j]).0 != c,
            decreases self.overrides@.len() - i,
        {
            let (ch, m) = self.overrides[i];
            if ch == c {
                proof {
                    lemma_lookup_found(self.overrides@, c, i as int);
                }
                return m;
            }
            i += 1;
        }
        proof {
            lemma_lookup_missing(self.overrides@, c);
        }
        self.default_min
    }

    /// Decides whether an event on channel `c` at severity `sev` passes.
    pub fn passes(&self, c: Channel, sev: SeverityLevel) -> (r: bool)
        ensures
            r == self.passes_spec(c, sev),
    {
        let min = self.effective_min(c);
        sev.meets(min)
    }
}

/// When the first match for `c` stands at position `i`, the lookup returns
/// that entry's severity.
proof fn lemma_lookup_found(ov: Seq<(Channel, SeverityLevel)>, c: Channel, i: int)
    requires
        0 <= i < ov.len(),
        forall|j: int| 0 <= j < i ==> (#[trigger] ov[j]).0 != c,
        ov[i].0 == c,
    ensures
        lookup_override(ov, c) == Some(ov[i].1),
    decreases i,
{
    if i > 0 {
        lemma_lookup_found(ov.drop_first(), c, i - 1);
    }
}

/// When no entry matches `c`, the lookup returns nothing.
proof fn lemma_lookup_missing(ov: Seq<(Channel, SeverityLevel)>, c: Channel)
    requires
        forall|j: int| 0 <= j < ov.len() ==> (#[trigger] ov[j]).0 != c,
    ensures
        lookup_override(ov, c) is None,
    decreases ov.len(),
{
    if ov.len() > 0 {
        lemma_lookup_missing(ov.drop_first(), c);
    }
}

/// Law: under the standard overrides, an event on the warn channel at warn
/// severity passes, whatever default minimum is configured. The override is
/// independent of the configured minimum.
pub proof fn warn_override_is_independent(rule: RoutingRule)
    requires
        rule.overrides@ == standard_overrides(),
    ensures
        rule.passes_spec(Channel::Warn, SeverityLevel::Warn),
{
    let ov = standard_overrides();
    assert(lookup_override(ov.drop_first(), Channel::Warn) == Some(SeverityLevel::Warn));
    assert(lookup_override(ov, Channel::Warn) == Some(SeverityLevel::Warn));
}

/// Law: under the standard overrides, an event on the info channel at info
/// severity passes, whatever default minimum is configured.
pub proof fn info_override_is_independent(rule: RoutingRule)
    requires
        rule.overrides@ == standard_overrides(),
    ensures
        rule.passes_spec(Channel::Info, SeverityLevel::Info),
{
    let ov = standard_overrides();
    assert(lookup_override(ov, Channel::Info) == Some(SeverityLevel::Info));
}

/// Law: a channel without an override is governed by the configured default
/// minimum alone; under the standard overrides this holds of the default and
/// of the error channel.
pub proof fn default_channel_follows_minimum(rule: RoutingRule, c: Channel, sev: SeverityLevel)
    requires
        rule.overrides@ == standard_overrides(),
        c is Default || c is Error,
    ensures
        rule.passes_spec(c, sev) == sev.meets_spec(rule.default_min),
{
    let ov = standard_overrides();
    assert(lookup_override(ov.drop_first().drop_first(), c) is None);
    assert(lookup_override(ov.drop_first(), c) is None);
    assert(lookup_override(ov, c) is None);
}

} // verus!
