//! The routing rule realized as a target filter of tracing-subscriber, and
//! the checked agreement between the realized filter and the router.

use vstd::prelude::*;

use crate::channel::Channel;
use crate::route::{lookup_override, standard_overrides, RoutingRule};
use crate::severity::SeverityLevel;

verus! {

#[verifier::external_type_specification]
#[verifier::external_body]
pub struct ExTargets(tracing_subscriber::filter::Targets);

#[verifier::external_type_specification]
#[verifier::external_body]
pub struct ExLevel(tracing::Level);

#[verifier::external_type_specification]
#[verifier::external_body]
pub struct ExLevelFilter(tracing::level_filters::LevelFilter);

/// The per-target entries a filter holds: target prefix to admitted rank,
/// in the library's severity order (0 the most urgent).
pub uninterp spec fn targets_entries(t: tracing_subscriber::filter::Targets) -> Map<
    Seq<char>,
    nat,
>;

/// The filter's default entry: the rank admitted for targets that no entry
/// prefixes, if a default was set.
pub uninterp spec fn targets_fallback(t: tracing_subscriber::filter::Targets) -> Option<nat>;

/// The rank of a tracing level, in the library's severity order.
pub uninterp spec fn level_rank(l: tracing::Level) -> nat;

/// The rank up to which a tracing level filter admits events. Every level
/// filter has a rank under this reading: the five level-named filters rank
/// from 0 (error) to 4 (trace), and the off filter, which admits no event
/// at all, stands above every level's rank. The wrappers below produce and
/// promise only ranks at or below trace, so an off entry never claims to
/// admit anything.
pub uninterp spec fn filter_rank(f: tracing::level_filters::LevelFilter) -> nat;

/// `prefix` is a string prefix of `target`.
pub open spec fn is_prefix_of(prefix: Seq<char>, target: Seq<char>) -> bool {
    prefix.len() <= target.len() && target.subrange(0, prefix.len() as int) == prefix
}

/// Relies on tracing's level constants: one constant per severity, ordered
/// from error, the least verbose, to trace, the most verbose.
#[verifier::external_body]
fn level_of_severity(sev: SeverityLevel) -> (l: tracing::Level)
    ensures
        level_rank(l) == sev.rank(),
{
    match sev {
        SeverityLevel::Error => tracing::Level::ERROR,
        SeverityLevel::Warn => tracing::Level::WARN,
        SeverityLevel::Info => tracing::Level::INFO,
        SeverityLevel::Debug => tracing::Level::DEBUG,
        SeverityLevel::Trace => tracing::Level::TRACE,
    }
}

/// Relies on tracing's level filter constants: one constant per severity;
/// a filter admits exactly the levels at or above its own severity.
#[verifier::external_body]
fn filter_of_severity(sev: SeverityLevel) -> (f: tracing::level_filters::LevelFilter)
    ensures
        filter_rank(f) == sev.rank(),
{
    match sev {
        SeverityLevel::Error => tracing::level_filters::LevelFilter::ERROR,
        SeverityLevel::Warn => tracing::level_filters::LevelFilter::WARN,
        SeverityLevel::Info => tracing::level_filters::LevelFilter::INFO,
        SeverityLevel::Debug => tracing::level_filters::LevelFilter::DEBUG,
        SeverityLevel::Trace => tracing::level_filters::LevelFilter::TRACE,
    }
}

/// The filter holds no target entries at all.
pub open spec fn has_no_entries(t: tracing_subscriber::filter::Targets) -> bool {
    targets_entries(t) == Map::<Seq<char>, nat>::empty()
}

/// Relies on Targets::new: the fresh filter holds no target entries and no
/// default entry.
#[verifier::external_body]
fn targets_new() -> (t: tracing_subscriber::filter::Targets)
    ensures
        has_no_entries(t),
        targets_fallback(t) is None,
{
    tracing_subscriber::filter::Targets::new()
}

/// Relies on Targets::with_default: sets the level admitted for targets
/// that match no configured prefix, and keeps the target entries. Takes no
/// off filter, so the fallback rank stays at or below trace.
#[verifier::external_body]
fn targets_with_default(
    t: tracing_subscriber::filter::Targets,
    f: tracing::level_filters::LevelFilter,
) -> (r: tracing_subscriber::filter::Targets)
    requires
        filter_rank(f) <= 4,
    ensures
        targets_entries(r) == targets_entries(t),
        targets_fallback(r) == Some(filter_rank(f)),
{
    t.with_default(f)
}

/// Relies on Targets::with_target: adds an entry for the target prefix,
/// replacing an entry with the same target, and keeps the default entry.
/// Takes no off filter, so every entry rank stays at or below trace.
#[verifier::external_body]
fn targets_with_target(
    t: tracing_subscriber::filter::Targets,
    target: &str,
    f: tracing::level_filters::LevelFilter,
) -> (r: tracing_subscriber::filter::Targets)
    requires
        filter_rank(f) <= 4,
    ensures
        targets_entries(r) == targets_entries(t).insert(target@, filter_rank(f)),
        targets_fallback(r) == targets_fallback(t),
{
    t.with_target(target, f)
}

/// Relies on Targets::would_enable: a target and level pair is enabled by
/// the most specific entry whose target prefixes it, and by the default
/// entry when no entry's target is a prefix. An entry with the target
/// itself is the most specific match there is. Both promises cover only
/// entries at or below trace rank: an off entry admits no level, which no
/// rank comparison expresses, so nothing is promised of it.
#[verifier::external_body]
fn targets_would_enable(
    t: &tracing_subscriber::filter::Targets,
    target: &str,
    level: &tracing::Level,
) -> (r: bool)
    ensures
        (targets_entries(*t).dom().contains(target@) && targets_entries(*t)[target@] <= 4) ==> r
            == (level_rank(*level) <= targets_entries(*t)[target@]),
        ((forall|k: Seq<char>|
            targets_entries(*t).dom().contains(k) ==> !is_prefix_of(k, target@))
            && targets_fallback(*t) is Some && targets_fallback(*t)->Some_0 <= 4) ==> r == (
        level_rank(*level) <= targets_fallback(*t)->Some_0),
{
    t.would_enable(target, level)
}

/// The entries that realize the standard channel overrides, keyed by tag.
pub open spec fn standard_entries() -> Map<Seq<char>, nat> {
    Map::<Seq<char>, nat>::empty().insert("info"@, SeverityLevel::Info.rank()).insert(
        "warn"@,
        SeverityLevel::Warn.rank(),
    )
}

/// Realizes a routing rule with the standard overrides as a target filter:
/// one entry per override channel, keyed by the channel's tag, and the
/// configured default minimum as the filter's default entry.
pub fn realize_targets(rule: &RoutingRule) -> (t: tracing_subscriber::filter::Targets)
    requires
        rule.overrides@ == standard_overrides(),
    ensures
        targets_entries(t) == standard_entries(),
        targets_fallback(t) == Some(rule.default_min.rank()),
{
    let t = targets_new();
    let t = targets_with_default(t, filter_of_severity(rule.default_min));
    let t = targets_with_target(t, "info", filter_of_severity(SeverityLevel::Info));
    let t = targets_with_target(t, "warn", filter_of_severity(SeverityLevel::Warn));
    t
}

/// Checks one event against the realized filter. The contract is the
/// agreement law: the realized filter enables the event's channel tag at
/// the event's level exactly when the router passes the event, so routing
/// decisions are consistent between the library and the installed filter.
pub fn filter_agrees_with_rule(
    t: &tracing_subscriber::filter::Targets,
    rule: &RoutingRule,
    c: Channel,
    sev: SeverityLevel,
) -> (r: bool)
    requires
        rule.overrides@ == standard_overrides(),
        targets_entries(*t) == standard_entries(),
        targets_fallback(*t) == Some(rule.default_min.rank()),
    ensures
        r == rule.passes_spec(c, sev),
{
    let level = level_of_severity(sev);
    let enabled = targets_would_enable(t, c.tag(), &level);
    proof {
        lemma_standard_agreement(*t, *rule, c, sev, level, enabled);
    }
    enabled
}

/// The filter clauses and the router's lookup agree on every channel under
/// the standard overrides and entries.
proof fn lemma_standard_agreement(
    t: tracing_subscriber::filter::Targets,
    rule: RoutingRule,
    c: Channel,
    sev: SeverityLevel,
    level: tracing::Level,
    enabled: bool,
)
    requires
        rule.overrides@ == standard_overrides(),
        targets_entries(t) == standard_entries(),
        targets_fallback(t) == Some(rule.default_min.rank()),
        level_rank(level) == sev.rank(),
        (targets_entries(t).dom().contains(c.tag_spec()) && targets_entries(t)[c.tag_spec()] <= 4)
            ==> enabled == (level_rank(level) <= targets_entries(t)[c.tag_spec()]),
        ((forall|k: Seq<char>|
            targets_entries(t).dom().contains(k) ==> !is_prefix_of(k, c.tag_spec()))
            && targets_fallback(t) is Some && targets_fallback(t)->Some_0 <= 4) ==> enabled == (
        level_rank(level) <= targets_fallback(t)->Some_0),
    ensures
        enabled == rule.passes_spec(c, sev),
{
    reveal_strlit("info");
    reveal_strlit("warn");
    reveal_strlit("default");
    reveal_strlit("error");
    let ov = standard_overrides();
    assert("info"@ != "warn"@) by {
        assert("info"@[0] == 'i' && "warn"@[0] == 'w');
    }
    match c {
        Channel::Info => {
            assert(targets_entries(t).dom().contains("info"@));
            assert(targets_entries(t)["info"@] == SeverityLevel::Info.rank());
            assert(lookup_override(ov, Channel::Info) == Some(SeverityLevel::Info));
        },
        Channel::Warn => {
            assert(targets_entries(t).dom().contains("warn"@));
            assert(targets_entries(t)["warn"@] == SeverityLevel::Warn.rank());
            assert(lookup_override(ov.drop_first(), Channel::Warn) == Some(SeverityLevel::Warn));
            assert(lookup_override(ov, Channel::Warn) == Some(SeverityLevel::Warn));
        },
        Channel::Default => {
            assert(!is_prefix_of("info"@, "default"@)) by {
                assert("default"@.subrange(0, 4)[0] == 'd' && "info"@[0] == 'i');
            }
            assert(!is_prefix_of("warn"@, "default"@)) by {
                assert("default"@.subrange(0, 4)[0] == 'd' && "warn"@[0] == 'w');
            }
            assert(forall|k: Seq<char>|
                targets_entries(t).dom().contains(k) ==> !is_prefix_of(k, "default"@));
            assert(lookup_override(ov.drop_first().drop_first(), c) is None);
            assert(lookup_override(ov.drop_first(), c) is None);
            assert(lookup_override(ov, c) is None);
        },
        Channel::Error => {
            assert(!is_prefix_of("info"@, "error"@)) by {
                assert("error"@.subrange(0, 4)[0] == 'e' && "info"@[0] == 'i');
            }
            assert(!is_prefix_of("warn"@, "error"@)) by {
                assert("error"@.subrange(0, 4)[0] == 'e' && "warn"@[0] == 'w');
            }
            assert(forall|k: Seq<char>|
                targets_entries(t).dom().contains(k) ==> !is_prefix_of(k, "error"@));
            assert(lookup_override(ov.drop_first().drop_first(), c) is None);
            assert(lookup_override(ov.drop_first(), c) is None);
            assert(lookup_override(ov, c) is None);
        },
    }
}

} // verus!
