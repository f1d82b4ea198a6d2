use diagnostics_pipeline::channel::Channel;
use diagnostics_pipeline::route::RoutingRule;
use diagnostics_pipeline::severity::SeverityLevel;
use diagnostics_pipeline::targets::{filter_agrees_with_rule, realize_targets};

const ALL_LEVELS: [SeverityLevel; 5] = [
    SeverityLevel::Error,
    SeverityLevel::Warn,
    SeverityLevel::Info,
    SeverityLevel::Debug,
    SeverityLevel::Trace,
];

const ALL_CHANNELS: [Channel; 4] =
    [Channel::Default, Channel::Info, Channel::Warn, Channel::Error];

#[test]
fn realized_filter_agrees_with_router_on_every_pair() {
    for min in ALL_LEVELS {
        let rule = RoutingRule::for_level(min);
        let targets = realize_targets(&rule);
        for channel in ALL_CHANNELS {
            for sev in ALL_LEVELS {
                let enabled = filter_agrees_with_rule(&targets, &rule, channel, sev);
                assert_eq!(
                    enabled,
                    rule.passes(channel, sev),
                    "disagreement at min {:?}, channel {:?}, severity {:?}",
                    min,
                    channel,
                    sev
                );
            }
        }
    }
}

#[test]
fn realized_filter_carries_the_configured_default() {
    // Checked against the outside filter directly: a quiet default drops
    // default-channel info records but keeps the info channel visible.
    let rule = RoutingRule::for_level(SeverityLevel::Error);
    let targets = realize_targets(&rule);
    assert!(!targets.would_enable("default", &tracing::Level::INFO));
    assert!(targets.would_enable("info", &tracing::Level::INFO));
    assert!(targets.would_enable("warn", &tracing::Level::WARN));
    assert!(!targets.would_enable("warn", &tracing::Level::INFO));
    assert!(targets.would_enable("default", &tracing::Level::ERROR));

    let verbose = realize_targets(&RoutingRule::for_level(SeverityLevel::Trace));
    assert!(verbose.would_enable("default", &tracing::Level::TRACE));
}
