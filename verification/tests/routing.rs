use diagnostics_pipeline::channel::Channel;
use diagnostics_pipeline::route::RoutingRule;
use diagnostics_pipeline::severity::SeverityLevel;

#[test]
fn warn_channel_overrides_a_stricter_minimum() {
    // With the global minimum at INFO, a warn-channel event at WARN passes,
    // independently of the configured minimum.
    let rule = RoutingRule::for_level(SeverityLevel::Info);
    assert!(rule.passes(Channel::Warn, SeverityLevel::Warn));

    // Even with the strictest minimum, the override stands.
    let strict = RoutingRule::for_level(SeverityLevel::Error);
    assert!(strict.passes(Channel::Warn, SeverityLevel::Warn));
    assert!(strict.passes(Channel::Warn, SeverityLevel::Error));
    // But the warn channel still drops events below warn urgency.
    assert!(!strict.passes(Channel::Warn, SeverityLevel::Info));
}

#[test]
fn info_channel_overrides_a_stricter_minimum() {
    let strict = RoutingRule::for_level(SeverityLevel::Error);
    assert!(strict.passes(Channel::Info, SeverityLevel::Info));
    assert!(strict.passes(Channel::Info, SeverityLevel::Warn));
    assert!(!strict.passes(Channel::Info, SeverityLevel::Debug));
}

#[test]
fn default_channel_follows_the_configured_minimum() {
    let rule = RoutingRule::for_level(SeverityLevel::Info);
    assert!(rule.passes(Channel::Default, SeverityLevel::Error));
    assert!(rule.passes(Channel::Default, SeverityLevel::Info));
    assert!(!rule.passes(Channel::Default, SeverityLevel::Debug));
    assert!(!rule.passes(Channel::Default, SeverityLevel::Trace));
}

#[test]
fn error_channel_has_no_override() {
    let quiet = RoutingRule::for_level(SeverityLevel::Error);
    assert!(quiet.passes(Channel::Error, SeverityLevel::Error));
    assert!(!quiet.passes(Channel::Error, SeverityLevel::Warn));
}

#[test]
fn effective_minimum_reports_overrides_and_default() {
    let rule = RoutingRule::for_level(SeverityLevel::Debug);
    assert_eq!(rule.effective_min(Channel::Default), SeverityLevel::Debug);
    assert_eq!(rule.effective_min(Channel::Error), SeverityLevel::Debug);
    assert_eq!(rule.effective_min(Channel::Info), SeverityLevel::Info);
    assert_eq!(rule.effective_min(Channel::Warn), SeverityLevel::Warn);
}

#[test]
fn tags_resolve_to_their_channels() {
    assert_eq!(Channel::from_tag("info"), Channel::Info);
    assert_eq!(Channel::from_tag("warn"), Channel::Warn);
    assert_eq!(Channel::from_tag("error"), Channel::Error);
    assert_eq!(Channel::from_tag("default"), Channel::Default);
    assert_eq!(Channel::from_tag("anything else"), Channel::Default);
    assert_eq!(Channel::from_tag("INFO"), Channel::Default);
    assert_eq!(Channel::from_tag(""), Channel::Default);
}

#[test]
fn channel_tags_render_their_names() {
    assert_eq!(Channel::Default.tag(), "default");
    assert_eq!(Channel::Info.tag(), "info");
    assert_eq!(Channel::Warn.tag(), "warn");
    assert_eq!(Channel::Error.tag(), "error");
}
