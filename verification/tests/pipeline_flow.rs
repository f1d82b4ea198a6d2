use diagnostics_pipeline::channel::Channel;
use diagnostics_pipeline::pipeline::Pipeline;
use diagnostics_pipeline::severity::SeverityLevel;
use diagnostics_pipeline::sink::{DeliveryMode, SinkConfig, SinkKind};

fn two_sink_pipeline(min: SeverityLevel) -> Pipeline {
    let sinks = vec![
        SinkConfig::console(false, SeverityLevel::Trace),
        SinkConfig::trace_collector(
            String::from("http://127.0.0.1:4317"),
            DeliveryMode::Batched,
            SeverityLevel::Trace,
        ),
    ];
    Pipeline::compose(min, sinks)
}

#[test]
fn info_pipeline_drops_debug_and_delivers_info_on_default_channel() {
    let p = two_sink_pipeline(SeverityLevel::Info);
    assert_eq!(p.emit(Channel::Default, SeverityLevel::Debug, "noise"), vec![false, false]);
    assert_eq!(p.emit(Channel::Default, SeverityLevel::Info, "news"), vec![true, true]);
}

#[test]
fn error_pipeline_keeps_info_channel_visible() {
    let p = two_sink_pipeline(SeverityLevel::Error);
    assert_eq!(p.emit(Channel::Info, SeverityLevel::Info, "listening"), vec![true, true]);
    assert_eq!(p.emit(Channel::Default, SeverityLevel::Info, "chatter"), vec![false, false]);
}

#[test]
fn sink_minimum_is_independent_of_the_routing_rule() {
    // The router passes the event, but only the sink whose own minimum
    // takes info-urgency events receives it.
    let sinks = vec![
        SinkConfig::console(false, SeverityLevel::Warn),
        SinkConfig::console(false, SeverityLevel::Debug),
    ];
    let p = Pipeline::compose(SeverityLevel::Info, sinks);
    assert_eq!(p.delivery_mask(Channel::Default, SeverityLevel::Info), vec![false, true]);
    assert_eq!(p.delivery_mask(Channel::Default, SeverityLevel::Warn), vec![true, true]);
}

#[test]
fn dropped_events_reach_no_sink_whatever_the_sink_takes() {
    let sinks = vec![SinkConfig::console(false, SeverityLevel::Trace)];
    let p = Pipeline::compose(SeverityLevel::Error, sinks);
    assert!(!p.decide(Channel::Default, SeverityLevel::Trace));
    assert_eq!(p.delivery_mask(Channel::Default, SeverityLevel::Trace), vec![false]);
}

#[test]
fn composition_keeps_sink_order_and_rule() {
    let p = two_sink_pipeline(SeverityLevel::Warn);
    assert_eq!(p.sinks.len(), 2);
    assert!(matches!(p.sinks[0].kind, SinkKind::Console { ansi: false }));
    assert!(matches!(p.sinks[1].kind, SinkKind::TraceCollector { .. }));
    assert_eq!(p.rule.default_min, SeverityLevel::Warn);
}
