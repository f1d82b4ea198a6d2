use diagnostics_pipeline::channel::Channel;
use diagnostics_pipeline::pipeline::Pipeline;
use diagnostics_pipeline::severity::SeverityLevel;
use diagnostics_pipeline::sink::SinkConfig;
use diagnostics_pipeline::startup::init;
use diagnostics_pipeline::targets::realize_targets;
use tracing_subscriber::layer::SubscriberExt;
use tracing_subscriber::Layer;

fn realize(p: &Pipeline) -> Result<tracing::Dispatch, String> {
    let targets = realize_targets(&p.rule);
    let fmt_layer = tracing_subscriber::fmt::layer()
        .with_writer(std::io::stderr)
        .with_ansi(false)
        .with_filter(targets);
    Ok(tracing::Dispatch::new(tracing_subscriber::registry().with(fmt_layer)))
}

#[test]
fn quiet_startup_keeps_info_channel_announcements_visible() {
    // init at the quietest minimum succeeds; an info-channel event at INFO
    // is still delivered through the override, while a default-channel
    // event at INFO is dropped.
    let sinks = vec![SinkConfig::console(false, SeverityLevel::Trace)];
    let p = init("error", sinks, realize).expect("initialization succeeds");
    assert_eq!(p.emit(Channel::Info, SeverityLevel::Info, "listening on port 8080"), vec![true]);
    assert_eq!(p.emit(Channel::Default, SeverityLevel::Info, "chatter"), vec![false]);
    assert_eq!(p.emit(Channel::Default, SeverityLevel::Error, "failure"), vec![true]);
}
