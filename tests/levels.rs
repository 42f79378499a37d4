use workflow_log::{Backend, Channel, Level, LevelFilter};

#[test]
fn severity_order() {
    assert!(Level::Error.is_more_severe_than(Level::Warn));
    assert!(Level::Warn.is_more_severe_than(Level::Trace));
    assert!(!Level::Trace.is_more_severe_than(Level::Debug));
    assert!(!Level::Info.is_more_severe_than(Level::Info));
}

#[test]
fn level_to_filter() {
    assert_eq!(Level::Error.to_level_filter(), LevelFilter::Error);
    assert_eq!(Level::Debug.to_level_filter(), LevelFilter::Debug);
    assert_eq!(Level::Trace.to_level_filter(), LevelFilter::Trace);
}

#[test]
fn filter_allows_at_least_as_severe() {
    assert!(LevelFilter::Info.allows(Level::Error));
    assert!(LevelFilter::Info.allows(Level::Info));
    assert!(!LevelFilter::Info.allows(Level::Debug));
    assert!(!LevelFilter::Off.allows(Level::Error));
}

#[test]
fn host_console_channels() {
    assert_eq!(Backend::HostCallback.channel(Level::Error), Channel::ConsoleError);
    assert_eq!(Backend::HostCallback.channel(Level::Warn), Channel::ConsoleWarn);
    assert_eq!(Backend::HostCallback.channel(Level::Info), Channel::ConsoleLog);
    assert_eq!(Backend::HostCallback.channel(Level::Debug), Channel::ConsoleLog);
    assert_eq!(Backend::HostCallback.channel(Level::Trace), Channel::ConsoleLog);
}

#[test]
fn level_blind_backends() {
    for level in [Level::Error, Level::Warn, Level::Info, Level::Debug, Level::Trace] {
        assert_eq!(Backend::Stream.channel(level), Channel::Stdout);
        assert_eq!(Backend::HostPrimitive.channel(level), Channel::HostLog);
    }
}
