use std::cell::{Cell, RefCell};
use std::rc::Rc;

use workflow_log::{
    debug_impl, error_impl, info_impl, route, trace_impl, warn_impl, Delivery, Level,
    LevelFilter, Logger, Sink, TextView,
};

struct Verdict {
    consume: bool,
    seen: Rc<RefCell<Vec<(Level, String)>>>,
}

impl Sink for Verdict {
    fn consumes(&self, _level: Level, _message: TextView) -> bool {
        self.consume
    }

    fn write(&self, level: Level, message: &str) -> bool {
        self.seen.borrow_mut().push((level, message.to_string()));
        self.consume
    }
}

fn sink(consume: bool) -> (Verdict, Rc<RefCell<Vec<(Level, String)>>>) {
    let seen = Rc::new(RefCell::new(Vec::new()));
    (Verdict { consume, seen: seen.clone() }, seen)
}

const LEVELS: [Level; 5] = [Level::Error, Level::Warn, Level::Info, Level::Debug, Level::Trace];

const FILTERS: [LevelFilter; 5] = [
    LevelFilter::Error,
    LevelFilter::Warn,
    LevelFilter::Info,
    LevelFilter::Debug,
    LevelFilter::Trace,
];

#[test]
fn fresh_logger_admits_everything() {
    let logger: Logger<Verdict> = Logger::new();
    assert_eq!(logger.get_log_level(), LevelFilter::Trace);
    assert!(logger.sink().is_none());
    for level in LEVELS {
        assert!(logger.log_level_enabled(level));
        assert_eq!(logger.emit(level, || "m".to_string()), Delivery::ToBackend("m".to_string()));
    }
}

#[test]
fn threshold_gates_less_severe_levels() {
    for (hi, filter) in FILTERS.iter().enumerate() {
        let mut logger: Logger<Verdict> = Logger::new();
        logger.set_log_level(*filter);
        for (lo, level) in LEVELS.iter().enumerate() {
            let r = logger.emit(*level, || "x".to_string());
            if lo > hi {
                assert_eq!(r, Delivery::Filtered);
            } else {
                assert_eq!(r, Delivery::ToBackend("x".to_string()));
            }
        }
    }
}

#[test]
fn gated_emit_reaches_no_sink() {
    let (s, seen) = sink(false);
    let mut logger = Logger::new();
    logger.pipe(Some(s));
    logger.set_log_level(LevelFilter::Warn);
    assert_eq!(logger.emit(Level::Info, || "quiet".to_string()), Delivery::Filtered);
    assert!(seen.borrow().is_empty());
    assert_eq!(logger.emit(Level::Warn, || "loud".to_string()), Delivery::ToBackend("loud".to_string()));
    assert_eq!(seen.borrow().as_slice(), &[(Level::Warn, "loud".to_string())]);
}

#[test]
fn trace_threshold_passes_all_error_threshold_only_error() {
    let mut logger: Logger<Verdict> = Logger::new();
    logger.set_log_level(LevelFilter::Trace);
    for level in LEVELS {
        assert!(logger.log_level_enabled(level));
    }
    logger.set_log_level(LevelFilter::Error);
    for level in LEVELS {
        assert_eq!(logger.log_level_enabled(level), level == Level::Error);
    }
}

#[test]
fn off_threshold_passes_nothing() {
    let mut logger: Logger<Verdict> = Logger::new();
    logger.set_log_level(LevelFilter::Off);
    for level in LEVELS {
        assert_eq!(logger.emit(level, || "x".to_string()), Delivery::Filtered);
    }
}

#[test]
fn consuming_sink_stops_every_backend_write() {
    let (s, seen) = sink(true);
    let mut logger = Logger::new();
    logger.pipe(Some(s));
    for level in LEVELS {
        assert_eq!(logger.emit(level, || "eaten".to_string()), Delivery::Consumed);
    }
    assert_eq!(seen.borrow().len(), 5);
}

#[test]
fn declining_sink_lets_every_message_through() {
    let (s, seen) = sink(false);
    let mut logger = Logger::new();
    logger.pipe(Some(s));
    for level in LEVELS {
        assert_eq!(logger.emit(level, || "seen".to_string()), Delivery::ToBackend("seen".to_string()));
    }
    let got: Vec<Level> = seen.borrow().iter().map(|(l, _)| *l).collect();
    assert_eq!(got, LEVELS.to_vec());
}

#[test]
fn removing_sink_restores_backend_only() {
    let (s, seen) = sink(true);
    let mut logger = Logger::new();
    logger.pipe(Some(s));
    assert_eq!(logger.emit(Level::Info, || "a".to_string()), Delivery::Consumed);
    logger.pipe(None);
    assert!(logger.sink().is_none());
    assert_eq!(logger.emit(Level::Info, || "b".to_string()), Delivery::ToBackend("b".to_string()));
    assert_eq!(seen.borrow().len(), 1);
}

#[test]
fn gated_message_is_never_built() {
    let built = Cell::new(0u32);
    let mut logger: Logger<Verdict> = Logger::new();
    logger.set_log_level(LevelFilter::Error);
    let r = logger.emit(Level::Debug, || {
        built.set(built.get() + 1);
        "costly".to_string()
    });
    assert_eq!(r, Delivery::Filtered);
    assert_eq!(built.get(), 0);
    let r = logger.emit(Level::Error, || {
        built.set(built.get() + 1);
        "costly".to_string()
    });
    assert_eq!(r, Delivery::ToBackend("costly".to_string()));
    assert_eq!(built.get(), 1);
}

#[test]
fn later_install_evicts_earlier_sink() {
    let (first, seen_first) = sink(true);
    let (second, seen_second) = sink(false);
    let mut logger = Logger::new();
    logger.pipe(Some(first));
    logger.pipe(Some(second));
    assert_eq!(logger.emit(Level::Warn, || "w".to_string()), Delivery::ToBackend("w".to_string()));
    assert!(seen_first.borrow().is_empty());
    assert_eq!(seen_second.borrow().len(), 1);
}

#[test]
fn set_log_level_keeps_sink() {
    let (s, _seen) = sink(true);
    let mut logger = Logger::new();
    logger.pipe(Some(s));
    logger.set_log_level(LevelFilter::Info);
    assert!(logger.sink().is_some());
    assert_eq!(logger.get_log_level(), LevelFilter::Info);
}

#[test]
fn offer_without_sink_is_none() {
    let logger: Logger<Verdict> = Logger::new();
    assert_eq!(logger.offer(Level::Error, "x"), None);
    let (s, _seen) = sink(true);
    let mut logger = Logger::new();
    logger.pipe(Some(s));
    assert_eq!(logger.offer(Level::Error, "x"), Some(true));
}

#[test]
fn route_follows_verdict() {
    assert_eq!(route(Some(true), "m".to_string()), Delivery::Consumed);
    assert_eq!(route(Some(false), "m".to_string()), Delivery::ToBackend("m".to_string()));
    assert_eq!(route(None, "m".to_string()), Delivery::ToBackend("m".to_string()));
}

#[test]
fn per_level_entry_points_use_their_level() {
    let (s, seen) = sink(false);
    let mut logger = Logger::new();
    logger.pipe(Some(s));
    error_impl(&logger, || "e".to_string());
    warn_impl(&logger, || "w".to_string());
    info_impl(&logger, || "i".to_string());
    debug_impl(&logger, || "d".to_string());
    trace_impl(&logger, || "t".to_string());
    let got: Vec<(Level, String)> = seen.borrow().clone();
    assert_eq!(
        got,
        vec![
            (Level::Error, "e".to_string()),
            (Level::Warn, "w".to_string()),
            (Level::Info, "i".to_string()),
            (Level::Debug, "d".to_string()),
            (Level::Trace, "t".to_string()),
        ]
    );
}

#[test]
fn per_level_entry_points_respect_threshold() {
    let mut logger: Logger<Verdict> = Logger::new();
    logger.set_log_level(LevelFilter::Info);
    assert_eq!(error_impl(&logger, || "e".to_string()), Delivery::ToBackend("e".to_string()));
    assert_eq!(warn_impl(&logger, || "w".to_string()), Delivery::ToBackend("w".to_string()));
    assert_eq!(info_impl(&logger, || "i".to_string()), Delivery::ToBackend("i".to_string()));
    assert_eq!(debug_impl(&logger, || "d".to_string()), Delivery::Filtered);
    assert_eq!(trace_impl(&logger, || "t".to_string()), Delivery::Filtered);
}
