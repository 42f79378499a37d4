use vstd::prelude::*;
use crate::level::{Level, LevelFilter};

verus! {

/// The mathematical text of a message, as contracts see it.
pub type TextView = Seq<char>;

/// An interception point that an embedding application installs to collect
/// messages. `write` returns whether the message was consumed; a message
/// that is not consumed goes on to the backend.
///
/// An implementation's answer must be a function of its own state as
/// `consumes` sees it: `write` returns exactly `consumes(level, message)`.
pub trait Sink {
    /// Whether this sink consumes a message with text `message` at `level`.
    spec fn consumes(&self, level: Level, message: TextView) -> bool;

    fn write(&self, level: Level, message: &str) -> (r: bool)
        ensures
            r == self.consumes(level, message@),
    ;
}

/// What became of one emitted message.
#[derive(Clone, Debug, PartialEq, Eq)]
pub enum Delivery {
    /// The level did not pass the threshold; the message was never built.
    Filtered,
    /// The installed sink consumed the message.
    Consumed,
    /// The message is to be written by the backend.
    ToBackend(String),
}

/// `r` is the delivery of a message with text `text` that passed the threshold,
/// when the sink's verdict was `verdict` (`None`: no sink installed).
pub open spec fn routed(verdict: Option<bool>, text: Seq<char>, r: Delivery) -> bool {
    match r {
        Delivery::Filtered => false,
        Delivery::Consumed => verdict == Some(true),
        Delivery::ToBackend(s) => verdict != Some(true) && s@ == text,
    }
}

/// Decides the delivery of a message that passed the threshold from what the
/// sink answered. Consumed messages stop; all others go to the backend.
pub fn route(verdict: Option<bool>, text: String) -> (r: Delivery)
    ensures
        routed(verdict, text@, r),
{
    match verdict {
        Some(true) => Delivery::Consumed,
        _ => Delivery::ToBackend(text),
    }
}

/// The logging context: the current threshold and at most one installed sink.
#[derive(Clone, Debug)]
pub struct Logger<S> {
    threshold: LevelFilter,
    sink: Option<S>,
}

impl<S: Sink> Logger<S> {
    pub closed spec fn spec_threshold(&self) -> LevelFilter {
        self.threshold
    }

    pub closed spec fn spec_sink(&self) -> Option<S> {
        self.sink
    }

    /// Whether a message at `level` passes the current threshold.
    pub open spec fn passes(&self, level: Level) -> bool {
        self.spec_threshold().admits(level)
    }

    /// This context with its sink slot replaced by `sink`.
    pub open spec fn with_sink(self, sink: Option<S>) -> Self {
        Self::spec_build(self.spec_threshold(), sink)
    }

    /// This context with its threshold replaced by `threshold`.
    pub open spec fn with_threshold(self, threshold: LevelFilter) -> Self {
        Self::spec_build(threshold, self.spec_sink())
    }

    pub closed spec fn spec_build(threshold: LevelFilter, sink: Option<S>) -> Self {
        Logger { threshold, sink }
    }

    /// What the installed sink answers when offered `text` at `level`:
    /// `None` when no sink is installed.
    pub open spec fn verdict(&self, level: Level, text: Seq<char>) -> Option<bool> {
        match self.spec_sink() {
            Some(s) => Some(s.consumes(level, text)),
            None => None,
        }
    }

    /// `r` is what emitting at `level` with message `message` yields on
    /// this context: `Filtered` when the level does not pass; otherwise the
    /// message is built once, offered to the installed sink, and routed by
    /// its answer.
    pub open spec fn emitted<F: FnOnce() -> String>(&self, level: Level, message: F, r: Delivery) -> bool {
        if !self.passes(level) {
            r == Delivery::Filtered
        } else {
            exists|text: String|
                #![trigger message.ensures((), text)]
                message.ensures((), text) && routed(self.verdict(level, text@), text@, r)
        }
    }

    /// A fresh context: threshold `Trace` (everything passes), no sink.
    pub fn new() -> (r: Self)
        ensures
            r.spec_threshold() == LevelFilter::Trace,
            r.spec_sink() is None,
    {
        Logger { threshold: LevelFilter::Trace, sink: None }
    }

    /// The current threshold.
    pub fn get_log_level(&self) -> (r: LevelFilter)
        ensures
            r == self.spec_threshold(),
    {
        self.threshold
    }

    /// Replaces the threshold; the sink is kept.
    pub fn set_log_level(&mut self, level: LevelFilter)
        ensures
            *final(self) == old(self).with_threshold(level),
            final(self).spec_threshold() == level,
            final(self).spec_sink() == old(self).spec_sink(),
    {
        self.threshold = level;
    }

    /// Whether a message at `level` passes the current threshold.
    pub fn log_level_enabled(&self, level: Level) -> (r: bool)
        ensures
            r == self.passes(level),
    {
        self.threshold.allows(level)
    }

    /// Installs `Some(sink)`, evicting any earlier one, or clears the slot
    /// with `None`. The threshold is kept.
    pub fn pipe(&mut self, sink: Option<S>)
        ensures
            *final(self) == old(self).with_sink(sink),
            final(self).spec_sink() == sink,
            final(self).spec_threshold() == old(self).spec_threshold(),
    {
        self.sink = sink;
    }

    /// The installed sink, if any.
    pub fn sink(&self) -> (r: Option<&S>)
        ensures
            r is None <==> self.spec_sink() is None,
            r matches Some(s) ==> self.spec_sink() == Some(*s),
    {
        self.sink.as_ref()
    }

    /// Offers a message to the installed sink and returns its verdict;
    /// `None` when no sink is installed.
    pub fn offer(&self, level: Level, message: &str) -> (r: Option<bool>)
        ensures
            r == self.verdict(level, message@),
    {
        match &self.sink {
            Some(sink) => Some(sink.write(level, message)),
            None => None,
        }
    }

    /// Delivers a message that already passed the threshold: offers it to the
    /// sink, and hands it to the backend unless the sink consumed it.
    pub fn dispatch(&self, level: Level, text: String) -> (r: Delivery)
        ensures
            routed(self.verdict(level, text@), text@, r),
            self.spec_sink() matches Some(s) ==> (r == Delivery::Consumed <==> s.consumes(
                level,
                text@,
            )),
    {
        let verdict = self.offer(level, text.as_str());
        route(verdict, text)
    }

    /// Emits a message at `level`. The message is built only when the level
    /// passes the threshold: below it, `message` need not even be callable.
    pub fn emit<F: FnOnce() -> String>(&self, level: Level, message: F) -> (r: Delivery)
        requires
            self.passes(level) ==> message.requires(()),
        ensures
            self.emitted(level, message, r),
    {
        if !self.log_level_enabled(level) {
            return Delivery::Filtered;
        }
        let text = message();
        self.dispatch(level, text)
    }
}

/// With the threshold at `high`, a message at a less severe level `low` is
/// filtered before anything is built or offered, while a message at `high`
/// itself goes on to the sink or the backend.
pub proof fn lemma_threshold_gate<S: Sink, F: FnOnce() -> String>(
    logger: Logger<S>,
    high: Level,
    low: Level,
    message: F,
    r: Delivery,
)
    requires
        logger.spec_threshold() == high.spec_to_filter(),
        high.more_severe(low),
    ensures
        !logger.passes(low),
        logger.passes(high),
        logger.emitted(low, message, r) ==> r == Delivery::Filtered,
        logger.emitted(high, message, r) ==> r != Delivery::Filtered,
{
}

/// A `Trace` threshold lets every level through.
pub proof fn lemma_trace_admits_every_level<S: Sink>(logger: Logger<S>, level: Level)
    requires
        logger.spec_threshold() == LevelFilter::Trace,
    ensures
        logger.passes(level),
{
}

/// An `Error` threshold lets through `Error` and nothing else.
pub proof fn lemma_error_admits_only_error<S: Sink>(logger: Logger<S>, level: Level)
    requires
        logger.spec_threshold() == LevelFilter::Error,
    ensures
        logger.passes(level) <==> level == Level::Error,
{
}

/// When the installed sink consumes every message, no message at an
/// admitted level reaches the backend, whatever the level.
pub proof fn lemma_consuming_sink_silences_backend<S: Sink, F: FnOnce() -> String>(
    logger: Logger<S>,
    level: Level,
    message: F,
    r: Delivery,
)
    requires
        logger.spec_sink() is Some,
        forall|l: Level, m: Seq<char>| #[trigger] logger.spec_sink()->0.consumes(l, m),
        logger.passes(level),
        logger.emitted(level, message, r),
    ensures
        r == Delivery::Consumed,
{
    let text = choose|text: String|
        #![trigger message.ensures((), text)]
        message.ensures((), text) && routed(logger.verdict(level, text@), text@, r);
    assert(logger.spec_sink()->0.consumes(level, text@));
}

/// When the installed sink declines every message, each message at an
/// admitted level reaches the backend as built.
pub proof fn lemma_declining_sink_passes_through<S: Sink, F: FnOnce() -> String>(
    logger: Logger<S>,
    level: Level,
    message: F,
    r: Delivery,
)
    requires
        logger.spec_sink() is Some,
        forall|l: Level, m: Seq<char>| !#[trigger] logger.spec_sink()->0.consumes(l, m),
        logger.passes(level),
        logger.emitted(level, message, r),
    ensures
        exists|text: String|
            #[trigger] message.ensures((), text) && (r matches Delivery::ToBackend(s) && s@ == text@),
{
    let text = choose|text: String|
        #![trigger message.ensures((), text)]
        message.ensures((), text) && routed(logger.verdict(level, text@), text@, r);
    assert(!logger.spec_sink()->0.consumes(level, text@));
    assert(message.ensures((), text) && (r matches Delivery::ToBackend(s) && s@ == text@));
}

/// Installing a sink and then removing it gives back a context without a
/// sink exactly as it was, and there every message at an admitted level
/// goes to the backend as built.
pub proof fn lemma_remove_restores<S: Sink, F: FnOnce() -> String>(
    logger: Logger<S>,
    sink: S,
    level: Level,
    message: F,
    r: Delivery,
)
    requires
        logger.spec_sink() is None,
    ensures
        logger.with_sink(Some(sink)).with_sink(None) == logger,
        logger.passes(level) && logger.emitted(level, message, r) ==> exists|text: String|
            #[trigger] message.ensures((), text) && (r matches Delivery::ToBackend(s) && s@ == text@),
{
    if logger.passes(level) && logger.emitted(level, message, r) {
        let text = choose|text: String|
            #![trigger message.ensures((), text)]
            message.ensures((), text) && routed(logger.verdict(level, text@), text@, r);
        assert(message.ensures((), text) && (r matches Delivery::ToBackend(s) && s@ == text@));
    }
}

/// Installing one sink after another leaves exactly the last one in the
/// slot, whatever was there before; the threshold is untouched.
pub proof fn lemma_last_install_wins<S: Sink>(logger: Logger<S>, first: S, second: S)
    ensures
        logger.with_sink(Some(first)).with_sink(Some(second)) == logger.with_sink(Some(second)),
        logger.with_sink(Some(second)).spec_sink() == Some(second),
        logger.with_sink(Some(second)).spec_threshold() == logger.spec_threshold(),
{
}

} // verus!
