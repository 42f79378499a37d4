use vstd::prelude::*;
use crate::dispatch::{Delivery, Logger, Sink};
use crate::level::Level;

verus! {

/// Emits `message` at `Error` on `logger`.
pub fn error_impl<S: Sink, F: FnOnce() -> String>(logger: &Logger<S>, message: F) -> (r: Delivery)
    requires
        logger.passes(Level::Error) ==> message.requires(()),
    ensures
        logger.emitted(Level::Error, message, r),
{
    logger.emit(Level::Error, message)
}

/// Emits `message` at `Warn` on `logger`.
pub fn warn_impl<S: Sink, F: FnOnce() -> String>(logger: &Logger<S>, message: F) -> (r: Delivery)
    requires
        logger.passes(Level::Warn) ==> message.requires(()),
    ensures
        logger.emitted(Level::Warn, message, r),
{
    logger.emit(Level::Warn, message)
}

/// Emits `message` at `Info` on `logger`.
pub fn info_impl<S: Sink, F: FnOnce() -> String>(logger: &Logger<S>, message: F) -> (r: Delivery)
    requires
        logger.passes(Level::Info) ==> message.requires(()),
    ensures
        logger.emitted(Level::Info, message, r),
{
    logger.emit(Level::Info, message)
}

/// Emits `message` at `Debug` on `logger`.
pub fn debug_impl<S: Sink, F: FnOnce() -> String>(logger: &Logger<S>, message: F) -> (r: Delivery)
    requires
        logger.passes(Level::Debug) ==> message.requires(()),
    ensures
        logger.emitted(Level::Debug, message, r),
{
    logger.emit(Level::Debug, message)
}

/// Emits `message` at `Trace` on `logger`.
pub fn trace_impl<S: Sink, F: FnOnce() -> String>(logger: &Logger<S>, message: F) -> (r: Delivery)
    requires
        logger.passes(Level::Trace) ==> message.requires(()),
    ensures
        logger.emitted(Level::Trace, message, r),
{
    logger.emit(Level::Trace, message)
}

} // verus!
