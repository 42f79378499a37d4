use vstd::prelude::*;
use crate::level::Level;

verus! {

/// The default output strategy of a build.
#[derive(Clone, Copy, Debug, PartialEq, Eq, Structural)]
pub enum Backend {
    /// The process's standard output, one line per message.
    Stream,
    /// A host console with separate `log`, `warn` and `error` callbacks.
    HostCallback,
    /// A single host "emit text" primitive with no notion of level.
    HostPrimitive,
}

/// The concrete output that a backend writes one message to.
#[derive(Clone, Copy, Debug, PartialEq, Eq, Structural)]
pub enum Channel {
    Stdout,
    ConsoleLog,
    ConsoleWarn,
    ConsoleError,
    HostLog,
}

impl Backend {
    /// The channel that a message at `level` goes to on this backend.
    pub open spec fn spec_channel(self, level: Level) -> Channel {
        match self {
            Backend::Stream => Channel::Stdout,
            Backend::HostCallback => match level {
                Level::Error => Channel::ConsoleError,
                Level::Warn => Channel::ConsoleWarn,
                _ => Channel::ConsoleLog,
            },
            Backend::HostPrimitive => Channel::HostLog,
        }
    }

    /// Picks the channel for a message at `level`: the stream and the host
    /// primitive ignore the level; the host console sends `Error` and `Warn`
    /// to their own callbacks and everything else to `log`.
    pub fn channel(self, level: Level) -> (r: Channel)
        ensures
            r == self.spec_channel(level),
    {
        match self {
            Backend::Stream => Channel::Stdout,
            Backend::HostCallback => match level {
                Level::Error => Channel::ConsoleError,
                Level::Warn => Channel::ConsoleWarn,
                _ => Channel::ConsoleLog,
            },
            Backend::HostPrimitive => Channel::HostLog,
        }
    }
}

} // verus!
