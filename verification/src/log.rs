//! Log levels, log events, and the log sink handle.
//!
//! The process installs a single sink with a maximum verbosity level;
//! every component that logs does so through that handle. An event is
//! recorded exactly when its level is enabled by the sink's maximum
//! level.

use vstd::prelude::*;

verus! {

/// Severity of a log event, from least to most verbose.
#[derive(Clone, Copy, Debug, PartialEq, Eq, Structural)]
pub enum LogLevel {
    Error,
    Info,
    Debug,
}

/// Verbosity rank of a level: higher means more verbose.
pub open spec fn verbosity(l: LogLevel) -> int {
    match l {
        LogLevel::Error => 0,
        LogLevel::Info => 1,
        LogLevel::Debug => 2,
    }
}

/// A sink with maximum level `max` records an event of level `l`
/// exactly when `l` is no more verbose than `max`.
pub open spec fn spec_level_enabled(max: LogLevel, l: LogLevel) -> bool {
    verbosity(l) <= verbosity(max)
}

/// Decides whether an event of level `l` passes a sink whose maximum
/// level is `max`.
pub fn level_enabled(max: LogLevel, l: LogLevel) -> (r: bool)
    ensures
        r == spec_level_enabled(max, l),
{
    let rank_max: u8 = match max {
        LogLevel::Error => 0,
        LogLevel::Info => 1,
        LogLevel::Debug => 2,
    };
    let rank_l: u8 = match l {
        LogLevel::Error => 0,
        LogLevel::Info => 1,
        LogLevel::Debug => 2,
    };
    rank_l <= rank_max
}

/// The maximum level the process installs for a given debug flag:
/// verbose when the flag is set, informational otherwise.
pub open spec fn spec_level_for_debug(debug: bool) -> LogLevel {
    if debug {
        LogLevel::Debug
    } else {
        LogLevel::Info
    }
}

/// Selects the maximum log level from the CLI debug flag.
pub fn level_for_debug(debug: bool) -> (l: LogLevel)
    ensures
        l == spec_level_for_debug(debug),
{
    if debug {
        LogLevel::Debug
    } else {
        LogLevel::Info
    }
}

/// The debug flag enables exactly the debug-level events, while
/// informational and error events are emitted under either flag.
pub proof fn lemma_debug_flag_controls_verbosity(debug: bool)
    ensures
        spec_level_enabled(spec_level_for_debug(debug), LogLevel::Debug) == debug,
        spec_level_enabled(spec_level_for_debug(debug), LogLevel::Info),
        spec_level_enabled(spec_level_for_debug(debug), LogLevel::Error),
{
}

/// One leveled diagnostic message.
#[derive(Debug)]
pub struct LogEvent {
    pub level: LogLevel,
    pub message: String,
}

impl View for LogEvent {
    type V = (LogLevel, Seq<char>);

    open spec fn view(&self) -> (LogLevel, Seq<char>) {
        (self.level, self.message@)
    }
}

/// The single process-wide logging sink, modeled as an explicit handle:
/// a maximum verbosity level fixed at installation, and the events
/// recorded so far, in emission order.
#[derive(Debug)]
pub struct LogSink {
    max_level: LogLevel,
    events: Vec<LogEvent>,
}

impl View for LogSink {
    type V = Seq<(LogLevel, Seq<char>)>;

    closed spec fn view(&self) -> Seq<(LogLevel, Seq<char>)> {
        self.events@.map_values(|e: LogEvent| e@)
    }
}

impl LogSink {
    /// The maximum verbosity level the sink was installed with.
    pub closed spec fn spec_max_level(&self) -> LogLevel {
        self.max_level
    }

    /// Installs a sink at the given maximum level, with no events yet.
    pub fn new(max_level: LogLevel) -> (s: Self)
        ensures
            s.spec_max_level() == max_level,
            s@ == Seq::<(LogLevel, Seq<char>)>::empty(),
    {
        let s = LogSink { max_level, events: Vec::new() };
        proof {
            assert(s@ =~= Seq::<(LogLevel, Seq<char>)>::empty());
        }
        s
    }

    /// Records an event if its level is enabled; otherwise drops it.
    pub fn log(&mut self, level: LogLevel, message: String)
        ensures
            final(self).spec_max_level() == old(self).spec_max_level(),
            final(self)@ == if spec_level_enabled(old(self).spec_max_level(), level) {
                old(self)@.push((level, message@))
            } else {
                old(self)@
            },
    {
        let ghost pre = self@;
        let ghost msg_view = message@;
        if level_enabled(self.max_level, level) {
            self.events.push(LogEvent { level, message });
            proof {
                assert(self@ =~= pre.push((level, msg_view)));
            }
        }
    }

    /// The events recorded so far, in emission order.
    pub fn events(&self) -> (v: &Vec<LogEvent>)
        ensures
            v@.map_values(|e: LogEvent| e@) == self@,
    {
        &self.events
    }

    /// The maximum verbosity level the sink was installed with.
    pub fn max_level(&self) -> (l: LogLevel)
        ensures
            l == self.spec_max_level(),
    {
        self.max_level
    }
}

} // verus!
