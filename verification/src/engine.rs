//! The engine core: the optional configuration path and startup.

use vstd::prelude::*;

use crate::error::EngineError;
use crate::log::{spec_level_enabled, LogLevel, LogSink};

verus! {

/// The first line startup logs.
pub open spec fn starting_line() -> Seq<char> {
    "paiOS Engine starting..."@
}

/// The line startup logs when a configuration path is present.
pub open spec fn config_line(path: Seq<char>) -> Seq<char> {
    "Loading configuration from: "@ + path
}

/// The line startup logs when no configuration path is present.
pub open spec fn defaults_line() -> Seq<char> {
    "No configuration file provided, using defaults."@
}

/// The line startup logs before initializing subsystems.
pub open spec fn subsystems_line() -> Seq<char> {
    "Initializing subsystems..."@
}

/// The line startup logs once the engine is ready.
pub open spec fn ready_line() -> Seq<char> {
    "Engine successfully started and ready."@
}

/// The one line that depends on whether a configuration path is
/// present: it names the path when there is one, and announces the
/// defaults otherwise.
pub open spec fn config_message(cfg: Option<Seq<char>>) -> Seq<char> {
    match cfg {
        Some(path) => config_line(path),
        None => defaults_line(),
    }
}

/// The messages startup emits, in order.
pub open spec fn start_messages(cfg: Option<Seq<char>>) -> Seq<Seq<char>> {
    seq![starting_line(), config_message(cfg), subsystems_line(), ready_line()]
}

/// The events a sink with maximum level `max` records during startup
/// of an engine whose configuration path is `cfg`: all informational,
/// so all recorded or all dropped together.
pub open spec fn start_log(max: LogLevel, cfg: Option<Seq<char>>) -> Seq<(LogLevel, Seq<char>)> {
    if spec_level_enabled(max, LogLevel::Info) {
        start_messages(cfg).map_values(|m: Seq<char>| (LogLevel::Info, m))
    } else {
        Seq::<(LogLevel, Seq<char>)>::empty()
    }
}

/// Startup speaks of the configuration exactly once: among the four
/// messages it emits, the one at index 1 — and no other — is the
/// configuration message. When a path is present that message carries
/// the path verbatim after its fixed prefix, and the defaults line
/// never appears; when no path is present the message is the defaults
/// line.
pub proof fn lemma_startup_references_config_exactly_once(cfg: Option<Seq<char>>)
    ensures
        start_messages(cfg).len() == 4,
        start_messages(cfg)[1] == config_message(cfg),
        forall|i: int|
            0 <= i < start_messages(cfg).len() && i != 1 ==> start_messages(cfg)[i]
                != config_message(cfg),
        cfg matches Some(path) ==> config_message(cfg) == config_line(path)
            && config_line(path).len() == 28 + path.len() && config_line(path).skip(28) =~= path,
        cfg matches Some(path) ==> forall|i: int|
            0 <= i < start_messages(cfg).len() ==> start_messages(cfg)[i] != defaults_line(),
        cfg is None ==> config_message(cfg) == defaults_line(),
{
    reveal_strlit("paiOS Engine starting...");
    reveal_strlit("Loading configuration from: ");
    reveal_strlit("No configuration file provided, using defaults.");
    reveal_strlit("Initializing subsystems...");
    reveal_strlit("Engine successfully started and ready.");
    assert(starting_line().len() == 24);
    assert(defaults_line().len() == 47);
    assert(subsystems_line().len() == 26);
    assert(ready_line().len() == 38);
    match cfg {
        Some(path) => {
            assert(config_line(path)[0] == 'L');
            assert(starting_line()[0] == 'p');
            assert(defaults_line()[0] == 'N');
            assert(subsystems_line()[0] == 'I');
            assert(ready_line()[0] == 'E');
            assert(config_line(path).skip(28) =~= path);
        },
        None => {
        },
    }
}

/// The main engine for paiOS: owns the optional configuration path.
#[derive(Debug)]
pub struct PaiEngine {
    config_path: Option<String>,
}

impl PaiEngine {
    /// The configuration path the engine was constructed with.
    pub closed spec fn spec_config_path(&self) -> Option<Seq<char>> {
        self.config_path.deep_view()
    }

    /// Creates an engine holding the given configuration path verbatim.
    pub fn new(config_path: Option<String>) -> (e: Self)
        ensures
            e.spec_config_path() == config_path.deep_view(),
    {
        PaiEngine { config_path }
    }

    /// Starts the engine: logs its progress to the sink and always
    /// succeeds. Exactly one of the emitted lines speaks of the
    /// configuration: it names the stored path when one is present,
    /// and announces the defaults otherwise. No file is read and no
    /// owned state changes.
    pub fn start(&self, sink: &mut LogSink) -> (r: Result<(), EngineError>)
        ensures
            r is Ok,
            final(sink).spec_max_level() == old(sink).spec_max_level(),
            final(sink)@ == old(sink)@ + start_log(
                old(sink).spec_max_level(),
                self.spec_config_path(),
            ),
    {
        sink.log(LogLevel::Info, String::from_str("paiOS Engine starting..."));

        match &self.config_path {
            Some(path) => {
                let message = String::from_str("Loading configuration from: ").concat(
                    path.as_str(),
                );
                sink.log(LogLevel::Info, message);
            },
            None => {
                sink.log(
                    LogLevel::Info,
                    String::from_str("No configuration file provided, using defaults."),
                );
            },
        }

        sink.log(LogLevel::Info, String::from_str("Initializing subsystems..."));

        sink.log(LogLevel::Info, String::from_str("Engine successfully started and ready."));

        proof {
            assert(sink@ =~= old(sink)@ + start_log(
                old(sink).spec_max_level(),
                self.spec_config_path(),
            ));
        }
        Ok(())
    }
}

} // verus!
