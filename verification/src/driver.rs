//! The process driver's decisions: which sink to install, what to log
//! around startup, and how the process ends.
//!
//! The binary around the library performs the argument parsing, the
//! real log emission and the interrupt wait; every decision in between
//! stands here.

use vstd::prelude::*;

use crate::engine::{start_messages, PaiEngine};
use crate::error::{spec_error_message, EngineError};
use crate::log::{
    level_for_debug, spec_level_enabled, spec_level_for_debug, LogLevel, LogSink,
};

verus! {

/// The line the driver logs before constructing the engine.
pub open spec fn booting_line() -> Seq<char> {
    "Booting paiOS Engine..."@
}

/// The error line the driver logs when startup fails, around the
/// failure's own message.
pub open spec fn failure_line(msg: Seq<char>) -> Seq<char> {
    "Engine failed to start: "@ + msg
}

/// The line the driver logs when the interrupt signal arrives.
pub open spec fn shutdown_line() -> Seq<char> {
    "Shutdown signal received. Exiting."@
}

/// Everything a successful boot logs, in order: the booting line, then
/// the startup lines, all informational. The sequence does not depend
/// on the debug flag: that flag only selects how verbose a sink is
/// installed, and informational events pass either way.
pub open spec fn boot_log(cfg: Option<Seq<char>>) -> Seq<(LogLevel, Seq<char>)> {
    (seq![booting_line()] + start_messages(cfg)).map_values(|m: Seq<char>| (LogLevel::Info, m))
}

/// What the driver decided after startup: the sink with everything
/// logged so far, and the exit status to terminate with, if any.
#[derive(Debug)]
pub struct BootOutcome {
    pub sink: LogSink,
    pub exit: Option<i32>,
}

/// Turns the startup result into the driver's reaction: success means
/// the process goes on to wait for an interrupt; failure is logged at
/// error severity, with the failure's message, and the process must
/// exit with status 1.
pub fn handle_start_result(r: Result<(), EngineError>, sink: &mut LogSink) -> (exit: Option<
    i32,
>)
    ensures
        final(sink).spec_max_level() == old(sink).spec_max_level(),
        r is Ok ==> exit is None && final(sink)@ == old(sink)@,
        r matches Err(e) ==> exit == Some(1i32) && final(sink)@ == old(sink)@.push(
            (LogLevel::Error, failure_line(spec_error_message(&e))),
        ),
{
    match r {
        Ok(()) => None,
        Err(e) => {
            let message = String::from_str("Engine failed to start: ").concat(
                e.message().as_str(),
            );
            sink.log(LogLevel::Error, message);
            Some(1)
        },
    }
}

/// Runs the whole startup sequence for the parsed arguments: installs
/// a sink at the level the debug flag selects, logs the booting line,
/// constructs the engine with the configuration path, and starts it.
/// Startup always succeeds, so no exit status is demanded and the log
/// holds exactly the boot sequence, whatever the debug flag.
pub fn boot(config: Option<String>, debug: bool) -> (out: BootOutcome)
    ensures
        out.sink.spec_max_level() == spec_level_for_debug(debug),
        out.exit is None,
        out.sink@ == boot_log(config.deep_view()),
{
    let level = level_for_debug(debug);
    let mut sink = LogSink::new(level);
    sink.log(LogLevel::Info, String::from_str("Booting paiOS Engine..."));
    let engine = PaiEngine::new(config);
    let result = engine.start(&mut sink);
    let exit = handle_start_result(result, &mut sink);
    proof {
        assert(sink@ =~= boot_log(config.deep_view()));
    }
    BootOutcome { sink, exit }
}

/// The driver's reaction to the interrupt signal: acknowledge the
/// shutdown in the log and exit with status 0.
pub fn handle_interrupt(sink: &mut LogSink) -> (exit: i32)
    ensures
        exit == 0,
        final(sink).spec_max_level() == old(sink).spec_max_level(),
        final(sink)@ == if spec_level_enabled(old(sink).spec_max_level(), LogLevel::Info) {
            old(sink)@.push((LogLevel::Info, shutdown_line()))
        } else {
            old(sink)@
        },
{
    sink.log(LogLevel::Info, String::from_str("Shutdown signal received. Exiting."));
    0
}

} // verus!
