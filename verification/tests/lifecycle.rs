use pai_engine::driver::{boot, handle_interrupt, handle_start_result};
use pai_engine::log::{level_enabled, level_for_debug, LogLevel, LogSink};
use pai_engine::{EngineError, PaiEngine};

const DEFAULTS_LINE: &str = "No configuration file provided, using defaults.";

#[test]
fn startup_succeeds_with_path_empty_path_and_none() {
    for cfg in [Some("foo.toml".to_string()), Some(String::new()), None] {
        let engine = PaiEngine::new(cfg.clone());
        let mut sink = LogSink::new(LogLevel::Info);
        let r = engine.start(&mut sink);
        assert!(r.is_ok());
        let events = sink.events();
        assert_eq!(events.len(), 4);
        match cfg {
            Some(p) => {
                let line = format!("Loading configuration from: {}", p);
                let n = events.iter().filter(|e| e.message == line).count();
                assert_eq!(n, 1);
                assert!(events.iter().all(|e| e.message != DEFAULTS_LINE));
            }
            None => {
                let n = events.iter().filter(|e| e.message == DEFAULTS_LINE).count();
                assert_eq!(n, 1);
            }
        }
    }
}

#[test]
fn startup_never_returns_unknown() {
    for cfg in [Some("engine.toml".to_string()), Some(String::new()), None] {
        let engine = PaiEngine::new(cfg);
        let mut sink = LogSink::new(LogLevel::Debug);
        let r = engine.start(&mut sink);
        assert!(!matches!(r, Err(EngineError::Unknown)));
        assert!(r.is_ok());
    }
}

#[test]
fn debug_flag_controls_debug_lines() {
    let mut verbose = LogSink::new(level_for_debug(true));
    verbose.log(LogLevel::Debug, "cache warmed".to_string());
    verbose.log(LogLevel::Info, "hello".to_string());
    assert_eq!(verbose.events().len(), 2);
    assert_eq!(verbose.events()[0].level, LogLevel::Debug);

    let mut standard = LogSink::new(level_for_debug(false));
    standard.log(LogLevel::Debug, "cache warmed".to_string());
    standard.log(LogLevel::Info, "hello".to_string());
    assert_eq!(standard.events().len(), 1);
    assert_eq!(standard.events()[0].level, LogLevel::Info);
    assert_eq!(standard.events()[0].message, "hello");
}

#[test]
fn level_enabled_follows_verbosity_order() {
    assert!(level_enabled(LogLevel::Debug, LogLevel::Debug));
    assert!(level_enabled(LogLevel::Debug, LogLevel::Info));
    assert!(level_enabled(LogLevel::Debug, LogLevel::Error));
    assert!(!level_enabled(LogLevel::Info, LogLevel::Debug));
    assert!(level_enabled(LogLevel::Info, LogLevel::Info));
    assert!(level_enabled(LogLevel::Info, LogLevel::Error));
    assert!(!level_enabled(LogLevel::Error, LogLevel::Debug));
    assert!(!level_enabled(LogLevel::Error, LogLevel::Info));
    assert!(level_enabled(LogLevel::Error, LogLevel::Error));
}

#[test]
fn scenario_no_flags_logs_boot_sequence_in_order() {
    let out = boot(None, false);
    assert!(out.exit.is_none());
    assert_eq!(out.sink.max_level(), LogLevel::Info);
    let msgs: Vec<&str> = out.sink.events().iter().map(|e| e.message.as_str()).collect();
    assert_eq!(
        msgs,
        vec![
            "Booting paiOS Engine...",
            "paiOS Engine starting...",
            DEFAULTS_LINE,
            "Initializing subsystems...",
            "Engine successfully started and ready.",
        ]
    );
    assert!(out.sink.events().iter().all(|e| e.level == LogLevel::Info));
}

#[test]
fn scenario_config_flag_logs_the_path() {
    let out = boot(Some("foo.toml".to_string()), false);
    assert!(out.exit.is_none());
    let msgs: Vec<&str> = out.sink.events().iter().map(|e| e.message.as_str()).collect();
    assert_eq!(msgs.len(), 5);
    let n = msgs.iter().filter(|m| m.contains("foo.toml")).count();
    assert_eq!(n, 1);
    assert_eq!(msgs[2], "Loading configuration from: foo.toml");
    let plain = boot(None, false);
    let plain_msgs: Vec<String> =
        plain.sink.events().iter().map(|e| e.message.clone()).collect();
    assert_eq!(msgs[0], plain_msgs[0]);
    assert_eq!(msgs[1], plain_msgs[1]);
    assert_eq!(msgs[3..], plain_msgs[3..].iter().map(|m| m.as_str()).collect::<Vec<&str>>()[..]);
}

#[test]
fn scenario_debug_flag_keeps_sequence_and_raises_verbosity() {
    let verbose = boot(None, true);
    let standard = boot(None, false);
    assert_eq!(verbose.sink.max_level(), LogLevel::Debug);
    assert_eq!(standard.sink.max_level(), LogLevel::Info);
    let verbose_msgs: Vec<&str> =
        verbose.sink.events().iter().map(|e| e.message.as_str()).collect();
    let standard_msgs: Vec<&str> =
        standard.sink.events().iter().map(|e| e.message.as_str()).collect();
    assert_eq!(verbose_msgs, standard_msgs);

    let mut verbose_sink = verbose.sink;
    let mut standard_sink = standard.sink;
    let before_verbose = verbose_sink.events().len();
    let before_standard = standard_sink.events().len();
    verbose_sink.log(LogLevel::Debug, "probing sensor bus".to_string());
    standard_sink.log(LogLevel::Debug, "probing sensor bus".to_string());
    assert_eq!(verbose_sink.events().len(), before_verbose + 1);
    assert_eq!(standard_sink.events().len(), before_standard);
}

#[test]
fn scenario_interrupt_after_startup_exits_cleanly() {
    let out = boot(None, false);
    assert!(out.exit.is_none());
    let mut sink = out.sink;
    let code = handle_interrupt(&mut sink);
    assert_eq!(code, 0);
    let events = sink.events();
    let last = &events[events.len() - 1];
    assert_eq!(last.level, LogLevel::Info);
    assert_eq!(last.message, "Shutdown signal received. Exiting.");
}

#[test]
fn scenario_init_failure_logs_message_and_exits_with_one() {
    let mut sink = LogSink::new(LogLevel::Info);
    let failure = EngineError::InitError("sensor bus offline".to_string());
    let exit = handle_start_result(Err(failure), &mut sink);
    assert_eq!(exit, Some(1));
    let events = sink.events();
    assert_eq!(events.len(), 1);
    assert_eq!(events[0].level, LogLevel::Error);
    assert_eq!(
        events[0].message,
        "Engine failed to start: Initialization failed: sensor bus offline"
    );
}

#[test]
fn successful_start_result_demands_no_exit() {
    let mut sink = LogSink::new(LogLevel::Info);
    let exit = handle_start_result(Ok(()), &mut sink);
    assert_eq!(exit, None);
    assert!(sink.events().is_empty());
}

#[test]
fn error_variants_render_their_messages() {
    let init = EngineError::InitError("no such file".to_string());
    assert_eq!(init.message(), "Initialization failed: no such file");
    let unknown = EngineError::Unknown;
    assert_eq!(unknown.message(), "Unknown error occurred");
}
