use stderr_log::level::Level;
use stderr_log::logging::{AlreadyInstalled, Logging};
use stderr_log::sink::{LogEvent, StderrLogger};

const ALL: [Level; 5] = [Level::Error, Level::Warn, Level::Info, Level::Debug, Level::Trace];

#[test]
fn enabled_iff_at_least_as_severe() {
    let sink = StderrLogger;
    for (ti, threshold) in ALL.iter().enumerate() {
        for (li, level) in ALL.iter().enumerate() {
            assert_eq!(sink.is_enabled(*threshold, *level), li <= ti);
        }
    }
}

#[test]
fn verbosity_order() {
    let ranks: Vec<u8> = ALL.iter().map(|l| l.verbosity()).collect();
    assert_eq!(ranks, vec![0, 1, 2, 3, 4]);
    assert!(Level::Error.at_or_above(Level::Error));
    assert!(Level::Warn.at_or_above(Level::Info));
    assert!(!Level::Trace.at_or_above(Level::Debug));
}

#[test]
fn level_names() {
    let names: Vec<&str> = ALL.iter().map(|l| l.name()).collect();
    assert_eq!(names, vec!["ERROR", "WARN", "INFO", "DEBUG", "TRACE"]);
}

#[test]
fn render_line() {
    let sink = StderrLogger;
    assert_eq!(sink.render(Level::Warn, "disk low"), "WARN disk low\n");
    assert_eq!(sink.render(Level::Trace, ""), "TRACE \n");
}

#[test]
fn emit_filters_again() {
    let sink = StderrLogger;
    let event = LogEvent { level: Level::Debug, message: String::from("x = 3") };
    assert_eq!(sink.emit(Level::Info, &event), None);
    assert_eq!(sink.emit(Level::Debug, &event), Some(String::from("DEBUG x = 3\n")));
    sink.flush();
}

#[test]
fn second_install_fails() {
    let mut logging = Logging::new();
    assert!(!logging.is_installed());
    assert_eq!(logging.install(StderrLogger), Ok(()));
    assert!(logging.is_installed());
    assert_eq!(logging.install(StderrLogger), Err(AlreadyInstalled));
    assert!(logging.is_installed());
    logging.set_threshold(Level::Error);
    assert_eq!(logging.dispatch(Level::Error, "still routed"), Some(String::from("ERROR still routed\n")));
}

#[test]
fn nothing_before_install() {
    let mut logging = Logging::new();
    for level in ALL {
        assert_eq!(logging.dispatch(level, "dropped"), None);
        assert!(!logging.is_enabled(level));
    }
    logging.set_threshold(Level::Trace);
    assert_eq!(logging.threshold(), Some(Level::Trace));
    for level in ALL {
        assert_eq!(logging.dispatch(level, "dropped"), None);
    }
}

#[test]
fn nothing_before_threshold() {
    let mut logging = Logging::new();
    assert_eq!(logging.install(StderrLogger), Ok(()));
    assert_eq!(logging.threshold(), None);
    assert_eq!(logging.dispatch(Level::Error, "no threshold"), None);
}

#[test]
fn info_threshold_filters() {
    let mut logging = Logging::new();
    assert_eq!(logging.install(StderrLogger), Ok(()));
    logging.set_threshold(Level::Info);
    assert_eq!(logging.dispatch(Level::Debug, "m"), None);
    assert_eq!(logging.dispatch(Level::Trace, "m"), None);
    assert_eq!(logging.dispatch(Level::Error, "m"), Some(String::from("ERROR m\n")));
    assert_eq!(logging.dispatch(Level::Warn, "m"), Some(String::from("WARN m\n")));
    assert_eq!(logging.dispatch(Level::Info, "m"), Some(String::from("INFO m\n")));
}

#[test]
fn last_threshold_wins() {
    let mut logging = Logging::new();
    logging.set_threshold(Level::Trace);
    logging.set_threshold(Level::Warn);
    assert_eq!(logging.install(StderrLogger), Ok(()));
    assert_eq!(logging.dispatch(Level::Info, "m"), None);
    assert_eq!(logging.dispatch(Level::Warn, "m"), Some(String::from("WARN m\n")));
}

#[test]
fn startup_two_lines() {
    let mut logging = Logging::new();
    assert_eq!(logging.install(StderrLogger), Ok(()));
    logging.set_threshold(Level::Trace);
    let mut stderr = String::new();
    for message in ["Starting builder...", "Done."] {
        if let Some(line) = logging.dispatch(Level::Info, message) {
            stderr.push_str(&line);
        }
    }
    assert_eq!(stderr, "INFO Starting builder...\nINFO Done.\n");
}

#[test]
fn every_event_one_line() {
    let mut logging = Logging::new();
    assert_eq!(logging.install(StderrLogger), Ok(()));
    logging.set_threshold(Level::Trace);
    let mut lines = Vec::new();
    for i in 0..100 {
        let level = ALL[i % 5];
        let line = logging.dispatch(level, &format!("event {}", i)).unwrap();
        assert_eq!(line, format!("{} event {}\n", level.name(), i));
        lines.push(line);
    }
    assert_eq!(lines.len(), 100);
}
