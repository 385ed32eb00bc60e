use imgui_log::channel::CAPACITY;
use imgui_log::{
    init, init_with_config, set_logger, ChanneledLogger, Level, LogColors, LogLine, LogWindow,
    LoggerConfig, Record, SetLoggerError,
};
use std::sync::mpsc::sync_channel;

fn record(level: Level, message: &str) -> Record {
    Record {
        level,
        target: "mod".to_string(),
        file: Some("a.rs".to_string()),
        line: Some(10),
        message: message.to_string(),
    }
}

fn quiet() -> (ChanneledLogger, LogWindow) {
    init_with_config(LoggerConfig::default().stdout(false))
}

fn texts(window: &LogWindow) -> Vec<String> {
    window.lines().iter().map(|line| line.text.clone()).collect()
}

#[test]
fn trace_is_filtered_and_the_rest_pass() {
    let (logger, mut window) = quiet();
    assert!(!logger.enabled(Level::Trace));
    assert!(logger.enabled(Level::Debug));
    assert!(logger.enabled(Level::Info));
    assert!(logger.enabled(Level::Warn));
    assert!(logger.enabled(Level::Error));

    assert!(logger.log(&record(Level::Trace, "hidden")).is_none());
    assert!(logger.line_for(&record(Level::Trace, "hidden")).is_none());
    window.build(false, false);
    assert_eq!(window.lines().len(), 0);

    for level in [Level::Debug, Level::Info, Level::Warn, Level::Error] {
        let before = window.lines().len();
        logger.log(&record(level, "seen"));
        window.build(false, false);
        assert_eq!(window.lines().len(), before + 1);
        assert_eq!(window.lines()[before].level, level);
    }
}

#[test]
fn line_for_formats_and_keeps_the_level() {
    let (logger, _window) = quiet();
    let line = logger.line_for(&record(Level::Warn, "x")).unwrap();
    assert_eq!(line.level, Level::Warn);
    assert_eq!(line.text, "a.rs:10 --- WARN: x\n");
}

#[test]
fn log_returns_the_text_to_mirror() {
    let (logger, mut window) = init();
    let mirror = logger.log(&record(Level::Info, "hello"));
    assert_eq!(mirror, Some("a.rs:10 --- INFO: hello\n".to_string()));
    assert_eq!(logger.log(&record(Level::Trace, "hidden")), None);
    window.build(false, false);
    assert_eq!(texts(&window), vec!["a.rs:10 --- INFO: hello\n".to_string()]);
}

#[test]
fn log_without_mirroring_returns_nothing() {
    let (logger, mut window) = quiet();
    assert_eq!(logger.log(&record(Level::Error, "e")), None);
    window.build(false, false);
    assert_eq!(texts(&window), vec!["a.rs:10 --- ERROR: e\n".to_string()]);
    logger.flush();
    window.build(false, false);
    assert_eq!(window.lines().len(), 1);
}

#[test]
fn lines_arrive_in_the_order_of_the_calls() {
    let (logger, mut window) = quiet();
    let mut expected = Vec::new();
    for i in 0..CAPACITY {
        let message = format!("line {}", i);
        logger.log(&record(Level::Info, &message));
        expected.push(format!("a.rs:10 --- INFO: {}\n", message));
    }
    window.build(false, false);
    assert_eq!(texts(&window), expected);

    logger.log(&record(Level::Warn, "later"));
    expected.push("a.rs:10 --- WARN: later\n".to_string());
    window.build(false, false);
    assert_eq!(texts(&window), expected);
}

#[test]
fn capacity_is_one_hundred_and_twenty_eight() {
    assert_eq!(CAPACITY, 128);
    let (logger, mut window) = quiet();
    for i in 0..128 {
        logger.log(&record(Level::Info, &format!("{}", i)));
    }
    window.build(false, false);
    assert_eq!(window.lines().len(), 128);
}

#[test]
fn lines_beyond_the_capacity_are_dropped() {
    let (logger, mut window) = quiet();
    for i in 0..(128 + 5) {
        logger.log(&record(Level::Info, &format!("{}", i)));
    }
    window.build(false, false);
    assert_eq!(window.lines().len(), 128);
    for i in 0..128 {
        assert_eq!(window.lines()[i].text, format!("a.rs:10 --- INFO: {}\n", i));
    }
    window.build(false, false);
    assert_eq!(window.lines().len(), 128);

    logger.log(&record(Level::Info, "after"));
    window.build(false, false);
    assert_eq!(window.lines().len(), 129);
    assert_eq!(window.lines()[128].text, "a.rs:10 --- INFO: after\n");
}

#[test]
fn clear_then_idle_frame_shows_nothing() {
    let (logger, mut window) = quiet();
    logger.log(&record(Level::Info, "one"));
    logger.log(&record(Level::Info, "two"));
    window.build(false, false);
    assert_eq!(window.lines().len(), 2);
    window.clear();
    assert_eq!(window.lines().len(), 0);
    window.build(false, false);
    assert_eq!(window.lines().len(), 0);
}

#[test]
fn idle_frames_change_nothing() {
    let (logger, mut window) = quiet();
    logger.log(&record(Level::Info, "one"));
    logger.log(&record(Level::Error, "two"));
    window.build(false, false);
    let shown = texts(&window);
    for _ in 0..10 {
        assert_eq!(window.build(false, false), None);
        assert_eq!(texts(&window), shown);
    }
}

#[test]
fn set_colors_changes_the_palette_and_no_line() {
    let (logger, mut window) = quiet();
    logger.log(&record(Level::Error, "kept"));
    window.build(false, false);
    let custom = [0.25f32, 0.5, 0.75, 1.0].map(f32::to_bits);
    let mut palette = LogColors::default();
    palette.error = custom;
    window.set_colors(palette);
    assert_eq!(window.colors().level(Level::Error), custom);
    assert_eq!(window.colors().level(Level::Trace), LogColors::default().trace);
    assert_eq!(texts(&window), vec!["a.rs:10 --- ERROR: kept\n".to_string()]);
}

#[test]
fn copy_joins_the_lines_with_line_feeds() {
    let (sender, receiver) = sync_channel(8);
    let mut window = LogWindow::new(receiver);
    assert_eq!(window.copy_text(), "");
    sender.try_send(LogLine { level: Level::Info, text: "a".to_string() }).unwrap();
    assert_eq!(window.build(false, true), Some("a".to_string()));
    sender.try_send(LogLine { level: Level::Info, text: "b\n".to_string() }).unwrap();
    sender.try_send(LogLine { level: Level::Warn, text: "".to_string() }).unwrap();
    sender.try_send(LogLine { level: Level::Warn, text: "c".to_string() }).unwrap();
    assert_eq!(window.build(false, true), Some("a\nb\n\n\nc".to_string()));
    assert_eq!(window.copy_text(), "a\nb\n\n\nc");
    assert_eq!(window.lines().len(), 4);
}

#[test]
fn clear_comes_before_copy_in_a_frame() {
    let (sender, receiver) = sync_channel(8);
    let mut window = LogWindow::new(receiver);
    sender.try_send(LogLine { level: Level::Info, text: "old".to_string() }).unwrap();
    window.build(false, false);
    sender.try_send(LogLine { level: Level::Info, text: "new".to_string() }).unwrap();
    assert_eq!(window.build(true, true), Some("".to_string()));
    assert_eq!(window.lines().len(), 0);
    assert_eq!(window.build(false, false), None);
    assert_eq!(window.lines().len(), 0);
}

#[test]
fn empty_text_is_kept_as_a_line() {
    let (sender, receiver) = sync_channel(8);
    let mut window = LogWindow::new(receiver);
    sender.try_send(LogLine { level: Level::Debug, text: String::new() }).unwrap();
    window.build(false, false);
    assert_eq!(window.lines().len(), 1);
    assert_eq!(window.lines()[0].text, "");
    assert_eq!(window.lines()[0].level, Level::Debug);
}

#[test]
fn receive_appends_one_line() {
    let (_sender, receiver) = sync_channel::<LogLine>(1);
    let mut window = LogWindow::new(receiver);
    window.receive(LogLine { level: Level::Info, text: "first".to_string() });
    window.receive(LogLine { level: Level::Warn, text: "second".to_string() });
    assert_eq!(texts(&window), vec!["first".to_string(), "second".to_string()]);
}

#[test]
fn new_window_is_empty_with_autoscroll_off() {
    let (_sender, receiver) = sync_channel::<LogLine>(1);
    let mut window = LogWindow::new(receiver);
    assert_eq!(window.lines().len(), 0);
    assert!(!window.autoscroll());
    assert_eq!(window.colors().error, LogColors::default().error);
    assert_eq!(window.colors().trace, LogColors::default().trace);
    assert!(!window.pins_to_bottom(false));
    assert!(window.pins_to_bottom(true));
    window.set_autoscroll(true);
    assert!(window.autoscroll());
    assert!(window.pins_to_bottom(false));
    assert!(window.pins_to_bottom(true));
}

#[test]
fn configured_palette_reaches_the_window() {
    let custom = [0.5f32, 0.5, 0.5, 1.0].map(f32::to_bits);
    let mut palette = LogColors::default();
    palette.info = custom;
    let (_logger, window) = init_with_config(LoggerConfig::default().colors(palette));
    assert_eq!(window.colors().level(Level::Info), custom);
    assert_eq!(window.colors().level(Level::Warn), LogColors::default().warn);
}

#[test]
fn custom_formatter_is_used() {
    let config = LoggerConfig::default()
        .formatter(|record: &Record| format!("<{}> {}", record.level.as_str(), record.message))
        .stdout(true);
    let (logger, mut window) = init_with_config(config);
    assert_eq!(logger.log(&record(Level::Warn, "w")), Some("<WARN> w".to_string()));
    window.build(false, false);
    assert_eq!(texts(&window), vec!["<WARN> w".to_string()]);
}

#[test]
fn builder_keeps_the_other_settings() {
    let (sender, receiver) = sync_channel(4);
    let logger = LoggerConfig::default().stdout(false).colors(LogColors::default()).build(sender);
    let mut window = LogWindow::new(receiver);
    assert_eq!(logger.log(&record(Level::Info, "i")), None);
    window.build(false, false);
    assert_eq!(texts(&window), vec!["a.rs:10 --- INFO: i\n".to_string()]);
}

#[test]
fn logging_after_the_window_is_gone_is_silent() {
    let (logger, window) = init();
    drop(window);
    assert_eq!(
        logger.log(&record(Level::Error, "lost")),
        Some("a.rs:10 --- ERROR: lost\n".to_string())
    );
    assert_eq!(logger.log(&record(Level::Trace, "lost")), None);
}

#[test]
fn set_logger_follows_the_answer() {
    assert_eq!(set_logger(true), Ok(Level::Debug));
    assert_eq!(set_logger(false), Err(SetLoggerError));
    assert_eq!(
        SetLoggerError.message(),
        "attempted to set a logger after the logging system was already initialized"
    );
}
