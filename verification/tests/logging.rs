use riscv_os::logging::{init, level_color, LogLevel, MaxLevel, SimpleLogger};

// `init` sets the `log` crate's global maximum level, so everything that
// calls it or reads that level stays in this one test.
#[test]
fn init_sets_max_level_from_log_variable() {
    let mut max = MaxLevel::new();
    let cases = [
        (Some("ERROR"), log::LevelFilter::Error),
        (Some("WARN"), log::LevelFilter::Warn),
        (Some("INFO"), log::LevelFilter::Info),
        (Some("DEBUG"), log::LevelFilter::Debug),
        (Some("TRACE"), log::LevelFilter::Trace),
        (None, log::LevelFilter::Off),
        (Some("info"), log::LevelFilter::Off),
        (Some("INFOX"), log::LevelFilter::Off),
        (Some(""), log::LevelFilter::Off),
    ];
    for (var, expected) in cases {
        init(&mut max, var);
        assert_eq!(log::max_level(), expected);
    }

    init(&mut max, Some("WARN"));
    let level = log::max_level();
    assert!(log::Level::Error <= level);
    assert!(log::Level::Warn <= level);
    assert!(!(log::Level::Info <= level));
    assert!(!(log::Level::Debug <= level));
    assert!(!(log::Level::Trace <= level));

    init(&mut max, None);
    assert!(!(log::Level::Error <= log::max_level()));
}

#[test]
fn colors() {
    assert_eq!(level_color(LogLevel::Error), 31);
    assert_eq!(level_color(LogLevel::Warn), 93);
    assert_eq!(level_color(LogLevel::Info), 34);
    assert_eq!(level_color(LogLevel::Debug), 32);
    assert_eq!(level_color(LogLevel::Trace), 90);
}

#[test]
fn logger_is_always_enabled() {
    assert!(SimpleLogger.enabled(LogLevel::Trace));
    assert!(SimpleLogger.enabled(LogLevel::Error));
}

#[test]
fn log_lines() {
    let l = SimpleLogger;
    assert_eq!(l.log(LogLevel::Error, "boom").unwrap(), "\u{1B}[31m[ERROR] boom\u{1B}[0m\n");
    assert_eq!(l.log(LogLevel::Warn, "w").unwrap(), "\u{1B}[93m[WARN ] w\u{1B}[0m\n");
    assert_eq!(l.log(LogLevel::Info, "started").unwrap(), "\u{1B}[34m[INFO ] started\u{1B}[0m\n");
    assert_eq!(l.log(LogLevel::Debug, "").unwrap(), "\u{1B}[32m[DEBUG] \u{1B}[0m\n");
    assert_eq!(l.log(LogLevel::Trace, "t 1").unwrap(), "\u{1B}[90m[TRACE] t 1\u{1B}[0m\n");
}

#[test]
fn log_line_left_aligns_level_name() {
    for (level, log_level, color) in [
        (LogLevel::Error, log::Level::Error, 31),
        (LogLevel::Warn, log::Level::Warn, 93),
        (LogLevel::Info, log::Level::Info, 34),
        (LogLevel::Debug, log::Level::Debug, 32),
        (LogLevel::Trace, log::Level::Trace, 90),
    ] {
        let expected = format!("\u{1B}[{}m[{:<5}] {}\u{1B}[0m\n", color, log_level, "msg");
        assert_eq!(SimpleLogger.log(level, "msg").unwrap(), expected);
    }
}

#[test]
fn documented_sample_lines() {
    assert_eq!(
        SimpleLogger.log(LogLevel::Warn, "内存使用率较高").unwrap(),
        "\u{1B}[93m[WARN ] 内存使用率较高\u{1B}[0m\n"
    );
    assert_eq!(
        SimpleLogger.log(LogLevel::Info, "系统启动完成").unwrap(),
        "\u{1B}[34m[INFO ] 系统启动完成\u{1B}[0m\n"
    );
    assert_eq!(
        SimpleLogger.log(LogLevel::Error, "内核 panic 了！").unwrap(),
        "\u{1B}[31m[ERROR] 内核 panic 了！\u{1B}[0m\n"
    );
}
