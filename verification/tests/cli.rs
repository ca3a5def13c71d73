use fatcat_cli::cli::{api_host_scheme, log_level, HostScheme, LogLevel};

#[test]
fn verbosity_selects_log_level() {
    assert_eq!(log_level(i8::MIN), LogLevel::Silent);
    assert_eq!(log_level(-1), LogLevel::Silent);
    assert_eq!(log_level(0), LogLevel::Error);
    assert_eq!(log_level(1), LogLevel::Warn);
    assert_eq!(log_level(2), LogLevel::Info);
    assert_eq!(log_level(3), LogLevel::Debug);
    assert_eq!(log_level(4), LogLevel::Trace);
    assert_eq!(log_level(i8::MAX), LogLevel::Trace);
}

#[test]
fn log_level_filter_names() {
    let names: Vec<&str> = (-1i8..=4).map(|v| log_level(v).filter_name()).collect();
    assert_eq!(names, vec!["none", "error", "warn", "info", "debug", "trace"]);
}

#[test]
fn more_verbosity_never_logs_less() {
    fn rank(l: LogLevel) -> u8 {
        match l {
            LogLevel::Silent => 0,
            LogLevel::Error => 1,
            LogLevel::Warn => 2,
            LogLevel::Info => 3,
            LogLevel::Debug => 4,
            LogLevel::Trace => 5,
        }
    }
    for v in i8::MIN..i8::MAX {
        assert!(rank(log_level(v)) <= rank(log_level(v + 1)));
    }
}

#[test]
fn api_host_schemes() {
    assert_eq!(api_host_scheme("https://api.fatcat.wiki"), Some(HostScheme::Https));
    assert_eq!(api_host_scheme("http://localhost:9411"), Some(HostScheme::Http));
    assert_eq!(api_host_scheme("ftp://example.org"), None);
    assert_eq!(api_host_scheme("HTTPS://api.fatcat.wiki"), None);
    assert_eq!(api_host_scheme("https:/"), None);
    assert_eq!(api_host_scheme(""), None);
}
