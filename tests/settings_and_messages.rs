use weather_checker::config::{Config, MonitorConfig, MonitoredRegion};
use weather_checker::error::WeatherCheckerError;
use weather_checker::notification::{jst_text, EmailNotifier};
use weather_checker::schedule::{is_expired, FailureCounter, RETENTION_DAYS};
use weather_checker::timestamp::Timestamp;

fn some(s: &str) -> Option<String> {
    Some(s.to_string())
}

fn config() -> Config {
    Config::from_settings(None, None, None, some("SECRET-REDACTED"), some("from@example.org"), some("to@example.org"), None)
        .unwrap()
}

#[test]
fn settings_take_defaults() {
    let c = config();
    assert_eq!(c.data_dir, "data/xml");
    assert_eq!(c.deleted_dir, "data/deleted");
    assert_eq!(c.db_path, "data/weather.sqlite3");
    assert_eq!(c.gmail_from, "from@example.org");
    assert_eq!(c.email_bcc, None);
    let c = Config::from_settings(some("d"), some("e"), some("f"), some("p"), some("g"), some("h"), some("i")).unwrap();
    assert_eq!((c.data_dir.as_str(), c.deleted_dir.as_str(), c.db_path.as_str()), ("d", "e", "f"));
    assert_eq!(c.email_bcc.as_deref(), Some("i"));
}

#[test]
fn missing_required_settings_are_reported_in_order() {
    let err = |r: Result<Config, WeatherCheckerError>| match r {
        Err(WeatherCheckerError::Config(m)) => m,
        _ => panic!("expected a configuration error"),
    };
    assert_eq!(err(Config::from_settings(None, None, None, None, None, None, None)), "GMAIL_APP_PASS not set");
    assert_eq!(err(Config::from_settings(None, None, None, some("p"), None, None, None)), "GMAIL_FROM not set");
    assert_eq!(err(Config::from_settings(None, None, None, some("p"), some("f"), None, None)), "EMAIL_TO not set");
}

#[test]
fn monitor_config_needs_a_region() {
    let empty = MonitorConfig { monitored_regions: vec![] };
    match empty.validate() {
        Err(WeatherCheckerError::Config(m)) => assert_eq!(m, "No monitored regions defined in config file"),
        _ => panic!("an empty configuration was accepted"),
    }
    let one = MonitorConfig {
        monitored_regions: vec![MonitoredRegion { lmo: "静岡地方気象台".to_string(), cities: vec!["裾野市".to_string()] }],
    };
    assert_eq!(one.validate().unwrap().monitored_regions[0].cities, vec!["裾野市".to_string()]);
    assert_eq!(MonitorConfig::default_path(None), "config.yaml");
    assert_eq!(MonitorConfig::default_path(some("/etc/w.yaml")), "/etc/w.yaml");
}

#[test]
fn dates_are_zero_padded() {
    assert_eq!(jst_text(Timestamp::new(1_704_153_784, 0)).as_deref(), Some("2024/01/02 09:03:04"));
    assert_eq!(jst_text(Timestamp::new(-62_135_596_800, 0)).as_deref(), Some("0001/01/01 09:00:00"));
}

#[test]
fn instants_are_written_in_japan_time() {
    assert_eq!(jst_text(Timestamp::new(1_431_648_000, 0)).as_deref(), Some("2015/05/15 09:00:00"));
    assert_eq!(jst_text(Timestamp::new(0, 0)).as_deref(), Some("1970/01/01 09:00:00"));
    assert_eq!(jst_text(Timestamp::new(i64::MAX, 0)), None);
}

#[test]
fn warning_message_layout() {
    let notifier = EmailNotifier::new(config());
    assert_eq!(notifier.config().email_to, "to@example.org");
    let t = Timestamp::new(1_714_525_200, 0);
    let m = notifier.warning_message("裾野市", "大雨警報", "発表", "静岡地方気象台", None, t, false).unwrap();
    assert_eq!(m.subject, "裾野市:大雨警報:発表");
    assert_eq!(
        m.body,
        "LWO:静岡地方気象台\nDATE:2024/05/01 10:00:00\nCITY:裾野市\nWARN:大雨警報\nSTAT:発表\n\
         LINK:気象庁｜全国の警報・注意報\nURL:https://www.jma.go.jp/bosai/warning/#lang=ja\nEND"
    );
    let m = notifier
        .warning_message("裾野市", "大雨警報", "解除", "静岡地方気象台", Some("https://example.org/s"), t, true)
        .unwrap();
    assert_eq!(m.subject, "test:裾野市:大雨警報:解除");
    assert!(m.body.contains("LINK:気象庁｜裾野市の警報・注意報\nURL:https://example.org/s\nEND"));
}

#[test]
fn system_message_layout() {
    let notifier = EmailNotifier::new(config());
    let m = notifier.system_message("started", "Service started successfully", Timestamp::new(0, 0), false).unwrap();
    assert_eq!(m.subject, "weather-checker: started");
    assert_eq!(m.body, "EVENT:started\nDATE:1970/01/01 09:00:00\nDETAILS:Service started successfully\nEND");
    let m = notifier.system_message("started", "x", Timestamp::new(0, 0), true).unwrap();
    assert_eq!(m.subject, "test:weather-checker: started");
}

#[test]
fn failures_warn_from_the_third_and_recovery_reports_them() {
    let mut c = FailureCounter::new();
    assert!(!c.record_failure());
    assert!(!c.record_failure());
    assert!(c.record_failure());
    assert_eq!(c.consecutive, 3);
    assert_eq!(c.record_success(), Some(3));
    assert_eq!(c.consecutive, 0);
    assert!(!c.record_failure());
    assert_eq!(c.record_success(), None);
    let mut full = FailureCounter { consecutive: u32::MAX };
    assert!(full.record_failure());
    assert_eq!(full.consecutive, u32::MAX);
}

#[test]
fn files_expire_after_the_retention_period() {
    let now = Timestamp::new(100 * 86400, 500);
    assert!(is_expired(Timestamp::new(70 * 86400, 499), now, RETENTION_DAYS));
    assert!(!is_expired(Timestamp::new(70 * 86400, 500), now, RETENTION_DAYS));
    assert!(!is_expired(Timestamp::new(99 * 86400, 0), now, RETENTION_DAYS));
    assert!(!is_expired(Timestamp::new(i64::MIN, 0), Timestamp::new(i64::MIN + 5, 0), RETENTION_DAYS));
}
