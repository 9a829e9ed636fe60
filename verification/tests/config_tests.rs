use tracker_sync::config::{
    Auth, ConnectUrl, DatabaseConfig, ImporterConfig, LogLevel, Mail, Settings, Tracker,
};
use tracker_sync::logging::{TraceLevel, TraceStyle, config_level_or_default, setup};

fn settings(password: Option<String>) -> Settings {
    Settings {
        log_level: Some(LogLevel::Info),
        tracker: Tracker {
            url: String::from("udp://tracker:6969"),
            api_url: String::from("http://tracker:1212"),
            token: String::from("SECRET-REDACTED"),
            token_valid_seconds: 7200,
        },
        auth: Auth { secret_key: String::from("SECRET-REDACTED") },
        database: DatabaseConfig {
            connect_url: ConnectUrl {
                location: String::from("sqlite://data.db?mode=rwc"),
                password,
            },
        },
        mail: Mail { password: String::from("SECRET-REDACTED") },
        tracker_statistics_importer: ImporterConfig {
            interval_in_seconds: 3600,
            max_in_flight: 10,
        },
    }
}

#[test]
fn remove_secrets_masks_every_secret() {
    let mut s = settings(Some(String::from("SECRET-REDACTED")));
    s.remove_secrets();
    assert_eq!(s.tracker.token, "***");
    assert_eq!(s.auth.secret_key, "***");
    assert_eq!(s.mail.password, "***");
    assert_eq!(s.database.connect_url.password.as_deref(), Some("***"));
    // Everything that is not a secret stays as it was.
    assert_eq!(s.tracker.url, "udp://tracker:6969");
    assert_eq!(s.tracker.token_valid_seconds, 7200);
    assert_eq!(s.database.connect_url.location, "sqlite://data.db?mode=rwc");
}

#[test]
fn remove_secrets_leaves_an_absent_password_absent() {
    let mut s = settings(None);
    s.remove_secrets();
    assert!(s.database.connect_url.password.is_none());
}

#[test]
fn overrides_replace_only_their_secret() {
    let mut s = settings(None);
    s.override_tracker_api_token(String::from("newtoken"));
    assert_eq!(s.tracker.token, "newtoken");
    assert_eq!(s.tracker.api_url, "http://tracker:1212");
    s.override_auth_secret_key(String::from("newsecret"));
    assert_eq!(s.auth.secret_key, "newsecret");
    assert_eq!(s.tracker.token, "newtoken");
}

#[test]
fn log_level_maps_to_the_matching_filter() {
    assert_eq!(config_level_or_default(&None), TraceLevel::Info);
    assert_eq!(config_level_or_default(&Some(LogLevel::Off)), TraceLevel::Off);
    assert_eq!(config_level_or_default(&Some(LogLevel::Error)), TraceLevel::Error);
    assert_eq!(config_level_or_default(&Some(LogLevel::Warn)), TraceLevel::Warn);
    assert_eq!(config_level_or_default(&Some(LogLevel::Info)), TraceLevel::Info);
    assert_eq!(config_level_or_default(&Some(LogLevel::Debug)), TraceLevel::Debug);
    assert_eq!(config_level_or_default(&Some(LogLevel::Trace)), TraceLevel::Trace);
}

#[test]
fn setup_skips_the_subscriber_only_when_logging_is_off() {
    assert_eq!(setup(&Some(LogLevel::Off)), None);
    assert_eq!(setup(&None), Some(TraceLevel::Info));
    assert_eq!(setup(&Some(LogLevel::Debug)), Some(TraceLevel::Debug));
}

#[test]
fn trace_styles_name_themselves() {
    assert_eq!(TraceStyle::Default.as_text(), "Default Style");
    assert_eq!(TraceStyle::Pretty(true).as_text(), "Pretty Style with File Paths");
    assert_eq!(TraceStyle::Pretty(false).as_text(), "Pretty Style without File Paths");
    assert_eq!(TraceStyle::Compact.as_text(), "Compact Style");
    assert_eq!(TraceStyle::Json.as_text(), "Json Format");
}
