use lildevil::configuration::{
    flat_config_keys, load_configuration, load_flat_configuration, migrations_enabled,
    read_config_values, read_config_values_under, sectioned_config_keys, ConfigValues, Settings,
    SettingsError,
};

fn values(host: Option<&str>) -> ConfigValues {
    ConfigValues {
        host: host.map(String::from),
        port: None,
        workers: None,
        reporting_enabled: None,
        abuseipdb_key: None,
        report_endpoint: None,
        db_path: None,
    }
}

#[test]
fn default_settings() {
    let s = Settings::default();
    assert_eq!(s.host, "127.0.0.1");
    assert_eq!(s.port, Some(8080));
    assert_eq!(s.workers, Some(2));
    assert!(!s.reporting_enabled);
    assert_eq!(s.abuseipdb_key, None);
    assert_eq!(s.report_endpoint, "https://api.abuseipdb.com/api/v2/report");
    assert_eq!(s.db_path, "storage.db");
}

#[test]
fn missing_host_is_an_error() {
    assert!(matches!(Settings::from_values(values(None)), Err(SettingsError::MissingHost)));
}

#[test]
fn missing_values_take_defaults() {
    let s = Settings::from_values(values(Some("0.0.0.0"))).unwrap();
    assert_eq!(s.host, "0.0.0.0");
    assert_eq!(s.port, None);
    assert_eq!(s.workers, None);
    assert!(!s.reporting_enabled);
    assert_eq!(s.abuseipdb_key, None);
    assert_eq!(s.report_endpoint, "https://api.abuseipdb.com/api/v2/report");
    assert_eq!(s.db_path, "storage.db");
}

#[test]
fn configured_values_are_kept() {
    let v = ConfigValues {
        host: Some(String::from("/tmp/sock")),
        port: Some(9000),
        workers: Some(8),
        reporting_enabled: Some(true),
        abuseipdb_key: Some(String::from("k")),
        report_endpoint: Some(String::from("http://localhost/report")),
        db_path: Some(String::from("/var/lib/db.sqlite")),
    };
    let s = Settings::from_values(v).unwrap();
    assert_eq!(s.port, Some(9000));
    assert_eq!(s.workers, Some(8));
    assert!(s.reporting_enabled);
    assert_eq!(s.abuseipdb_key, Some(String::from("k")));
    assert_eq!(s.report_endpoint, "http://localhost/report");
    assert_eq!(s.db_path, "/var/lib/db.sqlite");
}

#[test]
fn settings_from_loaded_config() {
    let mut c = config::Config::default();
    c.set("http.host", "10.0.0.1").unwrap();
    c.set("http.port", 8081i64).unwrap();
    c.set("reporting.enabled", true).unwrap();
    c.set("db.path", "x.db").unwrap();
    let v = read_config_values(&c);
    assert_eq!(v.host, Some(String::from("10.0.0.1")));
    assert_eq!(v.port, Some(8081));
    assert_eq!(v.workers, None);
    let s = load_configuration(&c).unwrap();
    assert_eq!(s.host, "10.0.0.1");
    assert_eq!(s.port, Some(8081));
    assert!(s.reporting_enabled);
    assert_eq!(s.db_path, "x.db");
    assert_eq!(s.report_endpoint, "https://api.abuseipdb.com/api/v2/report");
    assert!(matches!(load_configuration(&config::Config::default()), Err(SettingsError::MissingHost)));
}

#[test]
fn single_host_key_loads_with_defaults() {
    let mut c = config::Config::default();
    c.set("http.host", "0.0.0.0").unwrap();
    let s = load_configuration(&c).unwrap();
    assert_eq!(s.host, "0.0.0.0");
    assert_eq!(s.port, None);
    assert_eq!(s.workers, None);
    assert!(!s.reporting_enabled);
    assert_eq!(s.abuseipdb_key, None);
    assert_eq!(s.report_endpoint, "https://api.abuseipdb.com/api/v2/report");
    assert_eq!(s.db_path, "storage.db");
    let again = load_configuration(&c).unwrap();
    assert_eq!(again.host, s.host);
    assert_eq!(again.db_path, s.db_path);
}

#[test]
fn flat_keys_are_read_at_start_up() {
    let mut c = config::Config::default();
    c.set("http-host", "127.0.0.2").unwrap();
    c.set("http-port", 81i64).unwrap();
    c.set("http.workers", 4i64).unwrap();
    c.set("enable-reporting", true).unwrap();
    c.set("abuseipdb-key", "secret").unwrap();
    c.set("report-endpoint", "http://r").unwrap();
    c.set("db-path", "f.db").unwrap();
    let s = load_flat_configuration(&c).unwrap();
    assert_eq!(s.host, "127.0.0.2");
    assert_eq!(s.port, Some(81));
    assert_eq!(s.workers, None);
    assert!(s.reporting_enabled);
    assert_eq!(s.abuseipdb_key, Some(String::from("secret")));
    assert_eq!(s.report_endpoint, "http://r");
    assert_eq!(s.db_path, "f.db");
    assert!(matches!(load_configuration(&c), Err(SettingsError::MissingHost)));
    let v = read_config_values_under(&c, &flat_config_keys());
    assert_eq!(v.port, Some(81));
    let v = read_config_values_under(&c, &sectioned_config_keys());
    assert_eq!(v.workers, Some(4));
}

#[test]
fn migrations_flag() {
    let mut c = config::Config::default();
    assert!(!migrations_enabled(&c));
    c.set("db-migrate", true).unwrap();
    assert!(migrations_enabled(&c));
    c.set("db-migrate", false).unwrap();
    assert!(!migrations_enabled(&c));
}
