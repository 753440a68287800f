use vstd::prelude::*;
use config::Config;

verus! {

/// The endpoint that abuse reports are sent to unless the configuration names another.
pub const DEFAULT_REPORT_ENDPOINT: &'static str = "https://api.abuseipdb.com/api/v2/report";

/// The database file used unless the configuration names another.
pub const DEFAULT_DB_PATH: &'static str = "storage.db";

/// The host the server binds to by default.
pub const DEFAULT_HOST: &'static str = "127.0.0.1";

/// Runtime settings of the honeypot.
#[derive(Debug)]
pub struct Settings {
    pub host: String,
    pub port: Option<i64>,
    pub workers: Option<i64>,
    pub reporting_enabled: bool,
    pub abuseipdb_key: Option<String>,
    pub report_endpoint: String,
    pub db_path: String,
}

impl Settings {
    /// The settings in force before any configuration is loaded.
    pub fn default() -> (s: Self)
        ensures
            s.host@ == DEFAULT_HOST@,
            s.port == Some(8080i64),
            s.workers == Some(2i64),
            !s.reporting_enabled,
            s.abuseipdb_key is None,
            s.report_endpoint@ == DEFAULT_REPORT_ENDPOINT@,
            s.db_path@ == DEFAULT_DB_PATH@,
    {
        Settings {
            host: String::from_str(DEFAULT_HOST),
            port: Some(8080),
            workers: Some(2),
            reporting_enabled: false,
            abuseipdb_key: None,
            report_endpoint: String::from_str(DEFAULT_REPORT_ENDPOINT),
            db_path: String::from_str(DEFAULT_DB_PATH),
        }
    }
}

/// The raw values that the configuration holds for each setting, `None`
/// where the key is missing or has another type.
pub struct ConfigValues {
    pub host: Option<String>,
    pub port: Option<i64>,
    pub workers: Option<i64>,
    pub reporting_enabled: Option<bool>,
    pub abuseipdb_key: Option<String>,
    pub report_endpoint: Option<String>,
    pub db_path: Option<String>,
}

/// Why settings could not be built from a configuration.
#[derive(Debug, PartialEq, Eq, Structural)]
pub enum SettingsError {
    /// The configuration names no HTTP host.
    MissingHost,
}

/// `o` where it holds a value, `default` otherwise.
pub open spec fn or_default(o: Option<Seq<char>>, default: Seq<char>) -> Seq<char> {
    match o {
        Some(v) => v,
        None => default,
    }
}

/// What building settings from `values` gives: an error exactly when the host
/// is missing; otherwise each setting is its configured value, or its
/// default where the value is missing.
pub open spec fn settings_from_values(values: ConfigValues, res: Result<Settings, SettingsError>) -> bool {
    match values.host {
        None => res == Err::<Settings, SettingsError>(SettingsError::MissingHost),
        Some(host) => match res {
            Err(_) => false,
            Ok(s) => {
                &&& s.host@ == host@
                &&& s.port == values.port
                &&& s.workers == values.workers
                &&& s.reporting_enabled == (values.reporting_enabled == Some(true))
                &&& s.abuseipdb_key.deep_view() == values.abuseipdb_key.deep_view()
                &&& s.report_endpoint@ == or_default(values.report_endpoint.deep_view(), DEFAULT_REPORT_ENDPOINT@)
                &&& s.db_path@ == or_default(values.db_path.deep_view(), DEFAULT_DB_PATH@)
            },
        },
    }
}

fn string_or(o: Option<String>, default: &str) -> (s: String)
    ensures
        s@ == or_default(o.deep_view(), default@),
{
    match o {
        Some(v) => v,
        None => String::from_str(default),
    }
}

/// Declares `config::Config`, carried as an opaque value.
#[verifier::external_type_specification]
#[verifier::external_body]
pub struct ExConfig(Config);

/// The value stored under `key` in `m`, if any.
pub open spec fn lookup<V>(m: Map<Seq<char>, V>, key: Seq<char>) -> Option<V> {
    if m.contains_key(key) {
        Some(m[key])
    } else {
        None
    }
}

/// A key that `Config::get` reads as a plain path of names, without a
/// subscript such as `a[-1]` (a negative subscript past the end of an array
/// makes the lookup overflow).
pub open spec fn plain_key(key: Seq<char>) -> bool {
    forall|i: int| 0 <= i < key.len() ==> key[i] != '['
}

/// What a loaded configuration holds as text: each key for which
/// `Config::get_str` succeeds, with the text it returns.
pub uninterp spec fn config_strings(config: Config) -> Map<Seq<char>, Seq<char>>;

/// What a loaded configuration holds that deserializes to a `String`: each key
/// for which `Config::get::<String>` succeeds, with the text it returns.
pub uninterp spec fn config_deserialized_strings(config: Config) -> Map<Seq<char>, Seq<char>>;

/// What a loaded configuration holds as integers: each key for which
/// `Config::get_int` succeeds, with the integer it returns.
pub uninterp spec fn config_ints(config: Config) -> Map<Seq<char>, i64>;

/// What a loaded configuration holds as booleans: each key for which
/// `Config::get_bool` succeeds, with the boolean it returns.
pub uninterp spec fn config_bools(config: Config) -> Map<Seq<char>, bool>;

/// Looks `key` up with `Config::get_str`; `None` where that returns an error.
/// The lookup reads only the configuration's cached values (a `Config` has no
/// interior mutability), so the result is what the configuration holds under
/// `key`; which keys it holds depends on the loaded files and environment.
/// Keys with a subscript are left out: one can make the lookup overflow.
#[verifier::external_body]
fn config_get_str(config: &Config, key: &str) -> (res: Option<String>)
    requires
        plain_key(key@),
    ensures
        res.deep_view() == lookup(config_strings(*config), key@),
{
    config.get_str(key).ok()
}

/// Looks `key` up with `Config::get::<String>`; `None` where that returns an
/// error. The result is what the configuration holds under `key`. Keys with a
/// subscript are left out.
#[verifier::external_body]
fn config_get_string(config: &Config, key: &str) -> (res: Option<String>)
    requires
        plain_key(key@),
    ensures
        res.deep_view() == lookup(config_deserialized_strings(*config), key@),
{
    config.get::<String>(key).ok()
}

/// Looks `key` up with `Config::get_int`; `None` where that returns an error.
/// The result is what the configuration holds under `key`. Keys with a
/// subscript are left out.
#[verifier::external_body]
fn config_get_int(config: &Config, key: &str) -> (res: Option<i64>)
    requires
        plain_key(key@),
    ensures
        res == lookup(config_ints(*config), key@),
{
    config.get_int(key).ok()
}

/// Looks `key` up with `Config::get_bool`; `None` where that returns an error.
/// The result is what the configuration holds under `key`. Keys with a
/// subscript are left out.
#[verifier::external_body]
fn config_get_bool(config: &Config, key: &str) -> (res: Option<bool>)
    requires
        plain_key(key@),
    ensures
        res == lookup(config_bools(*config), key@),
{
    config.get_bool(key).ok()
}

/// The keys under which a configuration holds the settings.
pub struct KeyNames {
    pub host: Seq<char>,
    pub port: Seq<char>,
    /// `None` where the layout has no key for the number of workers.
    pub workers: Option<Seq<char>>,
    pub reporting_enabled: Seq<char>,
    pub abuseipdb_key: Seq<char>,
    pub report_endpoint: Seq<char>,
    pub db_path: Seq<char>,
}

/// The keys of the configuration file: `http.host`, `http.port`,
/// `http.workers`, `reporting.enabled`, `reporting.abuseipdb-key`,
/// `report-endpoint` and `db.path`.
pub open spec fn sectioned_keys() -> KeyNames {
    KeyNames {
        host: "http.host"@,
        port: "http.port"@,
        workers: Some("http.workers"@),
        reporting_enabled: "reporting.enabled"@,
        abuseipdb_key: "reporting.abuseipdb-key"@,
        report_endpoint: "report-endpoint"@,
        db_path: "db.path"@,
    }
}

/// The flat keys that the server's start-up reads: `http-host`, `http-port`,
/// `enable-reporting`, `abuseipdb-key`, `report-endpoint` and `db-path`; it
/// reads no number of workers.
pub open spec fn flat_keys() -> KeyNames {
    KeyNames {
        host: "http-host"@,
        port: "http-port"@,
        workers: None,
        reporting_enabled: "enable-reporting"@,
        abuseipdb_key: "abuseipdb-key"@,
        report_endpoint: "report-endpoint"@,
        db_path: "db-path"@,
    }
}

/// Whether no key of `keys` has a subscript.
pub open spec fn plain_keys(keys: KeyNames) -> bool {
    &&& plain_key(keys.host)
    &&& plain_key(keys.port)
    &&& (keys.workers matches Some(w) ==> plain_key(w))
    &&& plain_key(keys.reporting_enabled)
    &&& plain_key(keys.abuseipdb_key)
    &&& plain_key(keys.report_endpoint)
    &&& plain_key(keys.db_path)
}

/// The keys under which a configuration holds the settings.
pub struct ConfigKeys {
    pub host: &'static str,
    pub port: &'static str,
    pub workers: Option<&'static str>,
    pub reporting_enabled: &'static str,
    pub abuseipdb_key: &'static str,
    pub report_endpoint: &'static str,
    pub db_path: &'static str,
}

impl View for ConfigKeys {
    type V = KeyNames;

    open spec fn view(&self) -> KeyNames {
        KeyNames {
            host: self.host@,
            port: self.port@,
            workers: match self.workers {
                Some(w) => Some(w@),
                None => None,
            },
            reporting_enabled: self.reporting_enabled@,
            abuseipdb_key: self.abuseipdb_key@,
            report_endpoint: self.report_endpoint@,
            db_path: self.db_path@,
        }
    }
}

/// The keys of the configuration file.
pub fn sectioned_config_keys() -> (keys: ConfigKeys)
    ensures
        keys@ == sectioned_keys(),
        plain_keys(keys@),
{
    proof {
        reveal_strlit("http.host");
        reveal_strlit("http.port");
        reveal_strlit("http.workers");
        reveal_strlit("reporting.enabled");
        reveal_strlit("reporting.abuseipdb-key");
        reveal_strlit("report-endpoint");
        reveal_strlit("db.path");
    }
    ConfigKeys {
        host: "http.host",
        port: "http.port",
        workers: Some("http.workers"),
        reporting_enabled: "reporting.enabled",
        abuseipdb_key: "reporting.abuseipdb-key",
        report_endpoint: "report-endpoint",
        db_path: "db.path",
    }
}

/// The flat keys that the server's start-up reads.
pub fn flat_config_keys() -> (keys: ConfigKeys)
    ensures
        keys@ == flat_keys(),
        plain_keys(keys@),
{
    proof {
        reveal_strlit("http-host");
        reveal_strlit("http-port");
        reveal_strlit("enable-reporting");
        reveal_strlit("abuseipdb-key");
        reveal_strlit("report-endpoint");
        reveal_strlit("db-path");
    }
    ConfigKeys {
        host: "http-host",
        port: "http-port",
        workers: None,
        reporting_enabled: "enable-reporting",
        abuseipdb_key: "abuseipdb-key",
        report_endpoint: "report-endpoint",
        db_path: "db-path",
    }
}

/// Whether `values` are what `config` holds under `keys`; the number of
/// workers is `None` where `keys` has no key for it.
pub open spec fn config_values_under(config: Config, keys: KeyNames, values: ConfigValues) -> bool {
    &&& values.host.deep_view() == lookup(config_strings(config), keys.host)
    &&& values.port == lookup(config_ints(config), keys.port)
    &&& values.workers == match keys.workers {
        Some(w) => lookup(config_ints(config), w),
        None => None,
    }
    &&& values.reporting_enabled == lookup(config_bools(config), keys.reporting_enabled)
    &&& values.abuseipdb_key.deep_view() == lookup(config_strings(config), keys.abuseipdb_key)
    &&& values.report_endpoint.deep_view() == lookup(config_deserialized_strings(config), keys.report_endpoint)
    &&& values.db_path.deep_view() == lookup(config_strings(config), keys.db_path)
}

/// Whether `values` are what `config` holds under the keys of the
/// configuration file.
pub open spec fn config_values_of(config: Config, values: ConfigValues) -> bool {
    config_values_under(config, sectioned_keys(), values)
}

/// Reads the value of each setting from a loaded configuration, under `keys`.
pub fn read_config_values_under(config: &Config, keys: &ConfigKeys) -> (values: ConfigValues)
    requires
        plain_keys(keys@),
    ensures
        config_values_under(*config, keys@, values),
{
    ConfigValues {
        host: config_get_str(config, keys.host),
        port: config_get_int(config, keys.port),
        workers: match keys.workers {
            Some(w) => config_get_int(config, w),
            None => None,
        },
        reporting_enabled: config_get_bool(config, keys.reporting_enabled),
        abuseipdb_key: config_get_str(config, keys.abuseipdb_key),
        report_endpoint: config_get_string(config, keys.report_endpoint),
        db_path: config_get_str(config, keys.db_path),
    }
}

/// Reads the value of each setting from a loaded configuration.
pub fn read_config_values(config: &Config) -> (values: ConfigValues)
    ensures
        config_values_of(*config, values),
{
    read_config_values_under(config, &sectioned_config_keys())
}

/// Whether `res` is what loading the settings from `config` under `keys`
/// gives: what `from_values` makes of the values held under those keys.
pub open spec fn loads_from(config: Config, keys: KeyNames, res: Result<Settings, SettingsError>) -> bool {
    exists|values: ConfigValues| config_values_under(config, keys, values) && settings_from_values(values, res)
}

/// Builds the settings from the values that a loaded configuration holds
/// under `keys`.
pub fn load_configuration_under(config: &Config, keys: &ConfigKeys) -> (res: Result<Settings, SettingsError>)
    requires
        plain_keys(keys@),
    ensures
        loads_from(*config, keys@, res),
{
    let values = read_config_values_under(config, keys);
    let ghost v = values;
    let res = Settings::from_values(values);
    assert(config_values_under(*config, keys@, v) && settings_from_values(v, res));
    res
}

/// Builds the settings from the values that a loaded configuration holds
/// under the keys of the configuration file.
pub fn load_configuration(config: &Config) -> (res: Result<Settings, SettingsError>)
    ensures
        loads_from(*config, sectioned_keys(), res),
{
    load_configuration_under(config, &sectioned_config_keys())
}

/// Builds the settings from the values that a loaded configuration holds
/// under the flat keys that the server's start-up reads.
pub fn load_flat_configuration(config: &Config) -> (res: Result<Settings, SettingsError>)
    ensures
        loads_from(*config, flat_keys(), res),
{
    load_configuration_under(config, &flat_config_keys())
}

/// Whether the configuration asks for pending database migrations to be run
/// at start-up (`db-migrate`); it does not where the key is missing.
pub fn migrations_enabled(config: &Config) -> (res: bool)
    ensures
        res == (lookup(config_bools(*config), "db-migrate"@) == Some(true)),
{
    proof { reveal_strlit("db-migrate"); }
    match config_get_bool(config, "db-migrate") {
        Some(b) => b,
        None => false,
    }
}

/// Whether two outcomes of loading settings are the same: the same error, or
/// settings with the same values.
pub open spec fn same_outcome(a: Result<Settings, SettingsError>, b: Result<Settings, SettingsError>) -> bool {
    match (a, b) {
        (Err(x), Err(y)) => x == y,
        (Ok(s), Ok(t)) => {
            &&& s.host@ == t.host@
            &&& s.port == t.port
            &&& s.workers == t.workers
            &&& s.reporting_enabled == t.reporting_enabled
            &&& s.abuseipdb_key.deep_view() == t.abuseipdb_key.deep_view()
            &&& s.report_endpoint@ == t.report_endpoint@
            &&& s.db_path@ == t.db_path@
        },
        _ => false,
    }
}

/// Loading the settings twice from one configuration gives the same settings.
pub proof fn lemma_load_deterministic(
    config: Config,
    keys: KeyNames,
    a: Result<Settings, SettingsError>,
    b: Result<Settings, SettingsError>,
)
    requires
        loads_from(config, keys, a),
        loads_from(config, keys, b),
    ensures
        same_outcome(a, b),
{
    let va = choose|v: ConfigValues| config_values_under(config, keys, v) && settings_from_values(v, a);
    let vb = choose|v: ConfigValues| config_values_under(config, keys, v) && settings_from_values(v, b);
    assert(va.host.deep_view() == vb.host.deep_view());
}

/// Loading fails exactly when the configuration holds no host; otherwise each
/// setting is the value held under its key, or its default.
pub proof fn lemma_load_outcome(config: Config, keys: KeyNames, res: Result<Settings, SettingsError>)
    requires
        loads_from(config, keys, res),
    ensures
        res is Err <==> lookup(config_strings(config), keys.host) is None,
        res matches Ok(s) ==> {
            &&& Some(s.host@) == lookup(config_strings(config), keys.host)
            &&& s.port == lookup(config_ints(config), keys.port)
            &&& s.workers == match keys.workers {
                Some(w) => lookup(config_ints(config), w),
                None => None,
            }
            &&& s.reporting_enabled == (lookup(config_bools(config), keys.reporting_enabled) == Some(true))
            &&& s.abuseipdb_key.deep_view() == lookup(config_strings(config), keys.abuseipdb_key)
            &&& s.report_endpoint@ == or_default(
                lookup(config_deserialized_strings(config), keys.report_endpoint),
                DEFAULT_REPORT_ENDPOINT@,
            )
            &&& s.db_path@ == or_default(lookup(config_strings(config), keys.db_path), DEFAULT_DB_PATH@)
        },
{
    let v = choose|v: ConfigValues| config_values_under(config, keys, v) && settings_from_values(v, res);
}

impl Settings {
    /// Builds the settings from the values read from a configuration.
    pub fn from_values(values: ConfigValues) -> (res: Result<Settings, SettingsError>)
        ensures
            settings_from_values(values, res),
    {
        match values.host {
            None => Err(SettingsError::MissingHost),
            Some(host) => {
                let reporting_enabled = match values.reporting_enabled {
                    Some(b) => b,
                    None => false,
                };
                Ok(Settings {
                    host,
                    port: values.port,
                    workers: values.workers,
                    reporting_enabled,
                    abuseipdb_key: values.abuseipdb_key,
                    report_endpoint: string_or(values.report_endpoint, DEFAULT_REPORT_ENDPOINT),
                    db_path: string_or(values.db_path, DEFAULT_DB_PATH),
                })
            },
        }
    }
}

/// Loading the settings of the configuration file reads each setting under
/// its key in the file: the host under `http.host` (failing exactly where there
/// is none), the port under `http.port`, the workers under `http.workers`,
/// reporting under `reporting.enabled`, the API key under
/// `reporting.abuseipdb-key`, the endpoint under `report-endpoint` and the
/// database under `db.path`, with the defaults where a value is missing.
pub proof fn lemma_configuration_file_keys(config: Config, res: Result<Settings, SettingsError>)
    requires
        loads_from(config, sectioned_keys(), res),
    ensures
        res is Err <==> lookup(config_strings(config), "http.host"@) is None,
        res matches Ok(s) ==> {
            &&& Some(s.host@) == lookup(config_strings(config), "http.host"@)
            &&& s.port == lookup(config_ints(config), "http.port"@)
            &&& s.workers == lookup(config_ints(config), "http.workers"@)
            &&& s.reporting_enabled == (lookup(config_bools(config), "reporting.enabled"@) == Some(true))
            &&& s.abuseipdb_key.deep_view() == lookup(config_strings(config), "reporting.abuseipdb-key"@)
            &&& s.report_endpoint@ == or_default(
                lookup(config_deserialized_strings(config), "report-endpoint"@),
                "https://api.abuseipdb.com/api/v2/report"@,
            )
            &&& s.db_path@ == or_default(lookup(config_strings(config), "db.path"@), "storage.db"@)
        },
{
    lemma_load_outcome(config, sectioned_keys(), res);
}

/// Loading the settings at start-up reads each setting under its flat key:
/// the host under `http-host` (failing exactly where there is none), the port
/// under `http-port`, reporting under `enable-reporting`, the API key under
/// `abuseipdb-key`, the endpoint under `report-endpoint` and the database under
/// `db-path`; no number of workers is read.
pub proof fn lemma_start_up_keys(config: Config, res: Result<Settings, SettingsError>)
    requires
        loads_from(config, flat_keys(), res),
    ensures
        res is Err <==> lookup(config_strings(config), "http-host"@) is None,
        res matches Ok(s) ==> {
            &&& Some(s.host@) == lookup(config_strings(config), "http-host"@)
            &&& s.port == lookup(config_ints(config), "http-port"@)
            &&& s.workers is None
            &&& s.reporting_enabled == (lookup(config_bools(config), "enable-reporting"@) == Some(true))
            &&& s.abuseipdb_key.deep_view() == lookup(config_strings(config), "abuseipdb-key"@)
            &&& s.report_endpoint@ == or_default(
                lookup(config_deserialized_strings(config), "report-endpoint"@),
                "https://api.abuseipdb.com/api/v2/report"@,
            )
            &&& s.db_path@ == or_default(lookup(config_strings(config), "db-path"@), "storage.db"@)
        },
{
    lemma_load_outcome(config, flat_keys(), res);
}

} // verus!
