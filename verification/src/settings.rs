//! The service's settings: defaults, the development and production presets,
//! and how values read from the environment are merged into them. Reading the
//! environment is the caller's part; it hands over what it read in `EnvVars`.

use vstd::prelude::*;

verus! {

#[derive(Clone, Debug)]
pub struct ApplicationSettings {
    pub port: u64,
    pub host: String,
    pub max_log_files: usize,
    pub max_login_attempts: u64,
    pub login_attempts_cool_time_seconds: u64,
    pub slack_host: String,
    pub slack_incoming_webhook_path: String,
    pub vapid_private_key: String,
    pub app_owner_email: String,
}

#[derive(Clone, Debug)]
pub struct DatabaseSettings {
    pub url: String,
    pub encryption_key: String,
    pub encryption_nonce: String,
}

#[derive(Clone, Debug)]
pub struct RedisSettings {
    pub url: String,
}

#[derive(Clone, Debug)]
pub struct SecretSettings {
    pub hmac_secret: String,
}

#[derive(Clone, Debug)]
pub struct Settings {
    pub application: ApplicationSettings,
    pub database: DatabaseSettings,
    pub debug: bool,
    pub redis: RedisSettings,
    pub secret: SecretSettings,
}

pub struct ApplicationSettingsView {
    pub port: u64,
    pub host: Seq<char>,
    pub max_log_files: usize,
    pub max_login_attempts: u64,
    pub login_attempts_cool_time_seconds: u64,
    pub slack_host: Seq<char>,
    pub slack_incoming_webhook_path: Seq<char>,
    pub vapid_private_key: Seq<char>,
    pub app_owner_email: Seq<char>,
}

pub struct DatabaseSettingsView {
    pub url: Seq<char>,
    pub encryption_key: Seq<char>,
    pub encryption_nonce: Seq<char>,
}

pub struct SettingsView {
    pub application: ApplicationSettingsView,
    pub database: DatabaseSettingsView,
    pub debug: bool,
    pub redis_url: Seq<char>,
    pub hmac_secret: Seq<char>,
}

impl View for ApplicationSettings {
    type V = ApplicationSettingsView;

    open spec fn view(&self) -> ApplicationSettingsView {
        ApplicationSettingsView {
            port: self.port,
            host: self.host@,
            max_log_files: self.max_log_files,
            max_login_attempts: self.max_login_attempts,
            login_attempts_cool_time_seconds: self.login_attempts_cool_time_seconds,
            slack_host: self.slack_host@,
            slack_incoming_webhook_path: self.slack_incoming_webhook_path@,
            vapid_private_key: self.vapid_private_key@,
            app_owner_email: self.app_owner_email@,
        }
    }
}

impl View for DatabaseSettings {
    type V = DatabaseSettingsView;

    open spec fn view(&self) -> DatabaseSettingsView {
        DatabaseSettingsView {
            url: self.url@,
            encryption_key: self.encryption_key@,
            encryption_nonce: self.encryption_nonce@,
        }
    }
}

impl View for Settings {
    type V = SettingsView;

    open spec fn view(&self) -> SettingsView {
        SettingsView {
            application: self.application@,
            database: self.database@,
            debug: self.debug,
            redis_url: self.redis.url@,
            hmac_secret: self.secret.hmac_secret@,
        }
    }
}

pub open spec fn default_application_view() -> ApplicationSettingsView {
    ApplicationSettingsView {
        port: 0,
        host: Seq::empty(),
        max_log_files: 0,
        max_login_attempts: 0,
        login_attempts_cool_time_seconds: 0,
        slack_host: Seq::empty(),
        slack_incoming_webhook_path: Seq::empty(),
        vapid_private_key: Seq::empty(),
        app_owner_email: Seq::empty(),
    }
}

pub open spec fn default_database_view() -> DatabaseSettingsView {
    DatabaseSettingsView {
        url: Seq::empty(),
        encryption_key: Seq::empty(),
        encryption_nonce: Seq::empty(),
    }
}

pub open spec fn default_settings_view() -> SettingsView {
    SettingsView {
        application: default_application_view(),
        database: default_database_view(),
        debug: false,
        redis_url: Seq::empty(),
        hmac_secret: Seq::empty(),
    }
}

impl Default for ApplicationSettings {
    fn default() -> (res: ApplicationSettings)
        ensures
            res@ == default_application_view(),
    {
        ApplicationSettings {
            port: 0,
            host: String::new(),
            max_log_files: 0,
            max_login_attempts: 0,
            login_attempts_cool_time_seconds: 0,
            slack_host: String::new(),
            slack_incoming_webhook_path: String::new(),
            vapid_private_key: String::new(),
            app_owner_email: String::new(),
        }
    }
}

impl Default for DatabaseSettings {
    fn default() -> (res: DatabaseSettings)
        ensures
            res@ == default_database_view(),
    {
        DatabaseSettings {
            url: String::new(),
            encryption_key: String::new(),
            encryption_nonce: String::new(),
        }
    }
}

impl Default for RedisSettings {
    fn default() -> (res: RedisSettings)
        ensures
            res.url@ == Seq::<char>::empty(),
    {
        RedisSettings { url: String::new() }
    }
}

impl Default for SecretSettings {
    fn default() -> (res: SecretSettings)
        ensures
            res.hmac_secret@ == Seq::<char>::empty(),
    {
        SecretSettings { hmac_secret: String::new() }
    }
}

impl Default for Settings {
    fn default() -> (res: Settings)
        ensures
            res@ == default_settings_view(),
    {
        Settings {
            application: ApplicationSettings::default(),
            database: DatabaseSettings::default(),
            debug: false,
            redis: RedisSettings::default(),
            secret: SecretSettings::default(),
        }
    }
}

pub open spec fn base_settings_view() -> SettingsView {
    SettingsView {
        application: ApplicationSettingsView {
            port: 8000,
            max_log_files: 14,
            ..default_application_view()
        },
        ..default_settings_view()
    }
}

impl Settings {
    /// The defaults, listening on port 8000 and keeping 14 log files.
    pub fn base_settings() -> (res: Settings)
        ensures
            res@ == base_settings_view(),
    {
        let mut application = ApplicationSettings::default();
        application.port = 8000;
        application.max_log_files = 14;
        let d = Settings::default();
        Settings { application, ..d }
    }
}

/// The deployment the service runs in.
#[derive(Clone, Copy, Debug, PartialEq, Eq, Structural)]
pub enum Environment {
    Testing,
    Development,
    Production,
}

/// The lower-case form of a text under Unicode's case mapping, as computed by
/// `str::to_lowercase`.
pub uninterp spec fn lowercase(s: Seq<char>) -> Seq<char>;

/// The text holds ASCII characters only.
pub open spec fn is_ascii_text(s: Seq<char>) -> bool {
    forall|i: int| 0 <= i < s.len() ==> (#[trigger] s[i] as u32) < 128
}

/// The text with `A` to `Z` turned into `a` to `z` and every other character kept.
pub open spec fn ascii_lowercase(s: Seq<char>) -> Seq<char> {
    Seq::new(
        s.len(),
        |i: int|
            if 'A' <= s[i] && s[i] <= 'Z' {
                ((s[i] as u32) + 32) as char
            } else {
                s[i]
            },
    )
}

/// Lower-cases `s` with `str::to_lowercase`; its result is named `lowercase`,
/// a function of the text alone (the mapping follows Unicode's fixed tables).
/// On ASCII text the Unicode mapping turns exactly the capitals `A` to `Z`
/// into `a` to `z`; beyond ASCII nothing more is stated.
#[verifier::external_body]
fn to_lowercase(s: &str) -> (res: String)
    ensures
        res@ == lowercase(s@),
        is_ascii_text(s@) ==> res@ == ascii_lowercase(s@),
{
    s.to_lowercase()
}

pub open spec fn environment_named(name: Seq<char>) -> Option<Environment> {
    if name == "testing"@ {
        Some(Environment::Testing)
    } else if name == "development"@ {
        Some(Environment::Development)
    } else if name == "production"@ {
        Some(Environment::Production)
    } else {
        None
    }
}

pub open spec fn unsupported_environment_text(name: Seq<char>) -> Seq<char> {
    name + " is not a supported environment."@
}

/// The environment named by an already lower-cased name.
pub fn environment_from_lowercase(name: &str) -> (res: Result<Environment, String>)
    ensures
        match environment_named(name@) {
            Some(e) => res == Ok::<Environment, String>(e),
            None => res matches Err(m) && m@ == unsupported_environment_text(name@),
        },
{
    let text = String::from_str(name);
    if text == String::from_str("testing") {
        Ok(Environment::Testing)
    } else if text == String::from_str("development") {
        Ok(Environment::Development)
    } else if text == String::from_str("production") {
        Ok(Environment::Production)
    } else {
        Err(text.concat(" is not a supported environment."))
    }
}

impl Environment {
    /// The environment named by `s`, in any letter case.
    pub fn try_from(s: String) -> (res: Result<Environment, String>)
        ensures
            match environment_named(lowercase(s@)) {
                Some(e) => res == Ok::<Environment, String>(e),
                None => res matches Err(m) && m@ == unsupported_environment_text(lowercase(s@)),
            },
            is_ascii_text(s@) ==> lowercase(s@) == ascii_lowercase(s@),
    {
        let lower = to_lowercase(s.as_str());
        environment_from_lowercase(lower.as_str())
    }
}

// ---------------------------------------------------------------------------
// Unsigned decimal numbers as `str::parse::<u64>` reads them.

pub open spec fn is_ascii_digit(c: char) -> bool {
    '0' <= c && c <= '9'
}

/// The value of a run of decimal digits.
pub open spec fn digits_value(s: Seq<char>) -> nat
    decreases s.len(),
{
    if s.len() == 0 {
        0
    } else {
        digits_value(s.drop_last()) * 10 + ((s.last() as int) - ('0' as int)) as nat
    }
}

/// The digits after an optional leading `+`.
pub open spec fn unsigned_digits(s: Seq<char>) -> Seq<char> {
    if s.len() > 0 && s[0] == '+' {
        s.drop_first()
    } else {
        s
    }
}

/// `s` is an optional `+` followed by at least one decimal digit and nothing
/// else, and its value fits in a `u64`.
pub open spec fn is_u64_text(s: Seq<char>) -> bool {
    let d = unsigned_digits(s);
    &&& d.len() > 0
    &&& forall|i: int| 0 <= i < d.len() ==> is_ascii_digit(#[trigger] d[i])
    &&& digits_value(d) <= u64::MAX
}

pub open spec fn u64_text_value(s: Seq<char>) -> nat {
    digits_value(unsigned_digits(s))
}

/// The text of the error that `str::parse::<u64>` reports for `s`, as its
/// `to_string()` writes it; it depends on the text alone (through the kind of
/// the failure).
pub uninterp spec fn u64_parse_error(s: Seq<char>) -> Seq<char>;

/// Reads an unsigned number with `str::parse::<u64>`, which accepts exactly
/// an optional `+` followed by decimal digits whose value fits in a `u64`. On
/// failure the error's `to_string()` is returned, named `u64_parse_error`.
#[verifier::external_body]
fn parse_u64(s: &str) -> (res: Result<u64, String>)
    ensures
        res is Ok <==> is_u64_text(s@),
        res matches Ok(n) ==> n == u64_text_value(s@),
        res matches Err(e) ==> e@ == u64_parse_error(s@),
{
    match s.parse::<u64>() {
        Ok(n) => Ok(n),
        Err(e) => Err(e.to_string()),
    }
}

// ---------------------------------------------------------------------------
// Merging the environment into the settings.

/// What the environment holds for the settings: for each required variable
/// its value, or the message of the error met reading it; for the optional
/// ones their value if set.
#[derive(Debug)]
pub struct EnvVars {
    /// `APP_ENVIRONMENT`
    pub app_environment: Option<String>,
    /// `APP_DEBUG`
    pub app_debug: Option<String>,
    /// `MAX_LOGIN_ATTEMPTS`
    pub max_login_attempts: Result<String, String>,
    /// `LOGIN_ATTEMPTS_COOL_TIME_SECONDS`
    pub login_attempts_cool_time_seconds: Result<String, String>,
    /// `SLACK_INCOMING_WEBHOOK_PATH`
    pub slack_incoming_webhook_path: Result<String, String>,
    /// `DATABASE_URL`
    pub database_url: Result<String, String>,
    /// `DATABASE_ENCRYPTION_KEY`
    pub database_encryption_key: Result<String, String>,
    /// `DATABASE_ENCRYPTION_NONCE`
    pub database_encryption_nonce: Result<String, String>,
    /// `REDIS_URL`
    pub redis_url: Result<String, String>,
    /// `APP_SECRET__HMAC_SECRET`
    pub hmac_secret: Result<String, String>,
}

pub open spec fn var_view(v: Result<String, String>) -> Result<Seq<char>, Seq<char>> {
    match v {
        Ok(s) => Ok(s@),
        Err(e) => Err(e@),
    }
}

/// Why merging the environment fails: a variable could not be read (with the
/// message of that error), or a number could not be parsed.
pub enum EnvFailure {
    Unreadable(Seq<char>),
    /// A number does not parse; its text.
    NotANumber(Seq<char>),
}

pub open spec fn text_var_failure(v: Result<String, String>) -> Option<EnvFailure> {
    match v {
        Ok(_) => None,
        Err(e) => Some(EnvFailure::Unreadable(e@)),
    }
}

pub open spec fn number_var_failure(v: Result<String, String>) -> Option<EnvFailure> {
    match v {
        Ok(s) => if is_u64_text(s@) { None } else { Some(EnvFailure::NotANumber(s@)) },
        Err(e) => Some(EnvFailure::Unreadable(e@)),
    }
}

/// The first failure met reading the variables in the order the settings are
/// assembled, if any.
pub open spec fn first_env_failure(vars: EnvVars) -> Option<EnvFailure> {
    if number_var_failure(vars.max_login_attempts) is Some {
        number_var_failure(vars.max_login_attempts)
    } else if number_var_failure(vars.login_attempts_cool_time_seconds) is Some {
        number_var_failure(vars.login_attempts_cool_time_seconds)
    } else if text_var_failure(vars.slack_incoming_webhook_path) is Some {
        text_var_failure(vars.slack_incoming_webhook_path)
    } else if text_var_failure(vars.database_url) is Some {
        text_var_failure(vars.database_url)
    } else if text_var_failure(vars.database_encryption_key) is Some {
        text_var_failure(vars.database_encryption_key)
    } else if text_var_failure(vars.database_encryption_nonce) is Some {
        text_var_failure(vars.database_encryption_nonce)
    } else if text_var_failure(vars.redis_url) is Some {
        text_var_failure(vars.redis_url)
    } else {
        text_var_failure(vars.hmac_secret)
    }
}

pub open spec fn ok_text(v: Result<String, String>) -> Seq<char> {
    match v {
        Ok(s) => s@,
        Err(_) => Seq::empty(),
    }
}

pub open spec fn ok_number(v: Result<String, String>) -> u64 {
    match v {
        Ok(s) => u64_text_value(s@) as u64,
        Err(_) => 0,
    }
}

/// `APP_DEBUG` turns debugging on exactly when it is `true`; unset, the
/// preset stays.
pub open spec fn merged_debug(preset: bool, app_debug: Option<String>) -> bool {
    match app_debug {
        Some(d) => d@ == "true"@,
        None => preset,
    }
}

/// The settings with the environment's values merged in, when every
/// variable could be read.
pub open spec fn merged_settings(s: SettingsView, vars: EnvVars) -> SettingsView {
    SettingsView {
        application: ApplicationSettingsView {
            max_login_attempts: ok_number(vars.max_login_attempts),
            login_attempts_cool_time_seconds: ok_number(vars.login_attempts_cool_time_seconds),
            slack_incoming_webhook_path: ok_text(vars.slack_incoming_webhook_path),
            ..s.application
        },
        database: DatabaseSettingsView {
            url: ok_text(vars.database_url),
            encryption_key: ok_text(vars.database_encryption_key),
            encryption_nonce: ok_text(vars.database_encryption_nonce),
        },
        debug: merged_debug(s.debug, vars.app_debug),
        redis_url: ok_text(vars.redis_url),
        hmac_secret: ok_text(vars.hmac_secret),
    }
}

/// The outcome of merging: the merged settings, the message of the first
/// unreadable variable, or the parse error of a number that does not parse.
pub open spec fn merge_outcome(s: SettingsView, vars: EnvVars, res: Result<Settings, String>) -> bool {
    match first_env_failure(vars) {
        None => res matches Ok(r) && r@ == merged_settings(s, vars),
        Some(EnvFailure::Unreadable(e)) => res matches Err(m) && m@ == e,
        Some(EnvFailure::NotANumber(t)) => res matches Err(m) && m@ == u64_parse_error(t),
    }
}

fn text_var(v: &Result<String, String>) -> (res: Result<String, String>)
    ensures
        var_view(res) == var_view(*v),
{
    match v {
        Ok(s) => Ok(s.clone()),
        Err(e) => Err(e.clone()),
    }
}

fn number_var(v: &Result<String, String>) -> (res: Result<u64, String>)
    ensures
        match number_var_failure(*v) {
            None => res == Ok::<u64, String>(ok_number(*v)),
            Some(EnvFailure::Unreadable(e)) => res matches Err(m) && m@ == e,
            Some(EnvFailure::NotANumber(t)) => res matches Err(m) && m@ == u64_parse_error(t),
        },
{
    match v {
        Ok(s) => parse_u64(s.as_str()),
        Err(e) => Err(e.clone()),
    }
}

/// Merges the environment into `s`: the login limits (parsed as numbers), the
/// Slack webhook path, the database connection, the Redis URL and the HMAC
/// secret are taken from the environment, and `APP_DEBUG` overrides the debug
/// flag when set. The first variable that cannot be read or parsed, in that
/// order, makes the merge fail with its error.
pub fn merge_env(s: Settings, vars: &EnvVars) -> (res: Result<Settings, String>)
    ensures
        merge_outcome(s@, *vars, res),
{
    let max_login_attempts = match number_var(&vars.max_login_attempts) {
        Ok(n) => n,
        Err(e) => return Err(e),
    };
    let login_attempts_cool_time_seconds = match number_var(&vars.login_attempts_cool_time_seconds) {
        Ok(n) => n,
        Err(e) => return Err(e),
    };
    let slack_incoming_webhook_path = match text_var(&vars.slack_incoming_webhook_path) {
        Ok(t) => t,
        Err(e) => return Err(e),
    };
    let url = match text_var(&vars.database_url) {
        Ok(t) => t,
        Err(e) => return Err(e),
    };
    let encryption_key = match text_var(&vars.database_encryption_key) {
        Ok(t) => t,
        Err(e) => return Err(e),
    };
    let encryption_nonce = match text_var(&vars.database_encryption_nonce) {
        Ok(t) => t,
        Err(e) => return Err(e),
    };
    let debug = match &vars.app_debug {
        Some(d) => *d == String::from_str("true"),
        None => s.debug,
    };
    let redis_url = match text_var(&vars.redis_url) {
        Ok(t) => t,
        Err(e) => return Err(e),
    };
    let hmac_secret = match text_var(&vars.hmac_secret) {
        Ok(t) => t,
        Err(e) => return Err(e),
    };
    let mut application = s.application;
    application.max_login_attempts = max_login_attempts;
    application.login_attempts_cool_time_seconds = login_attempts_cool_time_seconds;
    application.slack_incoming_webhook_path = slack_incoming_webhook_path;
    Ok(
        Settings {
            application,
            database: DatabaseSettings { url, encryption_key, encryption_nonce },
            debug,
            redis: RedisSettings { url: redis_url },
            secret: SecretSettings { hmac_secret },
        },
    )
}

pub open spec fn development_preset() -> SettingsView {
    let b = base_settings_view();
    SettingsView {
        application: ApplicationSettingsView {
            host: "127.0.0.1"@,
            slack_host: "https://hooks.slack.com"@,
            ..b.application
        },
        debug: true,
        ..b
    }
}

pub open spec fn production_preset() -> SettingsView {
    let b = base_settings_view();
    SettingsView {
        application: ApplicationSettingsView {
            host: "0.0.0.0"@,
            slack_host: "https://hooks.slack.com"@,
            ..b.application
        },
        debug: false,
        ..b
    }
}

/// The development preset (listening on 127.0.0.1, debugging on) with the
/// environment merged in.
pub fn get_development_settings(vars: &EnvVars) -> (res: Result<Settings, String>)
    ensures
        merge_outcome(development_preset(), *vars, res),
{
    let b = Settings::base_settings();
    let mut application = b.application;
    application.host = String::from_str("127.0.0.1");
    application.slack_host = String::from_str("https://hooks.slack.com");
    let preset = Settings {
        application,
        database: b.database,
        debug: true,
        redis: b.redis,
        secret: b.secret,
    };
    merge_env(preset, vars)
}

/// The production preset (listening on 0.0.0.0, debugging off) with the
/// environment merged in.
pub fn get_production_settings(vars: &EnvVars) -> (res: Result<Settings, String>)
    ensures
        merge_outcome(production_preset(), *vars, res),
{
    let b = Settings::base_settings();
    let mut application = b.application;
    application.host = String::from_str("0.0.0.0");
    application.slack_host = String::from_str("https://hooks.slack.com");
    let preset = Settings {
        application,
        database: b.database,
        debug: false,
        redis: b.redis,
        secret: b.secret,
    };
    merge_env(preset, vars)
}

/// The name of the environment to run in: `APP_ENVIRONMENT`, or `production`
/// when it is not set.
pub open spec fn environment_name(vars: EnvVars) -> Seq<char> {
    match vars.app_environment {
        Some(name) => name@,
        None => "production"@,
    }
}

/// The settings for the environment that `APP_ENVIRONMENT` names (in any
/// letter case; `production` when unset): the development preset for testing
/// and development, the production preset for production, each with the
/// environment merged in. Any other name is refused.
pub fn settings_from_env(vars: &EnvVars) -> (res: Result<Settings, String>)
    ensures
        match environment_named(lowercase(environment_name(*vars))) {
            Some(Environment::Testing) => merge_outcome(development_preset(), *vars, res),
            Some(Environment::Development) => merge_outcome(development_preset(), *vars, res),
            Some(Environment::Production) => merge_outcome(production_preset(), *vars, res),
            None => res matches Err(m) && m@ == "Failed to parse APP_ENVIRONMENT: "@
                + unsupported_environment_text(lowercase(environment_name(*vars))),
        },
        is_ascii_text(environment_name(*vars)) ==> lowercase(environment_name(*vars)) == ascii_lowercase(
            environment_name(*vars),
        ),
{
    let name = match &vars.app_environment {
        Some(name) => name.clone(),
        None => String::from_str("production"),
    };
    match Environment::try_from(name) {
        Ok(env) => match env {
            Environment::Testing => get_development_settings(vars),
            Environment::Development => get_development_settings(vars),
            Environment::Production => get_production_settings(vars),
        },
        Err(e) => Err(String::from_str("Failed to parse APP_ENVIRONMENT: ").concat(e.as_str())),
    }
}

/// The environment that `APP_ENVIRONMENT` names, if it names one.
pub open spec fn environment_of(vars: EnvVars) -> Option<Environment> {
    environment_named(lowercase(environment_name(vars)))
}

/// The settings for the named environment, with the environment merged in.
pub open spec fn settings_for(vars: EnvVars) -> SettingsView {
    match environment_of(vars) {
        Some(Environment::Production) => merged_settings(production_preset(), vars),
        _ => merged_settings(development_preset(), vars),
    }
}

/// The settings the test suite runs with: those of `settings_from_env`, which
/// must succeed; the environment is read from the testing env file first.
pub fn get_test_settings(vars: &EnvVars) -> (res: Settings)
    requires
        environment_of(*vars) is Some,
        first_env_failure(*vars) is None,
    ensures
        res@ == settings_for(*vars),
{
    match settings_from_env(vars) {
        Ok(settings) => settings,
        Err(_) => {
            proof {
                assert(false);
            }
            Settings::base_settings()
        },
    }
}

/// The test settings where the environment yields them, `None` where
/// `get_test_settings` would fail.
pub fn try_get_test_settings(vars: &EnvVars) -> (res: Option<Settings>)
    ensures
        res is Some <==> environment_of(*vars) is Some && first_env_failure(*vars) is None,
        res matches Some(s) ==> s@ == settings_for(*vars),
{
    match settings_from_env(vars) {
        Ok(_) => Some(get_test_settings(vars)),
        Err(_) => None,
    }
}

/// The development and the production settings, when both can be made, differ
/// only in the host they listen on and, unless `APP_DEBUG` is set, in debugging.
pub proof fn law_presets_differ_only_in_host_and_debug(
    vars: EnvVars,
    development: Settings,
    production: Settings,
)
    requires
        merge_outcome(development_preset(), vars, Ok(development)),
        merge_outcome(production_preset(), vars, Ok(production)),
    ensures
        development@.application.host == "127.0.0.1"@,
        production@.application.host == "0.0.0.0"@,
        development@ == (SettingsView {
            application: ApplicationSettingsView {
                host: "127.0.0.1"@,
                ..production@.application
            },
            debug: development@.debug,
            ..production@
        }),
        vars.app_debug is None ==> development@.debug && !production@.debug,
        vars.app_debug is Some ==> development@.debug == production@.debug,
{
}

} // verus!
