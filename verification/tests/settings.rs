use backend::settings::{
    get_development_settings, get_production_settings, get_test_settings, merge_env, settings_from_env,
    try_get_test_settings, EnvVars, Environment, Settings,
};

fn ok(s: &str) -> Result<String, String> {
    Ok(s.to_string())
}

fn env_vars() -> EnvVars {
    EnvVars {
        app_environment: Some("testing".to_string()),
        app_debug: None,
        max_login_attempts: ok("5"),
        login_attempts_cool_time_seconds: ok("300"),
        slack_incoming_webhook_path: ok("/services/T000/B000/XXXX"),
        database_url: ok("postgres://localhost/app"),
        database_encryption_key: ok("key"),
        database_encryption_nonce: ok("nonce"),
        redis_url: ok("redis://localhost"),
        hmac_secret: ok("secret"),
    }
}

#[test]
fn base_settings_set_port_and_log_files() {
    let s = Settings::base_settings();
    assert_eq!(s.application.port, 8000);
    assert_eq!(s.application.max_log_files, 14);
    assert_eq!(s.application.host, "");
    assert_eq!(s.application.max_login_attempts, 0);
    assert!(!s.debug);
    assert_eq!(s.database.url, "");
    assert_eq!(s.redis.url, "");
    assert_eq!(s.secret.hmac_secret, "");
}

#[test]
fn environment_names_in_any_case() {
    assert_eq!(Environment::try_from("testing".to_string()), Ok(Environment::Testing));
    assert_eq!(Environment::try_from("Development".to_string()), Ok(Environment::Development));
    assert_eq!(Environment::try_from("PRODUCTION".to_string()), Ok(Environment::Production));
}

#[test]
fn unknown_environment_is_refused_in_lower_case() {
    assert_eq!(
        Environment::try_from("Staging".to_string()),
        Err("staging is not a supported environment.".to_string())
    );
}

#[test]
fn development_settings_merge_environment() {
    let s = get_development_settings(&env_vars()).unwrap();
    assert_eq!(s.application.host, "127.0.0.1");
    assert_eq!(s.application.slack_host, "https://hooks.slack.com");
    assert_eq!(s.application.port, 8000);
    assert_eq!(s.application.max_log_files, 14);
    assert_eq!(s.application.max_login_attempts, 5);
    assert_eq!(s.application.login_attempts_cool_time_seconds, 300);
    assert_eq!(s.application.slack_incoming_webhook_path, "/services/T000/B000/XXXX");
    assert_eq!(s.database.url, "postgres://localhost/app");
    assert_eq!(s.database.encryption_key, "key");
    assert_eq!(s.database.encryption_nonce, "nonce");
    assert_eq!(s.redis.url, "redis://localhost");
    assert_eq!(s.secret.hmac_secret, "secret");
    assert!(s.debug);
}

#[test]
fn production_settings_listen_everywhere_without_debug() {
    let s = get_production_settings(&env_vars()).unwrap();
    assert_eq!(s.application.host, "0.0.0.0");
    assert_eq!(s.application.slack_host, "https://hooks.slack.com");
    assert!(!s.debug);
    assert_eq!(s.application.max_login_attempts, 5);
}

#[test]
fn app_debug_overrides_the_preset() {
    let mut vars = env_vars();
    vars.app_debug = Some("true".to_string());
    assert!(get_production_settings(&vars).unwrap().debug);
    let mut vars = env_vars();
    vars.app_debug = Some("yes".to_string());
    assert!(!get_development_settings(&vars).unwrap().debug);
}

#[test]
fn unreadable_variable_reports_its_error() {
    let mut vars = env_vars();
    vars.database_url = Err("environment variable not found".to_string());
    assert_eq!(
        merge_env(Settings::base_settings(), &vars).unwrap_err(),
        "environment variable not found"
    );
}

#[test]
fn first_unreadable_variable_wins() {
    let mut vars = env_vars();
    vars.redis_url = Err("redis missing".to_string());
    vars.hmac_secret = Err("secret missing".to_string());
    assert_eq!(get_development_settings(&vars).unwrap_err(), "redis missing");
}

#[test]
fn numbers_must_parse() {
    let mut vars = env_vars();
    vars.max_login_attempts = ok("five");
    assert!(get_development_settings(&vars).is_err());
    let mut vars = env_vars();
    vars.login_attempts_cool_time_seconds = ok("-1");
    assert!(get_development_settings(&vars).is_err());
    let mut vars = env_vars();
    vars.max_login_attempts = ok("+7");
    assert_eq!(get_development_settings(&vars).unwrap().application.max_login_attempts, 7);
    let mut vars = env_vars();
    vars.max_login_attempts = ok("18446744073709551616");
    assert!(get_development_settings(&vars).is_err());
}

#[test]
fn settings_follow_app_environment() {
    let mut vars = env_vars();
    vars.app_environment = Some("Production".to_string());
    assert_eq!(settings_from_env(&vars).unwrap().application.host, "0.0.0.0");
    vars.app_environment = Some("development".to_string());
    assert_eq!(settings_from_env(&vars).unwrap().application.host, "127.0.0.1");
    vars.app_environment = None;
    assert_eq!(settings_from_env(&vars).unwrap().application.host, "0.0.0.0");
}

#[test]
fn unsupported_app_environment_is_reported() {
    let mut vars = env_vars();
    vars.app_environment = Some("QA".to_string());
    assert_eq!(
        settings_from_env(&vars).unwrap_err(),
        "Failed to parse APP_ENVIRONMENT: qa is not a supported environment."
    );
}

#[test]
fn test_settings_use_the_development_preset() {
    let s = get_test_settings(&env_vars());
    assert_eq!(s.application.host, "127.0.0.1");
    assert!(s.debug);
    assert_eq!(s.database.url, "postgres://localhost/app");
}

#[test]
fn test_settings_absent_when_environment_is_incomplete() {
    let mut vars = env_vars();
    vars.hmac_secret = Err("missing".to_string());
    assert!(try_get_test_settings(&vars).is_none());
    assert!(try_get_test_settings(&env_vars()).is_some());
}

#[test]
fn presets_differ_only_in_host_and_debug() {
    let d = get_development_settings(&env_vars()).unwrap();
    let p = get_production_settings(&env_vars()).unwrap();
    assert_eq!((d.application.host.as_str(), p.application.host.as_str()), ("127.0.0.1", "0.0.0.0"));
    assert_eq!((d.debug, p.debug), (true, false));
    assert_eq!(d.application.port, p.application.port);
    assert_eq!(d.application.max_log_files, p.application.max_log_files);
    assert_eq!(d.application.slack_host, p.application.slack_host);
    assert_eq!(d.application.vapid_private_key, p.application.vapid_private_key);
    assert_eq!(d.application.app_owner_email, p.application.app_owner_email);
    assert_eq!(d.database.url, p.database.url);
    assert_eq!(d.redis.url, p.redis.url);
    assert_eq!(d.secret.hmac_secret, p.secret.hmac_secret);
}

#[test]
fn unparsable_numbers_report_the_parse_error() {
    let mut vars = env_vars();
    vars.max_login_attempts = ok("five");
    assert_eq!(get_development_settings(&vars).unwrap_err(), "invalid digit found in string");
    let mut vars = env_vars();
    vars.login_attempts_cool_time_seconds = ok("");
    assert_eq!(get_development_settings(&vars).unwrap_err(), "cannot parse integer from empty string");
}
