use zero2prod::configuration::{DatabaseSettings, Environment, SslMode};

#[test]
fn environment_names() {
    assert_eq!(Environment::Local.as_str(), "local");
    assert_eq!(Environment::Production.as_str(), "production");
}

#[test]
fn environment_parsing_ignores_case() {
    assert_eq!(Environment::parse("LOCAL"), Ok(Environment::Local));
    assert_eq!(Environment::parse("Production"), Ok(Environment::Production));
    assert_eq!(Environment::try_from("local".to_string()), Ok(Environment::Local));
    assert_eq!(
        Environment::parse("Staging"),
        Err("staging is not a supported environment. Use either `local` or `production`.".to_string())
    );
    assert!(Environment::from_lowercase("LOCAL").is_err());
    assert_eq!(Environment::from_lowercase("production"), Ok(Environment::Production));
}

fn settings(require_ssl: bool) -> DatabaseSettings {
    DatabaseSettings {
        username: "postgres".to_string(),
        password: "password".to_string(),
        host: "localhost".to_string(),
        port: 5432,
        database_name: "newsletter".to_string(),
        require_ssl,
    }
}

#[test]
fn connection_options_follow_the_settings() {
    let without = settings(false).get_connection_options_without_db();
    assert_eq!(without.host, "localhost");
    assert_eq!(without.port, 5432);
    assert_eq!(without.username, "postgres");
    assert_eq!(without.password, "password");
    assert_eq!(without.ssl_mode, SslMode::Prefer);
    assert_eq!(without.database, None);

    let with = settings(true).get_connection_options_with_db();
    assert_eq!(with.ssl_mode, SslMode::Require);
    assert_eq!(with.database, Some("newsletter".to_string()));
}
