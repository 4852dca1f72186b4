use zero2prod::configuration::DatabaseSettings;
use zero2prod::configuration::Environment;
use zero2prod::secret::Secret;

fn database(port: u16) -> DatabaseSettings {
    DatabaseSettings {
        username: "postgres".to_string(),
        password: Secret::new("pass:word".to_string()),
        host: "127.0.0.1".to_string(),
        port,
        database_name: "newsletter".to_string(),
    }
}

#[test]
fn environment_names_are_lower_case() {
    assert_eq!(Environment::Local.as_str(), "local");
    assert_eq!(Environment::Production.as_str(), "production");
}

#[test]
fn environment_is_read_in_any_case() {
    assert_eq!(Environment::try_from("local".to_string()), Ok(Environment::Local));
    assert_eq!(Environment::try_from("LOCAL".to_string()), Ok(Environment::Local));
    assert_eq!(Environment::try_from("Production".to_string()), Ok(Environment::Production));
}

#[test]
fn unknown_environment_is_refused_with_its_lower_case_name() {
    assert_eq!(
        Environment::try_from("Staging".to_string()),
        Err("staging is not a valid environment. Use either local or production.".to_string())
    );
    assert_eq!(
        Environment::try_from("".to_string()),
        Err(" is not a valid environment. Use either local or production.".to_string())
    );
}

#[test]
fn lower_case_name_is_read_exactly() {
    assert_eq!(Environment::from_name("production".to_string()), Ok(Environment::Production));
    assert_eq!(
        Environment::from_name("LOCAL".to_string()),
        Err("LOCAL is not a valid environment. Use either local or production.".to_string())
    );
}

#[test]
fn connection_string_names_the_database() {
    assert_eq!(
        database(5432).connection_string().expose(),
        "postgres://postgres:pass:word@127.0.0.1:5432/newsletter"
    );
}

#[test]
fn connection_string_without_db_stops_at_the_port() {
    assert_eq!(
        database(5432).connection_string_without_db().expose(),
        "postgres://postgres:pass:word@127.0.0.1:5432"
    );
}

#[test]
fn port_is_written_in_decimal_without_leading_zeros() {
    assert_eq!(database(0).connection_string_without_db().expose(), "postgres://postgres:pass:word@127.0.0.1:0");
    assert_eq!(database(7).connection_string_without_db().expose(), "postgres://postgres:pass:word@127.0.0.1:7");
    assert_eq!(database(10).connection_string_without_db().expose(), "postgres://postgres:pass:word@127.0.0.1:10");
    assert_eq!(database(65535).connection_string_without_db().expose(), "postgres://postgres:pass:word@127.0.0.1:65535");
}

#[test]
fn secret_does_not_show_in_debug_output() {
    let shown = format!("{:?}", database(5432));
    assert!(!shown.contains("pass:word"));
}
