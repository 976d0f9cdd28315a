use venja::config::{Config, ConfigError, Environment};

fn config() -> Config {
    Config {
        env: Environment::Test,
        host: String::from("1.2.3.4"),
        port: 80,
    }
}

#[test]
fn server_address() {
    assert_eq!(config().server_address(), "1.2.3.4:80");
}

#[test]
fn environment_from_lowercase() {
    assert_eq!(
        Environment::from_str("development").unwrap(),
        Environment::Development
    );
}

#[test]
fn environment_from_uppercase() {
    assert_eq!(Environment::from_str("TEST").unwrap(), Environment::Test);
}

#[test]
fn environment_from_trimmed() {
    assert_eq!(
        Environment::from_str(" production ").unwrap(),
        Environment::Production
    );
}

#[test]
fn environment_from_error() {
    assert!(Environment::from_str("venja").is_err());
}

#[test]
fn environment_from_empty_and_blank() {
    assert!(Environment::from_str("").is_err());
    assert!(Environment::from_str(" \t\n").is_err());
}

#[test]
fn environment_from_mixed_case_and_unicode_space() {
    assert_eq!(
        Environment::from_str("\u{3000}PrOdUcTiOn\u{a0}").unwrap(),
        Environment::Production
    );
    assert!(Environment::from_str("te st").is_err());
    assert!(Environment::from_str("tests").is_err());
}

#[test]
fn environment_name_round_trip() {
    for env in [Environment::Test, Environment::Development, Environment::Production] {
        assert_eq!(Environment::from_str(env.name()).unwrap(), env);
    }
    assert_eq!(Environment::Test.name(), "test");
}

#[test]
fn server_address_negative_and_extreme_ports() {
    let mut c = config();
    c.port = -7;
    assert_eq!(c.server_address(), "1.2.3.4:-7");
    c.port = i32::MIN;
    assert_eq!(c.server_address(), "1.2.3.4:-2147483648");
    c.port = i32::MAX;
    assert_eq!(c.server_address(), "1.2.3.4:2147483647");
    c.port = 0;
    assert_eq!(c.server_address(), "1.2.3.4:0");
}

#[test]
fn settings_default_to_development_on_port_3000() {
    let c = Config::from_settings(None, None, None).unwrap();
    assert_eq!(c.env, Environment::Development);
    assert_eq!(c.host, "0.0.0.0");
    assert_eq!(c.port, 3000);
    assert_eq!(c.server_address(), "0.0.0.0:3000");
}

#[test]
fn settings_take_given_values() {
    let c = Config::from_settings(
        Some(String::from(" Test")),
        Some(String::from("127.0.0.1")),
        Some(String::from("+8080")),
    )
    .unwrap();
    assert_eq!(c.env, Environment::Test);
    assert_eq!(c.host, "127.0.0.1");
    assert_eq!(c.port, 8080);
}

#[test]
fn settings_refuse_bad_environment() {
    let r = Config::from_settings(Some(String::from("staging")), None, Some(String::from("x")));
    assert_eq!(r.unwrap_err(), ConfigError::InvalidEnvironment);
}

#[test]
fn settings_refuse_bad_port() {
    for p in ["", "-", "+", "80a", " 80", "2147483648", "99999999999999999999"] {
        let r = Config::from_settings(None, None, Some(String::from(p)));
        assert_eq!(r.unwrap_err(), ConfigError::InvalidPort, "port {:?}", p);
    }
    let c = Config::from_settings(None, None, Some(String::from("-2147483648"))).unwrap();
    assert_eq!(c.port, i32::MIN);
    let c = Config::from_settings(None, None, Some(String::from("0042"))).unwrap();
    assert_eq!(c.port, 42);
}
