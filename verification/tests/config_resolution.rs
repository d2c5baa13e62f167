use irclog::config::{debug_option, unwrap_config, ConfigError, DbConfig};
use irclog::options::ConfigMap;

fn map_of(pairs: &[(&str, &str)]) -> ConfigMap {
    let mut map = ConfigMap::new();
    for (key, value) in pairs {
        map.insert(String::from(*key), String::from(*value));
    }
    map
}

fn full() -> Vec<(&'static str, &'static str)> {
    vec![
        ("db_host", "db.example.org"),
        ("db_port", "27017"),
        ("db_name", "irc"),
        ("db_user", "logger"),
        ("db_pass", "s3cret"),
    ]
}

fn without(key: &str) -> ConfigMap {
    let pairs: Vec<(&str, &str)> = full().into_iter().filter(|(k, _)| *k != key).collect();
    map_of(&pairs)
}

fn with(key: &'static str, value: &'static str) -> ConfigMap {
    let mut pairs = full();
    pairs.push((key, value));
    map_of(&pairs)
}

#[test]
fn valid_map_round_trips_every_field() {
    let map = map_of(&full());
    let config = DbConfig::from(&map).unwrap();
    assert_eq!(config.host, "db.example.org");
    assert_eq!(config.port, 27017);
    assert_eq!(config.name, "irc");
    assert_eq!(config.user, "logger");
    assert_eq!(config.pass, "s3cret");
    assert!(!config.debug);
}

#[test]
fn port_bounds_are_those_of_sixteen_bits() {
    assert_eq!(DbConfig::from(&with("db_port", "0")).unwrap().port, 0);
    assert_eq!(DbConfig::from(&with("db_port", "65535")).unwrap().port, 65535);
    assert_eq!(
        DbConfig::from(&with("db_port", "65536")),
        Err(ConfigError::Invalid(String::from("db_port")))
    );
}

#[test]
fn missing_host_is_named() {
    assert_eq!(DbConfig::from(&without("db_host")), Err(ConfigError::Missing(String::from("db_host"))));
}

#[test]
fn missing_port_is_named() {
    assert_eq!(DbConfig::from(&without("db_port")), Err(ConfigError::Missing(String::from("db_port"))));
}

#[test]
fn missing_name_is_named() {
    assert_eq!(DbConfig::from(&without("db_name")), Err(ConfigError::Missing(String::from("db_name"))));
}

#[test]
fn missing_user_is_named() {
    assert_eq!(DbConfig::from(&without("db_user")), Err(ConfigError::Missing(String::from("db_user"))));
}

#[test]
fn missing_pass_is_named() {
    assert_eq!(DbConfig::from(&without("db_pass")), Err(ConfigError::Missing(String::from("db_pass"))));
}

#[test]
fn empty_map_names_the_host() {
    assert_eq!(
        DbConfig::from(&ConfigMap::new()),
        Err(ConfigError::Missing(String::from("db_host")))
    );
}

#[test]
fn port_that_is_no_number_is_invalid() {
    assert_eq!(
        DbConfig::from(&with("db_port", "notanumber")),
        Err(ConfigError::Invalid(String::from("db_port")))
    );
}

#[test]
fn unreadable_port_is_reported_before_a_missing_name() {
    let map = map_of(&[("db_host", "h"), ("db_port", "x"), ("db_user", "u"), ("db_pass", "p")]);
    assert_eq!(DbConfig::from(&map), Err(ConfigError::Invalid(String::from("db_port"))));
}

#[test]
fn missing_host_is_reported_before_an_unreadable_port() {
    let map = map_of(&[("db_port", "x"), ("db_name", "n"), ("db_user", "u"), ("db_pass", "p")]);
    assert_eq!(DbConfig::from(&map), Err(ConfigError::Missing(String::from("db_host"))));
}

#[test]
fn debug_is_set_only_by_true() {
    assert!(DbConfig::from(&with("debug", "true")).unwrap().debug);
    assert!(!DbConfig::from(&with("debug", "false")).unwrap().debug);
    assert!(!DbConfig::from(&with("debug", "yes")).unwrap().debug);
    assert!(!DbConfig::from(&with("debug", "TRUE")).unwrap().debug);
    assert!(!DbConfig::from(&with("debug", "")).unwrap().debug);
    assert!(!DbConfig::from(&map_of(&full())).unwrap().debug);
    assert!(debug_option(&with("debug", "true")));
    assert!(!debug_option(&ConfigMap::new()));
}

#[test]
fn empty_user_and_pass_are_valid_and_ask_for_no_authentication() {
    let map = map_of(&[
        ("db_host", "h"),
        ("db_port", "1"),
        ("db_name", "n"),
        ("db_user", ""),
        ("db_pass", ""),
    ]);
    let config = DbConfig::from(&map).unwrap();
    assert_eq!(config.user, "");
    assert_eq!(config.pass, "");
    assert!(!config.wants_auth());
}

#[test]
fn authentication_needs_both_user_and_pass() {
    assert!(DbConfig::from(&map_of(&full())).unwrap().wants_auth());
    assert!(!DbConfig::from(&with("db_user", "")).unwrap().wants_auth());
    assert!(!DbConfig::from(&with("db_pass", "")).unwrap().wants_auth());
}

#[test]
fn unwrap_config_gives_the_value_or_names_the_key() {
    let map = map_of(&full());
    assert_eq!(unwrap_config(&map, "db_name"), Ok("irc"));
    assert_eq!(unwrap_config(&map, "nothing"), Err(ConfigError::Missing(String::from("nothing"))));
}

#[test]
fn errors_say_what_is_wrong() {
    let missing = ConfigError::Missing(String::from("db_host"));
    assert_eq!(missing.message(), "db_host was not found in config");
    assert_eq!(missing.key(), "db_host");
    let invalid = ConfigError::Invalid(String::from("db_port"));
    assert_eq!(invalid.message(), "db_port is not valid");
    assert_eq!(invalid.key(), "db_port");
}

#[test]
fn a_later_value_replaces_an_earlier_one() {
    let mut map = ConfigMap::new();
    assert_eq!(map.get("k"), None);
    map.insert(String::from("k"), String::from("1"));
    map.insert(String::from("other"), String::from("x"));
    map.insert(String::from("k"), String::from("2"));
    assert_eq!(map.get("k"), Some(&String::from("2")));
    assert_eq!(map.get("other"), Some(&String::from("x")));
    assert_eq!(map.get("K"), None);
    assert_eq!(map.get(""), None);
}
