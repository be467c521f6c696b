//! Configuration and routing.

use lily::application::config::{Config, Environment};
use lily::connector::router::RoutedChat;

fn empty() -> Environment {
    Environment {
        discord_token: None,
        opencode_url: None,
        data_dir: None,
        home: None,
        interrupt_timeout_ms: None,
        allowed_users: None,
        matrix_homeserver: None,
        matrix_user: None,
        matrix_password: None,
    }
}

fn at_home() -> Environment {
    Environment { home: Some("/home/ann".to_string()), ..empty() }
}

#[test]
fn defaults_come_from_home() {
    let c = Config::from_env(at_home()).unwrap();
    assert_eq!(c.data_dir, "/home/ann/.lily");
    assert_eq!(c.db_path(), "/home/ann/.lily/lily.db");
    assert_eq!(c.opencode_url, "http://127.0.0.1:4096");
    assert_eq!(c.interrupt_timeout_ms, 3000);
    assert_eq!(c.discord_token, None);
    assert_eq!(Config::from_env(empty()).unwrap_err(), "HOME is not set");
}

#[test]
fn variables_override_the_defaults() {
    let c = Config::from_env(Environment {
        data_dir: Some("/srv/lily/".to_string()),
        opencode_url: Some("http://oc:1".to_string()),
        interrupt_timeout_ms: Some("250".to_string()),
        ..empty()
    })
    .unwrap();
    assert_eq!(c.db_path(), "/srv/lily/lily.db");
    assert_eq!(c.opencode_url, "http://oc:1");
    assert_eq!(c.interrupt_timeout_ms, 250);
    let c = Config::from_env(Environment {
        interrupt_timeout_ms: Some("soon".to_string()),
        ..at_home()
    })
    .unwrap();
    assert_eq!(c.interrupt_timeout_ms, 3000);
}

#[test]
fn an_allowlist_admits_its_members_only() {
    let c = Config::from_env(at_home()).unwrap();
    assert!(c.is_user_allowed("1"));
    let c = Config::from_env(Environment {
        allowed_users: Some(" 1, @ann:example.org ,,2".to_string()),
        ..at_home()
    })
    .unwrap();
    assert!(c.is_user_allowed("1"));
    assert!(c.is_user_allowed("2"));
    assert!(c.is_user_allowed("@ann:example.org"));
    assert!(!c.is_user_allowed("12"));
    assert!(!c.is_user_allowed(""));
}

#[test]
fn some_connector_has_to_run() {
    let with = |token: Option<&str>, server: Option<&str>| {
        Config::from_env(Environment {
            discord_token: token.map(str::to_string),
            matrix_homeserver: server.map(str::to_string),
            ..at_home()
        })
        .unwrap()
    };
    assert_eq!(with(Some("t"), None).connectors(), Ok((true, false)));
    assert_eq!(with(None, Some("s")).connectors(), Ok((false, true)));
    assert_eq!(
        with(None, None).connectors(),
        Err(
            "no connector configured: set DISCORD_TOKEN and/or MATRIX_HOMESERVER (+ MATRIX_USER, MATRIX_PASSWORD)"
                .to_string()
        )
    );
}

#[test]
fn matrix_needs_all_of_its_login() {
    let with = |user: Option<&str>, password: Option<&str>| {
        Config::from_env(Environment {
            matrix_homeserver: Some("https://m".to_string()),
            matrix_user: user.map(str::to_string),
            matrix_password: password.map(str::to_string),
            ..at_home()
        })
        .unwrap()
        .matrix_login()
    };
    assert_eq!(
        with(Some("bot"), Some("secret")),
        Ok(("https://m".to_string(), "bot".to_string(), "secret".to_string()))
    );
    assert_eq!(with(None, Some("x")), Err("MATRIX_USER is not set".to_string()));
    assert_eq!(with(Some("bot"), None), Err("MATRIX_PASSWORD is not set".to_string()));
    assert_eq!(
        Config::from_env(at_home()).unwrap().matrix_login(),
        Err("MATRIX_HOMESERVER is not set".to_string())
    );
}

#[test]
fn ids_are_routed_by_their_shape() {
    let both = RoutedChat { discord: Some("discord"), matrix: Some("matrix") };
    assert_eq!(both.pick("123"), Ok(&"discord"));
    assert_eq!(both.pick("!r:example.org"), Ok(&"matrix"));
    assert_eq!(both.pick("!r:example.org|$e"), Ok(&"matrix"));
    assert_eq!(both.pick("r|$e"), Ok(&"matrix"));
    let one = RoutedChat { discord: None, matrix: Some("matrix") };
    assert_eq!(one.pick("123"), Err("no connector running for id 123".to_string()));
}
