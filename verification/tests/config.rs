//! Tests for the configuration rule.

use esc_api::config::{Config, GoogleConfig};

#[test]
fn config_with_client_id_is_accepted() {
    let config = Config { google: GoogleConfig { client_id: "client-x".to_string() } };
    let checked = config.check().ok().unwrap();
    assert_eq!(checked.google.client_id, "client-x".to_string());
}

#[test]
fn config_without_client_id_is_rejected() {
    let config = Config { google: GoogleConfig { client_id: String::new() } };
    let err = config.check().err().unwrap();
    assert_eq!(err, "Must include a twitch client id".to_string());
}
