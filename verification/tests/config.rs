use bytes::Bytes;
use http_body_util::Empty;
use restate_sdk::endpoint::Endpoint;
use restate_toolkit::config::{split_identity_keys, validate_handler_names};
use restate_toolkit::{ConfigError, EndpointConfig, RetryPolicyOnMaxAttempts, SocketAddress};

const FIRST: &str = "publickeyv1_w7YHemBctH5Ck2nQRQ47iBBqhNHy4FV7t2Usbye2A6f";
const SECOND: &str = "publickeyv1_ChjENKeMvCtRnqG2mrBK1HmPKufgFUc98K8B3ononQvp";

fn strings(items: &[&str]) -> Vec<String> {
    items.iter().map(|item| item.to_string()).collect()
}

#[test]
fn delimited_identity_keys_split_on_commas_and_white_space() {
    let text = format!("  {FIRST},\r\n\t{SECOND} ");
    assert_eq!(split_identity_keys(&text), strings(&[FIRST, SECOND]));
    assert_eq!(split_identity_keys("key-a, key-b"), strings(&["key-a", "key-b"]));
    assert_eq!(split_identity_keys("key-a"), strings(&["key-a"]));
}

#[test]
fn empty_pieces_are_not_keys() {
    assert!(split_identity_keys("").is_empty());
    assert!(split_identity_keys(" ,, \n,").is_empty());
    assert_eq!(split_identity_keys(",a,,b,"), strings(&["a", "b"]));
}

#[test]
fn unicode_white_space_separates_keys_and_other_characters_do_not() {
    assert_eq!(split_identity_keys("a\u{3000}b\u{85}c\u{a0}d"), strings(&["a", "b", "c", "d"]));
    assert_eq!(split_identity_keys("a\u{200b}b;c"), strings(&["a\u{200b}b;c"]));
    assert_eq!(split_identity_keys("ключ-а ключ-б"), strings(&["ключ-а", "ключ-б"]));
}

#[test]
fn the_default_endpoint_listens_on_all_interfaces_and_trusts_no_keys() {
    let config = EndpointConfig::default();
    assert_eq!(config.listener, SocketAddress::V4 { octets: [0, 0, 0, 0], port: 9080 });
    assert!(config.identity_keys.is_empty());
}

#[test]
fn valid_identity_keys_are_added_to_the_builder() {
    let config = EndpointConfig { identity_keys: strings(&[FIRST, SECOND]), ..EndpointConfig::default() };
    let endpoint = config.apply(Endpoint::builder()).unwrap().build();
    let unsigned = http::Request::builder().uri("/health").body(Empty::<Bytes>::new()).unwrap();
    assert_eq!(endpoint.handle(unsigned).status(), 401);
}

#[test]
fn the_first_rejected_identity_key_is_reported_with_its_position() {
    let config = EndpointConfig {
        identity_keys: strings(&[FIRST, "invalid", "also-invalid"]),
        ..EndpointConfig::default()
    };
    match config.apply(Endpoint::builder()) {
        Err(ConfigError::IdentityKey { index, reason }) => {
            assert_eq!(index, 1);
            assert_eq!(reason, "identity v1 jwt public keys are expected to start with publickeyv1_");
        }
        other => panic!("unexpected {:?}", other.map(|_| ())),
    }
}

#[test]
fn handler_overrides_must_name_handlers_exactly() {
    let handlers = strings(&["fetch_info", "update"]);
    assert!(validate_handler_names("Example", &handlers, &strings(&["fetch_info"])).is_ok());
    assert!(validate_handler_names("Example", &handlers, &strings(&[])).is_ok());
    assert!(matches!(
        validate_handler_names("Example", &handlers, &strings(&["update", "Fetch_info", "missing"])),
        Err(ConfigError::UnknownHandler { service, handler }) if service == "Example" && handler == "Fetch_info"
    ));
}

#[test]
fn retry_actions_are_distinct() {
    assert_ne!(RetryPolicyOnMaxAttempts::Pause, RetryPolicyOnMaxAttempts::Kill);
}

#[test]
fn without_keys_the_builder_is_accepted_unchanged() {
    let config = EndpointConfig { identity_keys: Vec::new(), ..EndpointConfig::default() };
    assert!(config.apply(Endpoint::builder()).is_ok());
}

#[test]
fn identity_keys_accept_rotation_lists_or_delimited_strings_and_enforce_verification() {
    let list = EndpointConfig { identity_keys: strings(&[FIRST, SECOND]), ..EndpointConfig::default() };
    let text = EndpointConfig {
        identity_keys: split_identity_keys(&format!("  {FIRST},\r\n\t{SECOND} ")),
        ..EndpointConfig::default()
    };
    assert_eq!(list.identity_keys, text.identity_keys);
    let endpoint = list.apply(Endpoint::builder()).unwrap().build();
    let request = || http::Request::builder().uri("/discover").body(Empty::<Bytes>::new()).unwrap();
    assert_eq!(endpoint.handle(request()).status(), 401);
    let unsecured = EndpointConfig::default().apply(Endpoint::builder()).unwrap().build();
    assert_eq!(unsecured.handle(request()).status(), 200);

    let invalid = EndpointConfig { identity_keys: strings(&[FIRST, "invalid"]), ..EndpointConfig::default() };
    assert!(matches!(invalid.apply(Endpoint::builder()), Err(ConfigError::IdentityKey { index: 1, .. })));
}
