use acme_lib::api::{registration_payload, ApiAccount, ApiDirectory};
use acme_lib::error::{Encoding, Error};
use acme_lib::json::quote;
use acme_lib::persist::{PersistKey, PersistKind, ACCOUNT_SCOPE};

const DOC: &str = "{\"newNonce\":\"https://a.test/nonce\",\"newAccount\":\"https://a.test/acct\",\"newOrder\":\"https://a.test/order\",\"revokeCert\":\"https://a.test/revoke\",\"meta\":{\"website\":\"https://a.test\"}}";

#[test]
fn quote_escapes_what_json_asks_for() {
    assert_eq!(quote(""), "\"\"");
    assert_eq!(quote("plain"), "\"plain\"");
    assert_eq!(quote("a\"b"), "\"a\\\"b\"");
    assert_eq!(quote("a\\b"), "\"a\\\\b\"");
    assert_eq!(quote("\u{8}\t\n\u{c}\r"), "\"\\b\\t\\n\\f\\r\"");
    assert_eq!(quote("\u{0}\u{1f}\u{b}"), "\"\\u0000\\u001f\\u000b\"");
    assert_eq!(quote("/ \u{7f} \u{e9} \u{1f600}"), "\"/ \u{7f} \u{e9} \u{1f600}\"");
}

#[test]
fn a_directory_names_its_three_endpoints() {
    let dir = ApiDirectory::from_json(DOC).unwrap();
    assert_eq!(dir.new_nonce, "https://a.test/nonce");
    assert_eq!(dir.new_account, "https://a.test/acct");
    assert_eq!(dir.new_order, "https://a.test/order");
    assert_eq!(dir.document, DOC);
    assert_eq!(dir.clone(), dir);
}

#[test]
fn other_endpoints_are_passed_through() {
    let dir = ApiDirectory::from_json(DOC).unwrap();
    assert_eq!(dir.endpoint("revokeCert"), Some("https://a.test/revoke".to_string()));
    assert_eq!(dir.endpoint("newNonce"), Some("https://a.test/nonce".to_string()));
    assert_eq!(dir.endpoint("keyChange"), None);
    assert_eq!(dir.endpoint("meta"), None);
}

#[test]
fn a_directory_from_a_parsed_document() {
    let value: serde_json::Value = serde_json::from_str(DOC).unwrap();
    let dir = ApiDirectory::from_document(DOC, &value).unwrap();
    assert_eq!(dir, ApiDirectory::from_json(DOC).unwrap());
    let value: serde_json::Value = serde_json::from_str("[1]").unwrap();
    assert_eq!(
        ApiDirectory::from_document("[1]", &value),
        Err(Error::Decode { encoding: Encoding::Json })
    );
}

#[test]
fn a_directory_without_its_endpoints_is_refused() {
    let expected = Err(Error::Decode { encoding: Encoding::Json });
    assert_eq!(ApiDirectory::from_json(""), expected);
    assert_eq!(ApiDirectory::from_json("{"), expected);
    assert_eq!(ApiDirectory::from_json("[]"), expected);
    assert_eq!(ApiDirectory::from_json("{\"newNonce\":\"a\",\"newAccount\":\"b\"}"), expected);
    assert_eq!(
        ApiDirectory::from_json("{\"newNonce\":\"a\",\"newAccount\":\"b\",\"newOrder\":3}"),
        expected
    );
}

#[test]
fn an_account_record_keeps_what_the_authority_said() {
    let text = "{\"status\":\"valid\",\"contact\":[\"mailto:foo@bar.com\"],\"orders\":\"https://a.test/orders/1\"}";
    let account = ApiAccount::from_json(text).unwrap();
    assert_eq!(account.status.as_deref(), Some("valid"));
    assert_eq!(account.orders.as_deref(), Some("https://a.test/orders/1"));
    assert_eq!(account.document, text);
    let bare = ApiAccount::from_json("{}").unwrap();
    assert_eq!(bare.status, None);
    assert_eq!(bare.orders, None);
    assert_eq!(ApiAccount::from_json("nope"), Err(Error::Decode { encoding: Encoding::Json }));
    assert_eq!(ApiAccount::from_json("[1]"), Err(Error::Decode { encoding: Encoding::Json }));
    assert_eq!(ApiAccount::from_json("\"valid\""), Err(Error::Decode { encoding: Encoding::Json }));
    assert_eq!(ApiAccount::from_json("null"), Err(Error::Decode { encoding: Encoding::Json }));
    let value: serde_json::Value = serde_json::from_str(text).unwrap();
    assert_eq!(ApiAccount::from_document(text, &value), account);
}

#[test]
fn the_registration_payload_has_contact_and_agreement() {
    assert_eq!(
        registration_payload("foo@bar.com"),
        "{\"contact\":[\"mailto:foo@bar.com\"],\"termsOfServiceAgreed\":true}"
    );
    assert_eq!(
        registration_payload("a\"b@bar.com"),
        "{\"contact\":[\"mailto:a\\\"b@bar.com\"],\"termsOfServiceAgreed\":true}"
    );
}

#[test]
fn a_handle_is_made_of_its_three_parts() {
    let key = PersistKey::new("foo@bar.com", PersistKind::PrivateKey, ACCOUNT_SCOPE);
    assert_eq!(key.discriminator, "foo@bar.com");
    assert_eq!(key.kind, PersistKind::PrivateKey);
    assert_eq!(key.scope, "acme_account");
    assert!(key != PersistKey::new("karlfoo@bar.com", PersistKind::PrivateKey, ACCOUNT_SCOPE));
    assert!(key != PersistKey::new("foo@bar.com", PersistKind::Certificate, ACCOUNT_SCOPE));
    assert_eq!(key, PersistKey::new("foo@bar.com", PersistKind::PrivateKey, "acme_account"));
}
