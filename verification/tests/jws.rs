use acme_lib::codec::{base64url, unbase64url};
use acme_lib::jws::{
    encode_text, sign, signing_input, KeyIdentity, ProtectedHeader, SignedEnvelope,
};
use acme_lib::key::AcmeKey;

fn header(key: KeyIdentity) -> ProtectedHeader {
    ProtectedHeader {
        url: "https://authority.test/acme/new-acct".to_string(),
        nonce: "abc\"123".to_string(),
        key,
    }
}

#[test]
fn header_with_key_identifier_has_its_wire_form() {
    let h = header(KeyIdentity::Kid("https://authority.test/acct/1".to_string()));
    assert_eq!(
        h.to_json(),
        "{\"alg\":\"ES256\",\"url\":\"https://authority.test/acme/new-acct\",\"nonce\":\"abc\\\"123\",\"kid\":\"https://authority.test/acct/1\"}"
    );
}

#[test]
fn header_with_public_key_has_its_wire_form() {
    let h = header(KeyIdentity::Jwk { x: "eHh4".to_string(), y: "eXl5".to_string() });
    assert_eq!(
        h.to_json(),
        "{\"alg\":\"ES256\",\"url\":\"https://authority.test/acme/new-acct\",\"nonce\":\"abc\\\"123\",\"jwk\":{\"alg\":\"ES256\",\"crv\":\"P-256\",\"kty\":\"EC\",\"use\":\"sig\",\"x\":\"eHh4\",\"y\":\"eXl5\"}}"
    );
}

#[test]
fn signing_input_is_header_dot_payload() {
    let h = header(KeyIdentity::Kid("k".to_string()));
    let expected = format!("{}.{}", base64url(h.to_json().as_bytes()), "e30");
    assert_eq!(signing_input(&h, "{}"), expected);
    let expected = format!("{}.", base64url(h.to_json().as_bytes()));
    assert_eq!(signing_input(&h, ""), expected);
}

#[test]
fn encode_text_encodes_the_utf8_bytes() {
    assert_eq!(encode_text(""), "");
    assert_eq!(encode_text("{}"), "e30");
    assert_eq!(encode_text("\u{e9}"), "w6k");
}

#[test]
fn seal_puts_the_three_texts_together() {
    let h = header(KeyIdentity::Kid("k".to_string()));
    let envelope = SignedEnvelope::seal(h.clone(), "{\"a\":1}", &[0xff, 0xfe, 0xfd]);
    assert_eq!(envelope.header, h);
    assert_eq!(envelope.protected, base64url(h.to_json().as_bytes()));
    assert_eq!(envelope.payload, "eyJhIjoxfQ");
    assert_eq!(envelope.signature, "__79");
    assert_eq!(
        envelope.to_json(),
        format!(
            "{{\"protected\":\"{}\",\"payload\":\"eyJhIjoxfQ\",\"signature\":\"__79\"}}",
            envelope.protected
        )
    );
}

#[test]
fn an_envelope_without_payload_has_an_empty_payload() {
    let h = header(KeyIdentity::Kid("k".to_string()));
    let envelope = SignedEnvelope::seal(h, "", &[1]);
    assert_eq!(envelope.payload, "");
}

#[test]
fn an_unregistered_key_signs_with_its_public_key() {
    let key = AcmeKey::new().unwrap();
    let (x, y) = key.public_coordinates().unwrap();
    let envelope = sign("https://authority.test/x", "n1".to_string(), &key, "{}").unwrap();
    assert_eq!(envelope.header.url, "https://authority.test/x");
    assert_eq!(envelope.header.nonce, "n1");
    assert_eq!(envelope.header.key, KeyIdentity::Jwk { x: base64url(&x), y: base64url(&y) });
    assert_eq!(KeyIdentity::of(&key).unwrap(), envelope.header.key);
}

#[test]
fn a_registered_key_signs_with_its_identifier() {
    let mut key = AcmeKey::new().unwrap();
    key.set_key_id("https://authority.test/acct/9".to_string());
    let envelope = sign("https://authority.test/x", "n2".to_string(), &key, "{}").unwrap();
    assert_eq!(
        envelope.header.key,
        KeyIdentity::Kid("https://authority.test/acct/9".to_string())
    );
    let text = String::from_utf8(unbase64url(&envelope.protected).unwrap()).unwrap();
    assert!(text.contains("\"kid\":\"https://authority.test/acct/9\""));
    assert!(!text.contains("\"jwk\""));
    let again = sign("https://authority.test/y", "n3".to_string(), &key, "").unwrap();
    assert_eq!(again.header.key, envelope.header.key);
}

#[test]
fn the_signature_covers_header_and_payload() {
    let key = AcmeKey::new().unwrap();
    let envelope = sign("https://authority.test/x", "n1".to_string(), &key, "{\"a\":1}").unwrap();
    assert_eq!(envelope.protected, base64url(envelope.header.to_json().as_bytes()));
    assert_eq!(envelope.payload, "eyJhIjoxfQ");
    let signature = unbase64url(&envelope.signature).unwrap();
    assert_eq!(signature.len(), 64);
    let r = openssl::bn::BigNum::from_slice(&signature[..32]).unwrap();
    let s = openssl::bn::BigNum::from_slice(&signature[32..]).unwrap();
    let sig = openssl::ecdsa::EcdsaSig::from_private_components(r, s).unwrap();
    let ec = openssl::ec::EcKey::private_key_from_pem(&key.to_pem()).unwrap();
    let signed = format!("{}.{}", envelope.protected, envelope.payload);
    assert!(sig.verify(&openssl::sha::sha256(signed.as_bytes()), &ec).unwrap());
}

#[test]
fn signing_twice_gives_two_envelopes_with_their_own_nonce() {
    let key = AcmeKey::new().unwrap();
    let a = sign("https://authority.test/x", "n1".to_string(), &key, "{}").unwrap();
    let b = sign("https://authority.test/x", "n2".to_string(), &key, "{}").unwrap();
    assert_eq!(a.header.nonce, "n1");
    assert_eq!(b.header.nonce, "n2");
    assert!(a.protected != b.protected);
    assert_eq!(a.payload, b.payload);
}
