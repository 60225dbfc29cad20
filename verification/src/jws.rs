//! Signed request envelopes: the protected header, the payload and the
//! signature that binds them to the account key.

use crate::codec::{base64url, base64url_encoding};
use crate::error::{Encoding, Error, ErrorView};
use crate::json::{json_string, quote};
use crate::key::{is_signature, public_point, AcmeKey, FIELD_LEN};
use vstd::prelude::*;
use vstd::string::StringExecFns;
use vstd::utf8::encode_utf8;

verus! {

/// How a request names the account key: by the public key itself, or by the
/// identifier that the authority gave the account. A header holds one of
/// the two, never both.
#[derive(Debug, Clone, PartialEq, Eq)]
pub enum KeyIdentity {
    /// The coordinates of the public key, each as base64url text.
    Jwk { x: String, y: String },
    /// The account's key identifier.
    Kid(String),
}

/// The mathematical value of a [`KeyIdentity`].
pub enum KeyIdentityView {
    Jwk { x: Seq<char>, y: Seq<char> },
    Kid(Seq<char>),
}

impl View for KeyIdentity {
    type V = KeyIdentityView;

    open spec fn view(&self) -> KeyIdentityView {
        match self {
            KeyIdentity::Jwk { x, y } => KeyIdentityView::Jwk { x: x@, y: y@ },
            KeyIdentity::Kid(kid) => KeyIdentityView::Kid(kid@),
        }
    }
}

/// The protected header of an envelope. The algorithm is always ES256.
#[derive(Debug, Clone, PartialEq, Eq)]
pub struct ProtectedHeader {
    pub url: String,
    pub nonce: String,
    pub key: KeyIdentity,
}

/// The mathematical value of a [`ProtectedHeader`].
pub struct ProtectedHeaderView {
    pub url: Seq<char>,
    pub nonce: Seq<char>,
    pub key: KeyIdentityView,
}

impl View for ProtectedHeader {
    type V = ProtectedHeaderView;

    open spec fn view(&self) -> ProtectedHeaderView {
        ProtectedHeaderView { url: self.url@, nonce: self.nonce@, key: self.key@ }
    }
}

/// The JSON text of a public key.
pub open spec fn jwk_json(x: Seq<char>, y: Seq<char>) -> Seq<char> {
    "{\"alg\":\"ES256\",\"crv\":\"P-256\",\"kty\":\"EC\",\"use\":\"sig\",\"x\":"@ + json_string(x)
        + ",\"y\":"@ + json_string(y) + "}"@
}

/// The JSON text of the member that names the key.
pub open spec fn key_json(key: KeyIdentityView) -> Seq<char> {
    match key {
        KeyIdentityView::Jwk { x, y } => ",\"jwk\":"@ + jwk_json(x, y),
        KeyIdentityView::Kid(kid) => ",\"kid\":"@ + json_string(kid),
    }
}

/// The JSON text of a protected header.
pub open spec fn header_json(header: ProtectedHeaderView) -> Seq<char> {
    "{\"alg\":\"ES256\",\"url\":"@ + json_string(header.url) + ",\"nonce\":"@ + json_string(
        header.nonce,
    ) + key_json(header.key) + "}"@
}

/// The base64url text of the UTF-8 bytes of `text`.
pub open spec fn encoded_text(text: Seq<char>) -> Seq<char> {
    base64url_encoding(encode_utf8(text))
}

/// The text that the signature of an envelope covers: the encoded header, a
/// dot, and the encoded payload.
pub open spec fn signing_text(header: ProtectedHeaderView, payload: Seq<char>) -> Seq<char> {
    encoded_text(header_json(header)) + "."@ + encoded_text(payload)
}

/// How a request signed with a key names that key: by the key identifier
/// once the key has one, by the public key before.
pub open spec fn identity_of(key: &AcmeKey) -> Option<KeyIdentityView> {
    match key.id() {
        Some(kid) => Some(KeyIdentityView::Kid(kid)),
        None => match public_point(key.material(), FIELD_LEN as int) {
            Some((x, y)) => Some(
                KeyIdentityView::Jwk { x: base64url_encoding(x), y: base64url_encoding(y) },
            ),
            None => None,
        },
    }
}

impl KeyIdentity {
    /// The name by which requests signed with `key` refer to it.
    ///
    /// Fails with a `Decode` error exactly where the key has no identifier
    /// and OpenSSL gives no coordinates for its public key.
    pub fn of(key: &AcmeKey) -> (res: Result<KeyIdentity, Error>)
        ensures
            match res {
                Ok(identity) => identity_of(key) == Some(identity@),
                Err(e) => e@ == (ErrorView::Decode { encoding: Encoding::Pem }) && identity_of(
                    key,
                ) is None,
            },
    {
        if key.is_registered() {
            Ok(KeyIdentity::Kid(String::from_str(key.key_id())))
        } else {
            match key.public_coordinates() {
                Ok((x, y)) => Ok(
                    KeyIdentity::Jwk { x: base64url(x.as_slice()), y: base64url(y.as_slice()) },
                ),
                Err(e) => Err(e),
            }
        }
    }

    /// The JSON member that names the key, with the comma before it.
    pub fn to_json(&self) -> (text: String)
        ensures
            text@ == key_json(self@),
    {
        match self {
            KeyIdentity::Jwk { x, y } => {
                let mut text = String::from_str(
                    ",\"jwk\":{\"alg\":\"ES256\",\"crv\":\"P-256\",\"kty\":\"EC\",\"use\":\"sig\",\"x\":",
                );
                proof {
                    reveal_strlit(
                        ",\"jwk\":{\"alg\":\"ES256\",\"crv\":\"P-256\",\"kty\":\"EC\",\"use\":\"sig\",\"x\":",
                    );
                    reveal_strlit(",\"jwk\":");
                    reveal_strlit(
                        "{\"alg\":\"ES256\",\"crv\":\"P-256\",\"kty\":\"EC\",\"use\":\"sig\",\"x\":",
                    );
                    assert(text@ =~= ",\"jwk\":"@
                        + "{\"alg\":\"ES256\",\"crv\":\"P-256\",\"kty\":\"EC\",\"use\":\"sig\",\"x\":"@);
                }
                text.append(quote(x.as_str()).as_str());
                text.append(",\"y\":");
                text.append(quote(y.as_str()).as_str());
                text.append("}");
                assert(text@ =~= key_json(self@));
                text
            },
            KeyIdentity::Kid(kid) => {
                let mut text = String::from_str(",\"kid\":");
                text.append(quote(kid.as_str()).as_str());
                text
            },
        }
    }
}

impl ProtectedHeader {
    /// The JSON text of the header.
    pub fn to_json(&self) -> (text: String)
        ensures
            text@ == header_json(self@),
    {
        let mut text = String::from_str("{\"alg\":\"ES256\",\"url\":");
        text.append(quote(self.url.as_str()).as_str());
        text.append(",\"nonce\":");
        text.append(quote(self.nonce.as_str()).as_str());
        text.append(self.key.to_json().as_str());
        text.append("}");
        assert(text@ =~= header_json(self@));
        text
    }
}

/// The base64url text of the UTF-8 bytes of `text`.
pub fn encode_text(text: &str) -> (res: String)
    ensures
        res@ == encoded_text(text@),
{
    base64url(text.as_bytes())
}

/// A signed request: the protected header, and the three texts that go on
/// the wire. An envelope is for one request only, since its nonce is.
#[derive(Debug, Clone, PartialEq, Eq)]
pub struct SignedEnvelope {
    pub header: ProtectedHeader,
    pub protected: String,
    pub payload: String,
    pub signature: String,
}

/// The mathematical value of a [`SignedEnvelope`].
pub struct SignedEnvelopeView {
    pub header: ProtectedHeaderView,
    pub protected: Seq<char>,
    pub payload: Seq<char>,
    pub signature: Seq<char>,
}

impl View for SignedEnvelope {
    type V = SignedEnvelopeView;

    open spec fn view(&self) -> SignedEnvelopeView {
        SignedEnvelopeView {
            header: self.header@,
            protected: self.protected@,
            payload: self.payload@,
            signature: self.signature@,
        }
    }
}

/// The envelope that carries `payload` under `header`, with `signature` as
/// the bytes of its signature.
pub open spec fn sealed(
    header: ProtectedHeaderView,
    payload: Seq<char>,
    signature: Seq<u8>,
) -> SignedEnvelopeView {
    SignedEnvelopeView {
        header,
        protected: encoded_text(header_json(header)),
        payload: encoded_text(payload),
        signature: base64url_encoding(signature),
    }
}

/// Whether `envelope` carries `payload` under its header, with a signature
/// that OpenSSL accepts, under the key that `pem` holds, over the text that
/// the signature is to cover.
pub open spec fn is_signed(envelope: SignedEnvelopeView, payload: Seq<char>, pem: Seq<u8>) -> bool {
    exists|signature: Seq<u8>|
        is_signature(pem, encode_utf8(signing_text(envelope.header, payload)), signature)
            && envelope == #[trigger] sealed(envelope.header, payload, signature)
}

/// The JSON text of an envelope as it goes on the wire.
pub open spec fn envelope_json(envelope: SignedEnvelopeView) -> Seq<char> {
    "{\"protected\":"@ + json_string(envelope.protected) + ",\"payload\":"@ + json_string(
        envelope.payload,
    ) + ",\"signature\":"@ + json_string(envelope.signature) + "}"@
}

/// The text that a signature under `header` over `payload` covers.
pub fn signing_input(header: &ProtectedHeader, payload: &str) -> (text: String)
    ensures
        text@ == signing_text(header@, payload@),
{
    let mut text = encode_text(header.to_json().as_str());
    text.append(".");
    text.append(encode_text(payload).as_str());
    text
}

impl SignedEnvelope {
    /// Puts an envelope together from its header, the payload as JSON text
    /// (empty for a request without payload) and the bytes of the signature.
    pub fn seal(header: ProtectedHeader, payload: &str, signature: &[u8]) -> (envelope:
        SignedEnvelope)
        ensures
            envelope@ == sealed(header@, payload@, signature@),
    {
        let protected = encode_text(header.to_json().as_str());
        SignedEnvelope {
            header,
            protected,
            payload: encode_text(payload),
            signature: base64url(signature),
        }
    }

    /// The JSON text of the envelope as it goes on the wire.
    pub fn to_json(&self) -> (text: String)
        ensures
            text@ == envelope_json(self@),
    {
        let mut text = String::from_str("{\"protected\":");
        text.append(quote(self.protected.as_str()).as_str());
        text.append(",\"payload\":");
        text.append(quote(self.payload.as_str()).as_str());
        text.append(",\"signature\":");
        text.append(quote(self.signature.as_str()).as_str());
        text.append("}");
        assert(text@ =~= envelope_json(self@));
        text
    }
}

/// Signs a request to `url` that carries `payload` (JSON text, or the empty
/// string for a request without payload) and spends `nonce`.
///
/// The header names the key by its identifier once the key has one, and by
/// the public key before. The signature covers the encoded header, a dot
/// and the encoded payload; it is 64 bytes that differ from call to call,
/// and OpenSSL accepts it under the key.
///
/// Fails with a `Decode` error where OpenSSL gives no public key or no
/// signature for the key.
pub fn sign(url: &str, nonce: String, key: &AcmeKey, payload: &str) -> (res: Result<
    SignedEnvelope,
    Error,
>)
    ensures
        match res {
            Ok(envelope) => {
                &&& identity_of(key) is Some
                &&& envelope.header@ == (ProtectedHeaderView {
                    url: url@,
                    nonce: nonce@,
                    key: identity_of(key)->0,
                })
                &&& is_signed(envelope@, payload@, key.material())
            },
            Err(e) => e@ == (ErrorView::Decode { encoding: Encoding::Pem }),
        },
{
    let identity = match KeyIdentity::of(key) {
        Ok(identity) => identity,
        Err(e) => {
            return Err(e);
        },
    };
    let header = ProtectedHeader { url: String::from_str(url), nonce, key: identity };
    let to_sign = signing_input(&header, payload);
    match key.sign(to_sign.as_str().as_bytes()) {
        Ok(signature) => {
            let envelope = SignedEnvelope::seal(header, payload, signature.as_slice());
            assert(envelope@ == sealed(envelope.header@, payload@, signature@));
            Ok(envelope)
        },
        Err(e) => Err(e),
    }
}

/// A request signed with a key that has an identifier names the key by that
/// identifier, and never by the public key.
pub proof fn lemma_registered_key_signs_by_id(key: &AcmeKey, header: ProtectedHeaderView)
    requires
        key.id() is Some,
        identity_of(key) == Some(header.key),
    ensures
        header.key == KeyIdentityView::Kid(key.id()->0),
        !(header.key is Jwk),
{
}

} // verus!
