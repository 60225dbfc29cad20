//! The account key: a private elliptic-curve key and, once the authority has
//! confirmed the account, the identifier that the authority gave it.
//!
//! The key is held as the PEM text that OpenSSL writes for it. OpenSSL reads
//! that text back for every operation, so the library's own values stay
//! plain bytes.

use crate::error::{Encoding, Error, ErrorView};
use vstd::prelude::*;

verus! {

/// The longest PEM text that OpenSSL's memory reader takes.
pub const MAX_PEM_LEN: usize = 0x7fff_ffff;

/// The number of bytes of a coordinate of a P-256 point, and of each half of
/// an ES256 signature.
pub const FIELD_LEN: usize = 32;

/// OpenSSL's list of errors, carried from a call to the place where it
/// becomes an [`Error`].
#[verifier::external_type_specification]
#[verifier::external_body]
pub struct ExErrorStack(openssl::error::ErrorStack);

/// The PEM text that OpenSSL writes for the private key that it reads from
/// `input` when it is given no passphrase; `None` where it refuses `input`.
pub uninterp spec fn private_key_pem(input: Seq<u8>) -> Option<Seq<u8>>;

/// The affine coordinates of the public point of the key that `pem` holds,
/// each as `width` big-endian bytes; `None` where OpenSSL gives none.
pub uninterp spec fn public_point(pem: Seq<u8>, width: int) -> Option<(Seq<u8>, Seq<u8>)>;

/// The SHA-256 digest of `data`.
pub uninterp spec fn sha256_digest(data: Seq<u8>) -> Seq<u8>;

/// Whether OpenSSL accepts the numbers `r` and `s` as an ECDSA signature
/// over `digest` under the public key of the key that `pem` holds.
pub uninterp spec fn ecdsa_accepts(pem: Seq<u8>, digest: Seq<u8>, r: Seq<u8>, s: Seq<u8>) -> bool;

/// Whether `pem` is text that OpenSSL reads as a private key and writes back
/// unchanged.
pub open spec fn is_key_material(pem: Seq<u8>) -> bool {
    pem.len() <= MAX_PEM_LEN && private_key_pem(pem) == Some(pem)
}

/// Whether OpenSSL reads `pem` as a private key, and what it writes for
/// that key is key material.
pub open spec fn is_readable_key(pem: Seq<u8>) -> bool {
    pem.len() <= MAX_PEM_LEN && (private_key_pem(pem) matches Some(written) && is_key_material(
        written,
    ))
}

/// Whether `signature` is the two numbers of an ES256 signature, one after
/// the other, that OpenSSL accepts over the digest of `message` under the
/// key that `pem` holds.
pub open spec fn is_signature(pem: Seq<u8>, message: Seq<u8>, signature: Seq<u8>) -> bool {
    signature.len() == 2 * FIELD_LEN && ecdsa_accepts(
        pem,
        sha256_digest(message),
        signature.subrange(0, FIELD_LEN as int),
        signature.subrange(FIELD_LEN as int, 2 * FIELD_LEN),
    )
}

/// The answer to OpenSSL when it asks for the passphrase of a key: there is
/// none. Protected text is then refused, and nobody is prompted.
fn no_passphrase(buffer: &mut [u8]) -> (res: Result<usize, openssl::error::ErrorStack>)
    ensures
        res matches Ok(len) && len == 0,
{
    Ok(0)
}

/// `EcKey::generate` on the curve P-256, then `private_key_to_pem`.
///
/// Every call may return another key, or none: nothing is known of the
/// result.
#[verifier::external_body]
fn generate_pem() -> (res: Result<Vec<u8>, openssl::error::ErrorStack>) {
    let group = openssl::ec::EcGroup::from_curve_name(openssl::nid::Nid::X9_62_PRIME256V1)?;
    openssl::ec::EcKey::generate(&group)?.private_key_to_pem()
}

/// `EcKey::private_key_from_pem_callback` without passphrase, then
/// `private_key_to_pem`.
///
/// Trusted: the result is a function of the input alone. The reader panics
/// on an input longer than [`MAX_PEM_LEN`].
#[verifier::external_body]
fn rewrite_pem(pem: &[u8]) -> (res: Result<Vec<u8>, openssl::error::ErrorStack>)
    requires
        pem@.len() <= MAX_PEM_LEN,
    ensures
        match res {
            Ok(written) => private_key_pem(pem@) == Some(written@),
            Err(_) => private_key_pem(pem@) is None,
        },
{
    openssl::ec::EcKey::private_key_from_pem_callback(pem, no_passphrase)?.private_key_to_pem()
}

/// `EcPointRef::affine_coordinates_gfp` on the public key of the key that
/// `pem` holds, read without passphrase; each coordinate through
/// `BigNumRef::to_vec_padded`.
///
/// Trusted: the coordinates are a function of the key and the width alone,
/// and each comes out as exactly `width` bytes or not at all. The calls
/// panic on a key longer than [`MAX_PEM_LEN`] and on a negative width.
#[verifier::external_body]
fn point_of_pem(pem: &[u8], width: i32) -> (res: Result<
    (Vec<u8>, Vec<u8>),
    openssl::error::ErrorStack,
>)
    requires
        pem@.len() <= MAX_PEM_LEN,
        0 <= width,
    ensures
        match res {
            Ok((x, y)) => public_point(pem@, width as int) == Some((x@, y@)) && x@.len() == width
                && y@.len() == width,
            Err(_) => public_point(pem@, width as int) is None,
        },
{
    let key = openssl::ec::EcKey::private_key_from_pem_callback(pem, no_passphrase)?;
    let mut ctx = openssl::bn::BigNumContext::new()?;
    let mut x = openssl::bn::BigNum::new()?;
    let mut y = openssl::bn::BigNum::new()?;
    key.public_key().affine_coordinates_gfp(key.group(), &mut x, &mut y, &mut ctx)?;
    Ok((x.to_vec_padded(width)?, y.to_vec_padded(width)?))
}

/// `openssl::sha::sha256`.
///
/// Trusted: the result is the digest of the input, 32 bytes long.
#[verifier::external_body]
fn sha256(data: &[u8]) -> (digest: Vec<u8>)
    ensures
        digest@ == sha256_digest(data@),
        digest@.len() == 32,
{
    openssl::sha::sha256(data).to_vec()
}

/// `EcdsaSig::sign` with the key that `pem` holds, read without
/// passphrase; the two numbers of the signature through
/// `BigNumRef::to_vec_padded`.
///
/// Trusted: each number comes out as exactly `width` bytes or not at all.
/// The signature depends on a random number, so nothing more is known of
/// it. The calls panic on a key or a digest longer than [`MAX_PEM_LEN`] and
/// on a negative width.
#[verifier::external_body]
fn ecdsa_sign(pem: &[u8], digest: &[u8], width: i32) -> (res: Result<
    (Vec<u8>, Vec<u8>),
    openssl::error::ErrorStack,
>)
    requires
        pem@.len() <= MAX_PEM_LEN,
        digest@.len() <= MAX_PEM_LEN,
        0 <= width,
    ensures
        res matches Ok((r, s)) ==> r@.len() == width && s@.len() == width,
{
    let key = openssl::ec::EcKey::private_key_from_pem_callback(pem, no_passphrase)?;
    let sig = openssl::ecdsa::EcdsaSig::sign(digest, &key)?;
    Ok((sig.r().to_vec_padded(width)?, sig.s().to_vec_padded(width)?))
}

/// `EcdsaSig::verify` on the signature made of the numbers `r` and `s`
/// (`BigNum::from_slice`, `EcdsaSig::from_private_components`), under the
/// key that `pem` holds, read without passphrase.
///
/// Trusted: whether OpenSSL accepts the signature is a function of the key,
/// the digest and the two numbers. The calls panic on an argument longer
/// than [`MAX_PEM_LEN`].
#[verifier::external_body]
fn ecdsa_verify(pem: &[u8], digest: &[u8], r: &[u8], s: &[u8]) -> (res: Result<
    bool,
    openssl::error::ErrorStack,
>)
    requires
        pem@.len() <= MAX_PEM_LEN,
        digest@.len() <= MAX_PEM_LEN,
        r@.len() <= MAX_PEM_LEN,
        s@.len() <= MAX_PEM_LEN,
    ensures
        res matches Ok(accepted) ==> accepted == ecdsa_accepts(pem@, digest@, r@, s@),
{
    let key = openssl::ec::EcKey::private_key_from_pem_callback(pem, no_passphrase)?;
    let r = openssl::bn::BigNum::from_slice(r)?;
    let s = openssl::bn::BigNum::from_slice(s)?;
    openssl::ecdsa::EcdsaSig::from_private_components(r, s)?.verify(digest, &key)
}

/// Whether `a` and `b` hold the same bytes.
pub fn same_bytes(a: &[u8], b: &[u8]) -> (res: bool)
    ensures
        res == (a@ == b@),
{
    if a.len() != b.len() {
        return false;
    }
    let mut i: usize = 0;
    while i < a.len()
        invariant
            i <= a.len(),
            a@.len() == b@.len(),
            a@.subrange(0, i as int) == b@.subrange(0, i as int),
        decreases a.len() - i,
    {
        if a[i] != b[i] {
            assert(a@[i as int] != b@[i as int]);
            return false;
        }
        assert(a@.subrange(0, i + 1) =~= a@.subrange(0, i as int).push(a@[i as int]));
        assert(b@.subrange(0, i + 1) =~= b@.subrange(0, i as int).push(b@[i as int]));
        i += 1;
    }
    assert(a@ =~= a@.subrange(0, a@.len() as int));
    assert(b@ =~= b@.subrange(0, b@.len() as int));
    true
}

/// An account key.
///
/// The key identifier is absent until the authority has confirmed the
/// account. No operation clears it.
#[derive(Debug)]
pub struct AcmeKey {
    pem: Vec<u8>,
    key_id: Option<String>,
}

impl AcmeKey {
    #[verifier::type_invariant]
    spec fn holds_a_key(self) -> bool {
        is_key_material(self.pem@)
    }

    /// The private-key material: the PEM text of the key.
    pub closed spec fn material(&self) -> Seq<u8> {
        self.pem@
    }

    /// The identifier that the authority gave the account, if it has.
    pub closed spec fn id(&self) -> Option<Seq<char>> {
        match self.key_id {
            Some(kid) => Some(kid@),
            None => None,
        }
    }

    fn from_key(pem: Vec<u8>) -> (key: AcmeKey)
        requires
            is_key_material(pem@),
        ensures
            key.material() == pem@,
            key.id() is None,
    {
        AcmeKey { pem, key_id: None }
    }

    /// A fresh P-256 key without an identifier.
    ///
    /// The key is read back from the text that OpenSSL wrote for it, as
    /// every stored key is, and its public point has two coordinates of 32
    /// bytes. Fails with a `Decode` error only where OpenSSL yields no such
    /// key.
    pub fn new() -> (res: Result<AcmeKey, Error>)
        ensures
            match res {
                Ok(key) => is_key_material(key.material()) && key.id() is None && public_point(
                    key.material(),
                    FIELD_LEN as int,
                ) is Some,
                Err(e) => e@ == (ErrorView::Decode { encoding: Encoding::Pem }),
            },
    {
        let key = match generate_pem() {
            Ok(pem) => match Self::from_pem(pem.as_slice()) {
                Ok(key) => key,
                Err(e) => {
                    return Err(e);
                },
            },
            Err(_) => {
                return Err(Error::Decode { encoding: Encoding::Pem });
            },
        };
        match key.public_coordinates() {
            Ok(_) => Ok(key),
            Err(e) => Err(e),
        }
    }

    /// The key that `pem` holds, without an identifier.
    ///
    /// Succeeds exactly where OpenSSL reads `pem` as a private key without
    /// a passphrase, and reads what it writes for that key back as the same
    /// text; that text is then the key material. Fails with a `Decode`
    /// error otherwise. Text that [`AcmeKey::to_pem`] gave is read back as
    /// the key that it came from.
    pub fn from_pem(pem: &[u8]) -> (res: Result<AcmeKey, Error>)
        ensures
            match res {
                Ok(key) => is_readable_key(pem@) && private_key_pem(pem@) == Some(key.material())
                    && is_key_material(key.material()) && key.id() is None,
                Err(e) => e@ == (ErrorView::Decode { encoding: Encoding::Pem })
                    && !is_readable_key(pem@),
            },
            is_key_material(pem@) ==> (res matches Ok(key) && key.material() == pem@),
    {
        if pem.len() > MAX_PEM_LEN {
            return Err(Error::Decode { encoding: Encoding::Pem });
        }
        let written = match rewrite_pem(pem) {
            Ok(written) => written,
            Err(_) => {
                return Err(Error::Decode { encoding: Encoding::Pem });
            },
        };
        if written.len() > MAX_PEM_LEN {
            return Err(Error::Decode { encoding: Encoding::Pem });
        }
        match rewrite_pem(written.as_slice()) {
            Ok(again) => {
                if same_bytes(again.as_slice(), written.as_slice()) {
                    Ok(Self::from_key(written))
                } else {
                    Err(Error::Decode { encoding: Encoding::Pem })
                }
            },
            Err(_) => Err(Error::Decode { encoding: Encoding::Pem }),
        }
    }

    /// The private key as PEM text.
    pub fn to_pem(&self) -> (pem: Vec<u8>)
        ensures
            pem@ == self.material(),
            is_key_material(pem@),
    {
        proof {
            use_type_invariant(self);
        }
        self.pem.clone()
    }

    /// The private key, as the PEM text that holds it.
    pub fn private_key(&self) -> (pem: &Vec<u8>)
        ensures
            pem@ == self.material(),
            is_key_material(pem@),
    {
        proof {
            use_type_invariant(self);
        }
        &self.pem
    }

    /// Whether the authority has given the account an identifier.
    pub fn is_registered(&self) -> (res: bool)
        ensures
            res == self.id() is Some,
    {
        self.key_id.is_some()
    }

    /// The identifier that the authority gave the account.
    pub fn key_id(&self) -> (kid: &str)
        requires
            self.id() is Some,
        ensures
            Some(kid@) == self.id(),
    {
        match &self.key_id {
            Some(kid) => kid.as_str(),
            None => vstd::pervasive::unreached(),
        }
    }

    /// Records the identifier that the authority gave the account. The key
    /// itself does not change.
    pub fn set_key_id(&mut self, kid: String)
        ensures
            final(self).material() == old(self).material(),
            final(self).id() == Some(kid@),
    {
        proof {
            use_type_invariant(&*self);
        }
        self.key_id = Some(kid)
    }

    /// The affine coordinates of the public key, each as 32 big-endian
    /// bytes.
    ///
    /// Fails with a `Decode` error exactly where OpenSSL gives no such
    /// coordinates for the key, as for a key on a larger curve.
    pub fn public_coordinates(&self) -> (res: Result<(Vec<u8>, Vec<u8>), Error>)
        ensures
            match res {
                Ok((x, y)) => public_point(self.material(), FIELD_LEN as int) == Some((x@, y@))
                    && x@.len() == FIELD_LEN && y@.len() == FIELD_LEN,
                Err(e) => e@ == (ErrorView::Decode { encoding: Encoding::Pem }) && public_point(
                    self.material(),
                    FIELD_LEN as int,
                ) is None,
            },
    {
        proof {
            use_type_invariant(self);
        }
        match point_of_pem(self.pem.as_slice(), FIELD_LEN as i32) {
            Ok(point) => Ok(point),
            Err(_) => Err(Error::Decode { encoding: Encoding::Pem }),
        }
    }

    /// An ES256 signature over `message`: the two numbers of an ECDSA
    /// signature over its SHA-256 digest, 32 bytes each, one after the
    /// other.
    ///
    /// The signature is not a function of the message: ECDSA draws a random
    /// number for each. What is handed out has been checked: OpenSSL accepts
    /// it over the digest of the message under this key. Fails with a
    /// `Decode` error where OpenSSL gives no signature, or none that it
    /// accepts.
    pub fn sign(&self, message: &[u8]) -> (res: Result<Vec<u8>, Error>)
        ensures
            match res {
                Ok(signature) => is_signature(self.material(), message@, signature@),
                Err(e) => e@ == (ErrorView::Decode { encoding: Encoding::Pem }),
            },
    {
        proof {
            use_type_invariant(self);
        }
        let digest = sha256(message);
        let (r, s) = match ecdsa_sign(self.pem.as_slice(), digest.as_slice(), FIELD_LEN as i32) {
            Ok(numbers) => numbers,
            Err(_) => {
                return Err(Error::Decode { encoding: Encoding::Pem });
            },
        };
        match ecdsa_verify(self.pem.as_slice(), digest.as_slice(), r.as_slice(), s.as_slice()) {
            Ok(true) => {
                let ghost first = r@;
                let signature = join(r, s.as_slice());
                assert(signature@.subrange(0, FIELD_LEN as int) =~= first);
                assert(signature@.subrange(FIELD_LEN as int, 2 * FIELD_LEN) =~= s@);
                Ok(signature)
            },
            _ => Err(Error::Decode { encoding: Encoding::Pem }),
        }
    }
}

impl Clone for AcmeKey {
    fn clone(&self) -> (copy: AcmeKey)
        ensures
            copy.material() == self.material(),
            copy.id() == self.id(),
    {
        proof {
            use_type_invariant(self);
        }
        let key_id = match &self.key_id {
            Some(kid) => Some(kid.clone()),
            None => None,
        };
        AcmeKey { pem: self.pem.clone(), key_id }
    }
}

/// The bytes of `head` followed by those of `tail`.
pub fn join(head: Vec<u8>, tail: &[u8]) -> (all: Vec<u8>)
    ensures
        all@ == head@ + tail@,
{
    let mut all = head;
    let ghost start = all@;
    let mut i: usize = 0;
    while i < tail.len()
        invariant
            i <= tail.len(),
            all@ == start + tail@.subrange(0, i as int),
        decreases tail.len() - i,
    {
        all.push(tail[i]);
        assert(tail@.subrange(0, i + 1) =~= tail@.subrange(0, i as int).push(tail@[i as int]));
        i += 1;
    }
    assert(tail@.subrange(0, tail@.len() as int) =~= tail@);
    all
}

} // verus!
