//! The handle under which a value lies in the external store.

use crate::error::Error;
use vstd::prelude::*;
use vstd::string::StringExecFns;

verus! {

/// The scope under which account keys are stored.
pub const ACCOUNT_SCOPE: &'static str = "acme_account";

/// The kind of value that a handle addresses.
#[derive(Debug, Clone, Copy, PartialEq, Eq, Hash, Structural)]
pub enum PersistKind {
    /// A certificate.
    Certificate,
    /// The private key of a certificate.
    PrivateKey,
    /// The private key of an account.
    AccountPrivateKey,
}

/// A composite identifier for a value in the external store. It is a plain
/// value: the store gives it its meaning.
#[derive(Debug, Clone, PartialEq, Eq, Hash)]
pub struct PersistKey {
    pub scope: String,
    pub discriminator: String,
    pub kind: PersistKind,
}

/// The mathematical value of a [`PersistKey`].
pub struct PersistKeyView {
    pub scope: Seq<char>,
    pub discriminator: Seq<char>,
    pub kind: PersistKind,
}

impl View for PersistKey {
    type V = PersistKeyView;

    open spec fn view(&self) -> PersistKeyView {
        PersistKeyView {
            scope: self.scope@,
            discriminator: self.discriminator@,
            kind: self.kind,
        }
    }
}

/// The handle of the account key of the contact `contact_email`.
pub open spec fn account_key_handle(contact_email: Seq<char>) -> PersistKeyView {
    PersistKeyView {
        scope: ACCOUNT_SCOPE@,
        discriminator: contact_email,
        kind: PersistKind::PrivateKey,
    }
}

impl PersistKey {
    /// The handle for the value of `kind` that `discriminator` tells apart
    /// from the others in `scope`.
    pub fn new(discriminator: &str, kind: PersistKind, scope: &str) -> (key: PersistKey)
        ensures
            key@ == (PersistKeyView { scope: scope@, discriminator: discriminator@, kind }),
    {
        PersistKey {
            scope: String::from_str(scope),
            discriminator: String::from_str(discriminator),
            kind,
        }
    }
}

/// The store that keeps account keys between runs. The library asks it for
/// the key of a contact and hands it a new key once the authority has
/// confirmed the account; it neither lists nor deletes values.
///
/// An implementation guards its own reads and writes, and reports its
/// failures as [`Error::Persistence`]; the library passes them on as they
/// are.
pub trait Persist: Clone + Send {
    /// Stores `value` under `key`, in place of what was there.
    fn put(&self, key: &PersistKey, value: &[u8]) -> Result<(), Error>;

    /// What is stored under `key`, if anything.
    fn get(&self, key: &PersistKey) -> Result<Option<Vec<u8>>, Error>;
}

/// Two contacts share the handle of their account key only if they are the
/// same contact.
pub proof fn lemma_contacts_have_their_own_handle(a: Seq<char>, b: Seq<char>)
    ensures
        account_key_handle(a) == account_key_handle(b) <==> a == b,
{
}

} // verus!
