//! The account bootstrap: load the account key or make one, register it
//! with the authority, and only then hand the new key out for storage.
//!
//! The bootstrap is a chain of states. Each state says which request or
//! which lookup is due and is used up by the answer, so a nonce, an
//! envelope or a failed call cannot be used twice.

use crate::api::{account_in, registration_json, registration_payload, ApiAccount, ApiDirectory};
use crate::dir::{attempt_request, failure_of, Directory, NonceFetch, Step, REPLAY_NONCE};
use crate::error::{Encoding, Error, ErrorView};
use crate::http::{
    configure_req, expect_header, first_header, HttpRequest, HttpResponse, Method,
};
use crate::jws::{
    envelope_json, identity_of, is_signed, sign, KeyIdentityView, ProtectedHeaderView,
    SignedEnvelope,
};
use crate::key::{is_key_material, is_readable_key, private_key_pem, AcmeKey};
use crate::persist::{account_key_handle, Persist, PersistKey, PersistKind, ACCOUNT_SCOPE};
use crate::retry::{judge, Judgement, RetryingCall, Verdict};
use vstd::prelude::*;
use vstd::string::StringExecFns;

verus! {

/// The content type of a signed request.
pub const JOSE_JSON: &'static str = "application/jose+json";

/// The header in which the authority names the account.
pub const LOCATION: &'static str = "location";

/// What a bootstrap carries from state to state.
#[derive(Debug)]
pub struct Session {
    /// The endpoints of the authority.
    pub directory: ApiDirectory,
    /// The contact of the account.
    pub contact_email: String,
    /// The handle of the account key in the store.
    pub pem_key: PersistKey,
    /// The account key.
    pub key: AcmeKey,
    /// Whether the key was made by this bootstrap, and so is not stored yet.
    pub is_new: bool,
}

/// A usable account: the authority has confirmed it, so its key has an
/// identifier.
#[derive(Debug)]
pub struct Account {
    directory: ApiDirectory,
    contact_email: String,
    key: AcmeKey,
    api_account: ApiAccount,
}

impl Account {
    #[verifier::type_invariant]
    spec fn is_confirmed(self) -> bool {
        self.key.id() is Some
    }

    /// The endpoints of the authority that holds the account.
    pub closed spec fn directory(&self) -> ApiDirectory {
        self.directory
    }

    /// The contact of the account.
    pub closed spec fn contact(&self) -> Seq<char> {
        self.contact_email@
    }

    /// The account key.
    pub closed spec fn key(&self) -> AcmeKey {
        self.key
    }

    /// The account as the authority described it.
    pub closed spec fn record(&self) -> ApiAccount {
        self.api_account
    }

    /// The endpoints of the authority that holds the account.
    pub fn api_directory(&self) -> (api: &ApiDirectory)
        ensures
            *api == self.directory(),
    {
        &self.directory
    }

    /// The contact of the account.
    pub fn contact_email(&self) -> (contact: &str)
        ensures
            contact@ == self.contact(),
    {
        self.contact_email.as_str()
    }

    /// The account key. It has an identifier.
    pub fn acme_key(&self) -> (key: &AcmeKey)
        ensures
            *key == self.key(),
            key.id() is Some,
    {
        proof {
            use_type_invariant(self);
        }
        &self.key
    }

    /// The account as the authority described it.
    pub fn api_account(&self) -> (record: &ApiAccount)
        ensures
            *record == self.record(),
    {
        &self.api_account
    }

    /// The private key of the account as PEM text.
    pub fn acme_private_key_pem(&self) -> (pem: Vec<u8>)
        ensures
            pem@ == self.key().material(),
            is_key_material(pem@),
    {
        self.key.to_pem()
    }

    /// Signs a request of the account to `url` that carries `payload` and
    /// spends `nonce`. The envelope names the key by the identifier of the
    /// account, never by the public key.
    ///
    /// Fails with a `Decode` error where OpenSSL gives no signature.
    pub fn sign_request(&self, url: &str, nonce: String, payload: &str) -> (res: Result<
        SignedEnvelope,
        Error,
    >)
        ensures
            match res {
                Ok(envelope) => {
                    &&& self.key().id() is Some
                    &&& envelope.header@ == (ProtectedHeaderView {
                        url: url@,
                        nonce: nonce@,
                        key: KeyIdentityView::Kid(self.key().id()->0),
                    })
                    &&& is_signed(envelope@, payload@, self.key().material())
                },
                Err(e) => e@ == (ErrorView::Decode { encoding: Encoding::Pem }),
            },
    {
        proof {
            use_type_invariant(self);
        }
        sign(url, nonce, &self.key, payload)
    }
}

/// A bootstrap that waits for the store to say whether it holds a key for
/// the contact.
#[derive(Debug)]
pub struct AccountBootstrap {
    directory: ApiDirectory,
    contact_email: String,
    pem_key: PersistKey,
}

impl<P: Persist> Directory<P> {
    /// Prepares the bootstrap of the account of `contact_email`: the store
    /// has not been asked yet.
    pub fn bootstrap(&self, contact_email: &str) -> (bootstrap: AccountBootstrap)
        ensures
            bootstrap.directory() == self.api(),
            bootstrap.contact() == contact_email@,
            bootstrap.handle()@ == account_key_handle(contact_email@),
    {
        AccountBootstrap {
            directory: self.api_directory().clone(),
            contact_email: String::from_str(contact_email),
            pem_key: PersistKey::new(contact_email, PersistKind::PrivateKey, ACCOUNT_SCOPE),
        }
    }

    /// Whether `res` is what the bootstrap of `contact_email` comes to when
    /// the store gives `answer` for the handle of the contact: a failure of
    /// the store is passed on as it is, and what the store holds is taken as
    /// [`AccountBootstrap::on_key`] takes it.
    pub open spec fn takes_answer(
        &self,
        contact_email: Seq<char>,
        bootstrap: AccountBootstrap,
        answer: Result<Option<Vec<u8>>, Error>,
        res: Result<Registration, Error>,
    ) -> bool {
        &&& bootstrap.directory() == self.api()
        &&& bootstrap.contact() == contact_email
        &&& bootstrap.handle()@ == account_key_handle(contact_email)
        &&& match answer {
            Ok(stored) => bootstrap.leads_to(stored, res),
            Err(e) => res matches Err(passed) && passed == e,
        }
    }

    /// Access an account identified by a contact email.
    ///
    /// If the store holds a private key for the contact, it is used, and
    /// the same account with it. If it holds none, a key is made, and the
    /// authority makes the account for it. Either way the `newAccount`
    /// endpoint is called, so the account is known to be active: the
    /// registration that is handed back says which request is due.
    ///
    /// The store is asked once, for the handle of the contact, and decides
    /// what is found; [`AccountBootstrap::on_key`] says what follows from
    /// each answer. A failure of the store is passed on as it is.
    pub fn account(&self, contact_email: &str) -> (res: Result<Registration, Error>)
        ensures
            exists|bootstrap: AccountBootstrap, answer: Result<Option<Vec<u8>>, Error>|
                #[trigger] call_ensures(P::get, (&self.store(), &bootstrap.handle()), answer)
                    && self.takes_answer(contact_email@, bootstrap, answer, res),
            res matches Ok(registration) ==> {
                &&& registration.session().directory == self.api()
                &&& registration.session().contact_email@ == contact_email@
                &&& registration.session().pem_key@ == account_key_handle(contact_email@)
                &&& registration.session().key.id() is None
                &&& is_key_material(registration.session().key.material())
                &&& registration.failed_posts() == 0
                &&& registration.failed_nonces() == 0
            },
    {
        let bootstrap = self.bootstrap(contact_email);
        let ghost asked = bootstrap;
        let answer = self.persist().get(bootstrap.persist_key());
        let ghost given = answer;
        let res = match answer {
            Ok(stored) => bootstrap.on_key(stored),
            Err(e) => Err(e),
        };
        assert(call_ensures(P::get, (&self.store(), &asked.handle()), given)
            && self.takes_answer(contact_email@, asked, given, res));
        res
    }
}

impl AccountBootstrap {
    /// The endpoints of the authority.
    pub closed spec fn directory(&self) -> ApiDirectory {
        self.directory
    }

    /// The contact of the account.
    pub closed spec fn contact(&self) -> Seq<char> {
        self.contact_email@
    }

    /// The handle of the account key in the store.
    pub closed spec fn handle(&self) -> PersistKey {
        self.pem_key
    }

    /// The handle to look up in the store.
    pub fn persist_key(&self) -> (key: &PersistKey)
        ensures
            *key == self.handle(),
    {
        &self.pem_key
    }

    /// Goes on with `key` as the account key. `is_new` says whether the key
    /// is to be stored once the authority has confirmed the account. No
    /// request has been made yet.
    pub fn with_key(self, key: AcmeKey, is_new: bool) -> (registration: Registration)
        ensures
            registration.session().directory == self.directory(),
            registration.session().contact_email@ == self.contact(),
            registration.session().pem_key == self.handle(),
            registration.session().key == key,
            registration.session().is_new == is_new,
            registration.failed_posts() == 0,
            registration.failed_nonces() == 0,
    {
        let nonce = NonceFetch::new(self.directory.new_nonce.as_str());
        Registration {
            session: Session {
                directory: self.directory,
                contact_email: self.contact_email,
                pem_key: self.pem_key,
                key,
                is_new,
            },
            call: RetryingCall::new(),
            nonce,
        }
    }

    /// Whether `res` is a way in which the bootstrap goes on when the store
    /// holds `stored` under the handle.
    ///
    /// With stored text the bootstrap goes on exactly where OpenSSL reads
    /// the text as a private key, with that key, which is not new; it fails
    /// with `Decode` elsewhere. Text that is key material is read as
    /// itself. With nothing stored it goes on with a new key, or fails with
    /// `Decode`. The key has no identifier and no request has been made.
    pub open spec fn leads_to(
        &self,
        stored: Option<Vec<u8>>,
        res: Result<Registration, Error>,
    ) -> bool {
        &&& match res {
            Ok(registration) => {
                &&& registration.session().directory == self.directory()
                &&& registration.session().contact_email@ == self.contact()
                &&& registration.session().pem_key == self.handle()
                &&& registration.session().is_new == stored is None
                &&& registration.session().key.id() is None
                &&& is_key_material(registration.session().key.material())
                &&& registration.failed_posts() == 0
                &&& registration.failed_nonces() == 0
                &&& stored matches Some(pem) ==> is_readable_key(pem@) && private_key_pem(pem@)
                    == Some(registration.session().key.material())
            },
            Err(e) => e@ == (ErrorView::Decode { encoding: Encoding::Pem }) && (stored matches Some(
                pem,
            ) ==> !is_readable_key(pem@)),
        }
        &&& stored matches Some(pem) ==> (is_key_material(pem@) ==> (res matches Ok(registration)
            && registration.session().key.material() == pem@))
    }

    /// Takes what the store holds under the handle.
    ///
    /// Stored text is read as the account key, and the key counts as
    /// stored; this fails with `Decode` exactly where OpenSSL does not read
    /// the text as a private key. Text that an earlier bootstrap handed out
    /// for storage is read as the key of that bootstrap. Where the store
    /// holds nothing a key is made, which counts as new; this fails only
    /// where OpenSSL yields no key. The key has no identifier yet, and no
    /// request has been made.
    pub fn on_key(self, stored: Option<Vec<u8>>) -> (res: Result<Registration, Error>)
        ensures
            self.leads_to(stored, res),
    {
        match stored {
            Some(pem) => match AcmeKey::from_pem(pem.as_slice()) {
                Ok(key) => Ok(self.with_key(key, false)),
                Err(e) => Err(e),
            },
            None => match AcmeKey::new() {
                Ok(key) => Ok(self.with_key(key, true)),
                Err(e) => Err(e),
            },
        }
    }
}

/// A bootstrap that has its key and waits for a nonce, to sign the next
/// attempt of the registration with.
#[derive(Debug)]
pub struct Registration {
    session: Session,
    call: RetryingCall,
    nonce: NonceFetch,
}

/// A bootstrap that has signed an attempt of the registration and waits for
/// the authority's answer to it.
#[derive(Debug)]
pub struct Submission {
    session: Session,
    call: RetryingCall,
    envelope: SignedEnvelope,
    request: HttpRequest,
}

/// Whether `submission` is the attempt that `session` makes with `nonce`:
/// a POST of a signed envelope to the `newAccount` endpoint. The header of
/// the envelope holds this nonce and names the key as its state asks; the
/// payload registers the contact; the signature is one that OpenSSL accepts
/// under the key.
pub open spec fn submits(submission: &Submission, session: Session, nonce: Seq<char>) -> bool {
    let header = ProtectedHeaderView {
        url: session.directory.new_account@,
        nonce,
        key: identity_of(&session.key)->0,
    };
    &&& submission.session() == session
    &&& identity_of(&session.key) is Some
    &&& submission.envelope().header@ == header
    &&& is_signed(
        submission.envelope()@,
        registration_json(session.contact_email@),
        session.key.material(),
    )
    &&& submission.post()@ == attempt_request(
        Method::Post,
        session.directory.new_account@,
        Some(JOSE_JSON@),
        Some(envelope_json(submission.envelope()@)),
    )
}

impl Registration {
    #[verifier::type_invariant]
    spec fn asks_the_nonce_endpoint(self) -> bool {
        self.nonce.url() == self.session.directory.new_nonce@
    }

    /// What the bootstrap carries.
    pub closed spec fn session(&self) -> Session {
        self.session
    }

    /// The number of attempts of the registration that have failed.
    pub closed spec fn failed_posts(&self) -> nat {
        self.call.failed()
    }

    /// The number of attempts to fetch the nonce that is due that have
    /// failed.
    pub closed spec fn failed_nonces(&self) -> nat {
        self.nonce.failed()
    }

    /// The request that is due: a HEAD of the `newNonce` endpoint.
    pub fn request(&self) -> (req: HttpRequest)
        ensures
            req@ == attempt_request(Method::Head, self.session().directory.new_nonce@, None, None),
    {
        proof {
            use_type_invariant(self);
        }
        self.nonce.request()
    }

    /// Takes the response to the request for a nonce.
    ///
    /// With the nonce of a successful response the registration is signed
    /// and is then due; a successful response without nonce fails with
    /// `MissingField`. A failed attempt is retried as the retry policy
    /// says. Signing fails with `Decode` where OpenSSL refuses the key.
    pub fn on_response(self, res: HttpResponse) -> (step: Step<Registration, Submission>)
        ensures
            match judge(self.failed_nonces(), res.status) {
                Judgement::Accept => match first_header(res.headers@, REPLAY_NONCE@) {
                    Some(nonce) => match step {
                        Step::Finished(submission) => submits(&submission, self.session(), nonce)
                            && submission.failed_posts() == self.failed_posts(),
                        Step::Failed(e) => e@ == (ErrorView::Decode { encoding: Encoding::Pem }),
                        Step::Next(_) => false,
                    },
                    None => step matches Step::Failed(e) && e@ == (ErrorView::MissingField {
                        name: REPLAY_NONCE@,
                    }),
                },
                Judgement::Again => step matches Step::Next(next) && next.session()
                    == self.session() && next.failed_posts() == self.failed_posts()
                    && next.failed_nonces() == self.failed_nonces() + 1,
                _ => step matches Step::Failed(e) && Some(e@) == failure_of(
                    self.failed_nonces(),
                    res.status,
                    res.body@,
                ),
            },
    {
        proof {
            use_type_invariant(&self);
        }
        match self.nonce.on_response(res) {
            Step::Finished(nonce) => {
                let payload = registration_payload(self.session.contact_email.as_str());
                let url = self.session.directory.new_account.as_str();
                match sign(url, nonce, &self.session.key, payload.as_str()) {
                    Ok(envelope) => {
                        let mut request = HttpRequest::new(Method::Post, url);
                        request.content_type = Some(String::from_str(JOSE_JSON));
                        request.body = Some(envelope.to_json());
                        configure_req(&mut request);
                        Step::Finished(
                            Submission { session: self.session, call: self.call, envelope, request },
                        )
                    },
                    Err(e) => Step::Failed(e),
                }
            },
            Step::Next(nonce) => Step::Next(
                Registration { session: self.session, call: self.call, nonce },
            ),
            Step::Failed(e) => Step::Failed(e),
        }
    }
}

/// A bootstrap whose registration the authority has confirmed. A new key is
/// due to be stored; only this state hands one out.
#[derive(Debug)]
pub struct Registered {
    account: Account,
    pem_key: PersistKey,
    is_new: bool,
}

impl Submission {
    /// What the bootstrap carries.
    pub closed spec fn session(&self) -> Session {
        self.session
    }

    /// The number of attempts of the registration that have failed.
    pub closed spec fn failed_posts(&self) -> nat {
        self.call.failed()
    }

    /// The envelope of this attempt.
    pub closed spec fn envelope(&self) -> SignedEnvelope {
        self.envelope
    }

    /// The request of this attempt.
    pub closed spec fn post(&self) -> HttpRequest {
        self.request
    }

    /// The request that is due: the signed registration.
    pub fn request(&self) -> (req: &HttpRequest)
        ensures
            *req == self.post(),
    {
        &self.request
    }

    /// The envelope that the request carries.
    pub fn signed_envelope(&self) -> (envelope: &SignedEnvelope)
        ensures
            *envelope == self.envelope(),
    {
        &self.envelope
    }

    /// Takes the authority's answer to the registration.
    ///
    /// On success the `location` header is the identifier of the key and
    /// the body describes the account; a response without the header
    /// fails with `MissingField`, and else one whose body is no JSON with
    /// `Decode`. A failed attempt is retried as the retry policy says, and
    /// the retry starts with the fetch of a new nonce: the envelope of this
    /// attempt is gone.
    pub fn on_response(self, res: HttpResponse) -> (step: Step<Registration, Registered>)
        ensures
            match judge(self.failed_posts(), res.status) {
                Judgement::Accept => match first_header(res.headers@, LOCATION@) {
                    Some(kid) => match account_in(res.body@) {
                        Some(record) => step matches Step::Finished(done) && {
                            &&& done.account().key().material() == self.session().key.material()
                            &&& done.account().key().id() == Some(kid)
                            &&& done.account().record()@ == record
                            &&& done.account().directory() == self.session().directory
                            &&& done.account().contact() == self.session().contact_email@
                            &&& done.handle() == self.session().pem_key
                            &&& done.is_new() == self.session().is_new
                        },
                        None => step matches Step::Failed(e) && e@ == (ErrorView::Decode {
                            encoding: Encoding::Json,
                        }),
                    },
                    None => step matches Step::Failed(e) && e@ == (ErrorView::MissingField {
                        name: LOCATION@,
                    }),
                },
                Judgement::Again => step matches Step::Next(next) && next.session()
                    == self.session() && next.failed_posts() == self.failed_posts() + 1
                    && next.failed_nonces() == 0,
                _ => step matches Step::Failed(e) && Some(e@) == failure_of(
                    self.failed_posts(),
                    res.status,
                    res.body@,
                ),
            },
    {
        match self.call.on_response(res) {
            Verdict::Success(res) => {
                let kid = match expect_header(&res, LOCATION) {
                    Ok(kid) => kid,
                    Err(e) => {
                        return Step::Failed(e);
                    },
                };
                let api_account = match ApiAccount::from_json(res.body.as_str()) {
                    Ok(api_account) => api_account,
                    Err(e) => {
                        return Step::Failed(e);
                    },
                };
                let session = self.session;
                let mut key = session.key;
                key.set_key_id(kid);
                let account = Account {
                    directory: session.directory,
                    contact_email: session.contact_email,
                    key,
                    api_account,
                };
                Step::Finished(
                    Registered { account, pem_key: session.pem_key, is_new: session.is_new },
                )
            },
            Verdict::Retry(call) => {
                let nonce = NonceFetch::new(self.session.directory.new_nonce.as_str());
                Step::Next(Registration { session: self.session, call, nonce })
            },
            Verdict::Failed(e) => Step::Failed(e),
        }
    }
}

impl Registered {
    /// The confirmed account.
    pub closed spec fn account(&self) -> Account {
        self.account
    }

    /// The handle of the account key in the store.
    pub closed spec fn handle(&self) -> PersistKey {
        self.pem_key
    }

    /// Whether the key was made by this bootstrap.
    pub closed spec fn is_new(&self) -> bool {
        self.is_new
    }

    /// The handle under which the key is stored.
    pub fn persist_key(&self) -> (key: &PersistKey)
        ensures
            *key == self.handle(),
    {
        &self.pem_key
    }

    /// The PEM text to store under the handle: that of the account key if
    /// this bootstrap made the key, nothing if the key came from the store.
    /// The key that is handed out is one that the authority has confirmed.
    pub fn key_to_persist(&self) -> (pem: Option<Vec<u8>>)
        ensures
            match pem {
                Some(pem) => self.is_new() && pem@ == self.account().key().material()
                    && is_key_material(pem@) && self.account().key().id() is Some,
                None => !self.is_new(),
            },
    {
        if self.is_new {
            let key = self.account.acme_key();
            Some(key.to_pem())
        } else {
            None
        }
    }

    /// The finished account, for a key that came from the store: there is
    /// nothing to write then. The account of a new key is handed out by
    /// [`Registered::finish`] alone, once the store has taken the key.
    pub fn into_account(self) -> (account: Option<Account>)
        ensures
            match account {
                Some(account) => !self.is_new() && account == self.account(),
                None => self.is_new(),
            },
    {
        if self.is_new {
            None
        } else {
            Some(self.account)
        }
    }

    /// Ends the bootstrap: a key that this bootstrap made goes to the
    /// store, under the handle of the contact, and the account is handed
    /// out.
    ///
    /// The store is asked once to put the PEM text of a new key, and the
    /// account is handed out if it did; where it fails, its failure is
    /// passed on as it is and no account is handed out. A key that came
    /// from the store is not written again, so nothing can fail then.
    pub fn finish<P: Persist>(self, persist: &P) -> (res: Result<Account, Error>)
        ensures
            self.is_new() ==> exists|bytes: &[u8], answer: Result<(), Error>|
                bytes@ == self.account().key().material() && #[trigger] call_ensures(
                    P::put,
                    (persist, &self.handle(), bytes),
                    answer,
                ) && match answer {
                    Ok(_) => res == Ok::<Account, Error>(self.account()),
                    Err(e) => res == Err::<Account, Error>(e),
                },
            !self.is_new() ==> res == Ok::<Account, Error>(self.account()),
    {
        match self.key_to_persist() {
            Some(pem) => {
                let bytes = pem.as_slice();
                let answer = persist.put(&self.pem_key, bytes);
                let ghost given = answer;
                let res = match answer {
                    Ok(_) => Ok(self.account),
                    Err(e) => Err(e),
                };
                assert(bytes@ == self.account().key().material() && call_ensures(
                    P::put,
                    (persist, &self.handle(), bytes),
                    given,
                ));
                res
            },
            None => Ok(self.account),
        }
    }
}

/// A key that a bootstrap stored is the key of every later bootstrap that
/// finds it in the store: OpenSSL reads the stored text, and what is loaded
/// from it is the key material that was stored.
pub proof fn lemma_stored_key_is_reused(first: &Registered, stored: Seq<u8>, second: &Registration)
    requires
        is_key_material(first.account().key().material()),
        stored == first.account().key().material(),
        private_key_pem(stored) == Some(second.session().key.material()),
    ensures
        is_readable_key(stored),
        second.session().key.material() == first.account().key().material(),
{
}

/// Two attempts of a registration that were signed with different nonces
/// carry different protected headers, each with the nonce it was signed
/// with.
pub proof fn lemma_attempts_spend_their_own_nonce(
    first: &Submission,
    second: &Submission,
    session: Session,
    nonce1: Seq<char>,
    nonce2: Seq<char>,
)
    requires
        submits(first, session, nonce1),
        submits(second, session, nonce2),
        nonce1 != nonce2,
    ensures
        first.envelope().header@.nonce == nonce1,
        second.envelope().header@.nonce == nonce2,
        first.envelope().header@ != second.envelope().header@,
{
}

} // verus!
