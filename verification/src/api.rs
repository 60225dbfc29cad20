//! The documents of the authority that the library reads and writes.

use crate::error::{Encoding, Error, ErrorView};
use crate::http::opt_view;
use crate::json::{json_document, json_string, parse, quote, string_member, string_members};
use vstd::prelude::*;
use vstd::string::StringExecFns;

verus! {

/// The directory of an authority: the endpoints that the client calls, and
/// the document that names them, kept as it came.
#[derive(Debug, PartialEq, Eq)]
pub struct ApiDirectory {
    pub new_nonce: String,
    pub new_account: String,
    pub new_order: String,
    pub document: String,
}

/// The mathematical value of an [`ApiDirectory`].
pub struct ApiDirectoryView {
    pub new_nonce: Seq<char>,
    pub new_account: Seq<char>,
    pub new_order: Seq<char>,
    pub document: Seq<char>,
}

impl View for ApiDirectory {
    type V = ApiDirectoryView;

    open spec fn view(&self) -> ApiDirectoryView {
        ApiDirectoryView {
            new_nonce: self.new_nonce@,
            new_account: self.new_account@,
            new_order: self.new_order@,
            document: self.document@,
        }
    }
}

impl Clone for ApiDirectory {
    fn clone(&self) -> (copy: ApiDirectory)
        ensures
            copy == *self,
    {
        ApiDirectory {
            new_nonce: self.new_nonce.clone(),
            new_account: self.new_account.clone(),
            new_order: self.new_order.clone(),
            document: self.document.clone(),
        }
    }
}

/// The directory that the document `text` with the string members `members`
/// describes: it must name the three endpoints.
pub open spec fn directory_of(
    text: Seq<char>,
    members: Map<Seq<char>, Seq<char>>,
) -> Option<ApiDirectoryView> {
    if members.contains_key("newNonce"@) && members.contains_key("newAccount"@)
        && members.contains_key("newOrder"@) {
        Some(
            ApiDirectoryView {
                new_nonce: members["newNonce"@],
                new_account: members["newAccount"@],
                new_order: members["newOrder"@],
                document: text,
            },
        )
    } else {
        None
    }
}

/// The directory that the body `text` of a response describes, if any.
pub open spec fn directory_in(text: Seq<char>) -> Option<ApiDirectoryView> {
    match json_document(text) {
        Some(members) => directory_of(text, members),
        None => None,
    }
}

impl ApiDirectory {
    /// The directory that a parsed document describes; `text` is the
    /// document as it came.
    ///
    /// Fails with a `Decode` error exactly where the document lacks one of
    /// the three endpoints, or where the endpoint is no string.
    pub fn from_document(text: &str, document: &serde_json::Value) -> (res: Result<
        ApiDirectory,
        Error,
    >)
        ensures
            match directory_of(text@, string_members(*document)) {
                Some(directory) => res matches Ok(d) && d@ == directory,
                None => res matches Err(e) && e@ == (ErrorView::Decode {
                    encoding: Encoding::Json,
                }),
            },
    {
        let new_nonce = string_member(document, "newNonce");
        let new_account = string_member(document, "newAccount");
        let new_order = string_member(document, "newOrder");
        match (new_nonce, new_account, new_order) {
            (Some(new_nonce), Some(new_account), Some(new_order)) => Ok(
                ApiDirectory { new_nonce, new_account, new_order, document: String::from_str(text) },
            ),
            _ => Err(Error::Decode { encoding: Encoding::Json }),
        }
    }

    /// Reads the directory from the body of a response.
    ///
    /// Fails with a `Decode` error exactly where `text` is not a JSON
    /// object or does not name the three endpoints.
    pub fn from_json(text: &str) -> (res: Result<ApiDirectory, Error>)
        ensures
            match directory_in(text@) {
                Some(directory) => res matches Ok(d) && d@ == directory,
                None => res matches Err(e) && e@ == (ErrorView::Decode {
                    encoding: Encoding::Json,
                }),
            },
    {
        match parse(text) {
            Some(document) => Self::from_document(text, &document),
            None => Err(Error::Decode { encoding: Encoding::Json }),
        }
    }

    /// The endpoint that the directory names `name`, whether or not the
    /// client knows the operation.
    pub fn endpoint(&self, name: &str) -> (url: Option<String>)
        ensures
            opt_view(url) == match json_document(self.document@) {
                Some(members) => if members.contains_key(name@) {
                    Some(members[name@])
                } else {
                    None
                },
                None => None,
            },
    {
        match parse(self.document.as_str()) {
            Some(document) => string_member(&document, name),
            None => None,
        }
    }
}

/// The account as the authority describes it: the members that the client
/// reads, and the document kept as it came.
#[derive(Debug, Clone, PartialEq, Eq)]
pub struct ApiAccount {
    pub status: Option<String>,
    pub orders: Option<String>,
    pub document: String,
}

/// The mathematical value of an [`ApiAccount`].
pub struct ApiAccountView {
    pub status: Option<Seq<char>>,
    pub orders: Option<Seq<char>>,
    pub document: Seq<char>,
}

impl View for ApiAccount {
    type V = ApiAccountView;

    open spec fn view(&self) -> ApiAccountView {
        ApiAccountView {
            status: opt_view(self.status),
            orders: opt_view(self.orders),
            document: self.document@,
        }
    }
}

/// The member `name` of `members`, if there is one.
pub open spec fn member(members: Map<Seq<char>, Seq<char>>, name: Seq<char>) -> Option<Seq<char>> {
    if members.contains_key(name) {
        Some(members[name])
    } else {
        None
    }
}

/// The account that the document `text` with the string members `members`
/// describes.
pub open spec fn account_of(text: Seq<char>, members: Map<Seq<char>, Seq<char>>) -> ApiAccountView {
    ApiAccountView {
        status: member(members, "status"@),
        orders: member(members, "orders"@),
        document: text,
    }
}

/// The account that the body `text` of a response describes, if any.
pub open spec fn account_in(text: Seq<char>) -> Option<ApiAccountView> {
    match json_document(text) {
        Some(members) => Some(account_of(text, members)),
        None => None,
    }
}

impl ApiAccount {
    /// The account that a parsed document describes; `text` is the document
    /// as it came.
    pub fn from_document(text: &str, document: &serde_json::Value) -> (account: ApiAccount)
        ensures
            account@ == account_of(text@, string_members(*document)),
    {
        ApiAccount {
            status: string_member(document, "status"),
            orders: string_member(document, "orders"),
            document: String::from_str(text),
        }
    }

    /// Reads the account from the body of a response.
    ///
    /// Fails with a `Decode` error exactly where `text` is not a JSON
    /// object.
    pub fn from_json(text: &str) -> (res: Result<ApiAccount, Error>)
        ensures
            match account_in(text@) {
                Some(account) => res matches Ok(a) && a@ == account,
                None => res matches Err(e) && e@ == (ErrorView::Decode {
                    encoding: Encoding::Json,
                }),
            },
    {
        match parse(text) {
            Some(document) => Ok(Self::from_document(text, &document)),
            None => Err(Error::Decode { encoding: Encoding::Json }),
        }
    }
}

/// The payload that registers the account of `contact_email`: the contact
/// address, and the agreement to the terms of service.
pub open spec fn registration_json(contact_email: Seq<char>) -> Seq<char> {
    "{\"contact\":["@ + json_string("mailto:"@ + contact_email)
        + "],\"termsOfServiceAgreed\":true}"@
}

/// The payload of the request that registers the account of
/// `contact_email`, or confirms it where it exists.
pub fn registration_payload(contact_email: &str) -> (text: String)
    ensures
        text@ == registration_json(contact_email@),
{
    let mut address = String::from_str("mailto:");
    address.append(contact_email);
    let mut text = String::from_str("{\"contact\":[");
    text.append(quote(address.as_str()).as_str());
    text.append("],\"termsOfServiceAgreed\":true}");
    text
}

} // verus!
